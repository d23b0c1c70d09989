//! What instruction trees mean, as far as the laws of the lowering speak
//! of it: the reads and writes of slots and of 32-bit words of linear
//! memory, and integer arithmetic.
//!
//! An instruction outside that part has no meaning here: its evaluation is
//! `None`.

use vstd::prelude::*;
use vstd::arithmetic::power2::pow2;
use super::ir::{BinaryOp, ExprView, Literal, UnaryOp};

verus! {

/// The state of the machine: the value of each slot, and each byte of
/// linear memory.
pub ghost struct Machine {
    pub locals: Map<usize, int>,
    pub memory: Map<int, int>,
}

/// What the evaluation of an instruction yields: a value, unless the
/// instruction has none, and the state it leaves.
pub ghost struct Outcome {
    pub value: Option<int>,
    pub machine: Machine,
}

/// The integer `x` as a signed 32-bit value.
#[verifier::opaque]
pub open spec fn wrap32(x: int) -> int {
    (x + 0x8000_0000) % 0x1_0000_0000 - 0x8000_0000
}

/// The integer `x` as a signed 64-bit value.
#[verifier::opaque]
pub open spec fn wrap64(x: int) -> int {
    (x + 0x8000_0000_0000_0000) % 0x1_0000_0000_0000_0000 - 0x8000_0000_0000_0000
}

/// The integer `x` as an unsigned 32-bit value.
#[verifier::opaque]
pub open spec fn unsigned32(x: int) -> int {
    x % 0x1_0000_0000
}

/// The integer `x` as an unsigned 64-bit value.
#[verifier::opaque]
pub open spec fn unsigned64(x: int) -> int {
    x % 0x1_0000_0000_0000_0000
}

/// The byte of memory at `addr`.
pub open spec fn byte_at(memory: Map<int, int>, addr: int) -> int {
    memory[addr] % 256
}

/// The unsigned 32-bit word whose four bytes are at `addr`, the lowest
/// first.
#[verifier::opaque]
pub open spec fn load4(memory: Map<int, int>, addr: int) -> int {
    byte_at(memory, addr) + 0x100 * byte_at(memory, addr + 1) + 0x1_0000 * byte_at(
        memory,
        addr + 2,
    ) + 0x100_0000 * byte_at(memory, addr + 3)
}

/// The memory after the four bytes of the unsigned 32-bit word `v` were
/// written at `addr`, the lowest first.
#[verifier::opaque]
pub open spec fn store4(memory: Map<int, int>, addr: int, v: int) -> Map<int, int> {
    memory.insert(addr, v % 256).insert(addr + 1, (v / 0x100) % 256).insert(
        addr + 2,
        (v / 0x1_0000) % 256,
    ).insert(addr + 3, (v / 0x100_0000) % 256)
}

/// The value of a one-operand operator on `v`.
pub open spec fn eval_unary(op: UnaryOp, v: int) -> int {
    match op {
        UnaryOp::EqZInt32 => if v == 0 {
            1
        } else {
            0
        },
        UnaryOp::ExtendSInt32 => v,
        UnaryOp::WrapInt64 => wrap32(v),
    }
}

/// The value of a two-operand operator on `a` and `b`, for the operators
/// of addition, subtraction and multiplication and for the unsigned 64-bit
/// shift to the right.
pub open spec fn eval_binary(op: BinaryOp, a: int, b: int) -> Option<int> {
    match op {
        BinaryOp::AddInt32 => Some(wrap32(a + b)),
        BinaryOp::SubInt32 => Some(wrap32(a - b)),
        BinaryOp::MulInt32 => Some(wrap32(a * b)),
        BinaryOp::AddInt64 => Some(wrap64(a + b)),
        BinaryOp::SubInt64 => Some(wrap64(a - b)),
        BinaryOp::MulInt64 => Some(wrap64(a * b)),
        BinaryOp::ShrUInt64 => Some(
            wrap64(unsigned64(a) / (pow2((unsigned64(b) % 64) as nat) as int)),
        ),
        _ => None,
    }
}

/// The evaluation of the instruction `e` in the state `m`.
pub open spec fn eval(e: ExprView, m: Machine) -> Option<Outcome>
    decreases e,
{
    match e {
        ExprView::Const(Literal::Int32(k)) => Some(Outcome { value: Some(k as int), machine: m }),
        ExprView::Const(Literal::Int64(k)) => Some(Outcome { value: Some(k as int), machine: m }),
        ExprView::GetLocal { index, ty } => Some(
            Outcome { value: Some(m.locals[index]), machine: m },
        ),
        ExprView::SetLocal { index, value } => match eval(*value, m) {
            Some(Outcome { value: Some(v), machine }) => Some(
                Outcome {
                    value: None,
                    machine: Machine { locals: machine.locals.insert(index, v), ..machine },
                },
            ),
            _ => None,
        },
        ExprView::TeeLocal { index, value } => match eval(*value, m) {
            Some(Outcome { value: Some(v), machine }) => Some(
                Outcome {
                    value: Some(v),
                    machine: Machine { locals: machine.locals.insert(index, v), ..machine },
                },
            ),
            _ => None,
        },
        ExprView::Load { bytes, signed, offset, align, ty, ptr } => if bytes == 4 {
            match eval(*ptr, m) {
                Some(Outcome { value: Some(a), machine }) => Some(
                    Outcome {
                        value: Some(wrap32(load4(machine.memory, unsigned32(a) + offset))),
                        machine,
                    },
                ),
                _ => None,
            }
        } else {
            None
        },
        ExprView::Store { bytes, offset, align, ptr, value, ty } => if bytes == 4 {
            match eval(*ptr, m) {
                Some(Outcome { value: Some(a), machine: m1 }) => match eval(*value, m1) {
                    Some(Outcome { value: Some(v), machine: m2 }) => Some(
                        Outcome {
                            value: None,
                            machine: Machine {
                                memory: store4(m2.memory, unsigned32(a) + offset, unsigned32(v)),
                                ..m2
                            },
                        },
                    ),
                    _ => None,
                },
                _ => None,
            }
        } else {
            None
        },
        ExprView::Unary { op, value } => match eval(*value, m) {
            Some(Outcome { value: Some(v), machine }) => Some(
                Outcome { value: Some(eval_unary(op, v)), machine },
            ),
            _ => None,
        },
        ExprView::Binary { op, left, right } => match eval(*left, m) {
            Some(Outcome { value: Some(a), machine: m1 }) => match eval(*right, m1) {
                Some(Outcome { value: Some(b), machine: m2 }) => match eval_binary(op, a, b) {
                    Some(v) => Some(Outcome { value: Some(v), machine: m2 }),
                    None => None,
                },
                _ => None,
            },
            _ => None,
        },
        ExprView::Drop { value } => match eval(*value, m) {
            Some(Outcome { value: Some(v), machine }) => Some(Outcome { value: None, machine }),
            _ => None,
        },
        _ => None,
    }
}

/// The state after the first `n` of the instructions `stmts` were
/// evaluated in order, from the state `m`.
pub open spec fn run(stmts: Seq<ExprView>, m: Machine, n: nat) -> Option<Machine>
    decreases n,
{
    if n == 0 {
        Some(m)
    } else {
        match run(stmts, m, (n - 1) as nat) {
            Some(before) => match eval(stmts[n - 1], before) {
                Some(o) => Some(o.machine),
                None => None,
            },
            None => None,
        }
    }
}

/// A 32-bit word that was written is what is read at the same address.
pub proof fn lemma_load_store(memory: Map<int, int>, addr: int, v: int)
    requires
        0 <= v < 0x1_0000_0000,
    ensures
        load4(store4(memory, addr, v), addr) == v,
{
    reveal(load4);
    reveal(store4);
}

/// The signed and the unsigned reading of a 32-bit value are readings of
/// the same value, and a value that fits is read as itself.
pub proof fn lemma_wrap_unsigned(x: int)
    ensures
        wrap32(unsigned32(x)) == wrap32(x),
        wrap32(wrap32(x)) == wrap32(x),
        0 <= unsigned32(x) < 0x1_0000_0000,
        -0x8000_0000 <= wrap32(x) < 0x8000_0000,
        -0x8000_0000 <= x < 0x8000_0000 ==> wrap32(x) == x,
        0 <= x < 0x1_0000_0000 ==> unsigned32(x) == x,
{
    reveal(wrap32);
    reveal(unsigned32);
}

/// A value that fits in 64 bits is read as itself.
pub proof fn lemma_wrap64(x: int)
    ensures
        -0x8000_0000_0000_0000 <= x < 0x8000_0000_0000_0000 ==> wrap64(x) == x,
        0 <= unsigned64(x) < 0x1_0000_0000_0000_0000,
        0 <= x < 0x1_0000_0000_0000_0000 ==> unsigned64(x) == x,
{
    reveal(wrap64);
    reveal(unsigned64);
}

} // verus!
