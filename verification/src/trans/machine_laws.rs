//! Laws of the emitted instructions: what the instructions of the stack
//! model, of checked arithmetic and of conditional edges do when they are
//! evaluated.

use vstd::prelude::*;
use vstd::arithmetic::power2::{lemma2_to64, lemma2_to64_rest, pow2};
use super::assign::{spec_checked_lower, spec_checked_op, spec_checked_upper, spec_checked_wide};
use super::edges::{spec_branch, PendingEdgeView};
use super::stack::{spec_alloca, spec_read_sp, spec_sp, spec_write_sp};
use crate::binaryen::builder::ReprType;
use crate::binaryen::ir::{BinaryOp, ExprView, Literal, UnaryOp};
use crate::binaryen::semantics::{
    eval, lemma_load_store, lemma_wrap64, lemma_wrap_unsigned, load4, run, store4, unsigned32,
    unsigned64, wrap32, Machine, Outcome,
};
use crate::mir::BinOp;

verus! {

/// The value of the stack pointer in the state `m`.
pub open spec fn spec_stack_pointer(m: Machine) -> int {
    wrap32(load4(m.memory, 0))
}

/// The read of the stack pointer yields its value and changes nothing.
pub proof fn lemma_read_sp(m: Machine)
    ensures
        eval(spec_read_sp(), m) == Some(
            Outcome { value: Some(spec_stack_pointer(m)), machine: m },
        ),
{
    lemma_wrap_unsigned(0);
    assert(eval(spec_sp(), m) == Some(Outcome { value: Some(0int), machine: m }));
}

/// An allocation lowers the stack pointer by the size of the frame in
/// bytes, and the slot of the allocation receives the new pointer. No
/// other slot changes.
pub proof fn lemma_alloca(m: Machine, dest: usize, size_bits: u32)
    ensures
        eval(spec_alloca(dest, size_bits), m) is Some,
        eval(spec_alloca(dest, size_bits), m)->0.value is None,
        spec_stack_pointer(eval(spec_alloca(dest, size_bits), m)->0.machine) == wrap32(
            spec_stack_pointer(m) - size_bits / 8,
        ),
        eval(spec_alloca(dest, size_bits), m)->0.machine.locals == m.locals.insert(
            dest,
            wrap32(spec_stack_pointer(m) - size_bits / 8),
        ),
{
    let new_sp = wrap32(spec_stack_pointer(m) - size_bits / 8);
    lemma_wrap_unsigned(0);
    lemma_wrap_unsigned(new_sp);
    lemma_wrap_unsigned(spec_stack_pointer(m) - size_bits / 8);
    lemma_load_store(m.memory, 0, unsigned32(new_sp));
    assert((size_bits / 8) as i32 as int == size_bits / 8);
    lemma_read_sp(m);
    let size = ExprView::Const(Literal::Int32((size_bits / 8) as i32));
    assert(eval(size, m) == Some(Outcome { value: Some((size_bits / 8) as int), machine: m }));
    let decr = ExprView::Binary {
        op: BinaryOp::SubInt32,
        left: Box::new(spec_read_sp()),
        right: Box::new(size),
    };
    assert(eval(decr, m) == Some(Outcome { value: Some(new_sp), machine: m }));
    let tee = ExprView::TeeLocal { index: dest, value: Box::new(decr) };
    let m1 = Machine { locals: m.locals.insert(dest, new_sp), ..m };
    assert(eval(tee, m) == Some(Outcome { value: Some(new_sp), machine: m1 }));
    assert(eval(spec_sp(), m) == Some(Outcome { value: Some(0int), machine: m }));
    let m2 = Machine { memory: store4(m1.memory, 0, unsigned32(new_sp)), ..m1 };
    assert(spec_alloca(dest, size_bits) == spec_write_sp(tee));
    assert(eval(spec_write_sp(tee), m) == Some(Outcome { value: None, machine: m2 }));
}

/// The allocations of frames of the sizes `sizes`, in bits, for the slots
/// `dests`, one after another.
pub open spec fn spec_allocas(dests: Seq<usize>, sizes: Seq<u32>) -> Seq<ExprView> {
    Seq::new(dests.len(), |i: int| spec_alloca(dests[i], sizes[i]))
}

/// Stack bump discipline.
///
/// Where frames are allocated one after another, each allocation finds
/// the stack pointer as the allocation before it left it, and leaves it
/// lower by the size of its frame in bytes, in the slot of the frame as
/// well. The slots of no other allocation change with it.
pub proof fn lemma_stack_bump(m: Machine, dests: Seq<usize>, sizes: Seq<u32>, k: nat)
    requires
        dests.len() == sizes.len(),
        k <= dests.len(),
    ensures
        run(spec_allocas(dests, sizes), m, k) is Some,
        k > 0 ==> {
            let before = run(spec_allocas(dests, sizes), m, (k - 1) as nat)->0;
            let after = run(spec_allocas(dests, sizes), m, k)->0;
            &&& spec_stack_pointer(after) == wrap32(
                spec_stack_pointer(before) - sizes[k - 1] / 8,
            )
            &&& after.locals == before.locals.insert(dests[k - 1], spec_stack_pointer(after))
        },
    decreases k,
{
    if k > 0 {
        lemma_stack_bump(m, dests, sizes, (k - 1) as nat);
        let before = run(spec_allocas(dests, sizes), m, (k - 1) as nat)->0;
        lemma_alloca(before, dests[k - 1], sizes[k - 1]);
    }
}

/// Allocations leave the slots that are not theirs as they were.
pub proof fn lemma_allocas_keep(m: Machine, dests: Seq<usize>, sizes: Seq<u32>, k: nat, slot: usize)
    requires
        dests.len() == sizes.len(),
        k <= dests.len(),
        forall|i: int| 0 <= i < dests.len() ==> dests[i] != slot,
    ensures
        run(spec_allocas(dests, sizes), m, k) is Some,
        run(spec_allocas(dests, sizes), m, k)->0.locals[slot] == m.locals[slot],
    decreases k,
{
    lemma_stack_bump(m, dests, sizes, k);
    if k > 0 {
        lemma_allocas_keep(m, dests, sizes, (k - 1) as nat, slot);
    }
}

/// The stack pointer is restored.
///
/// Where the prologue saves the stack pointer in the slot `sp_local`,
/// frames are then allocated for other slots, and the epilogue writes the
/// slot back to the stack pointer, the stack pointer is in the end what it
/// was at entry.
pub proof fn lemma_epilogue_restores(
    m: Machine,
    sp_local: usize,
    dests: Seq<usize>,
    sizes: Seq<u32>,
)
    requires
        dests.len() == sizes.len(),
        forall|i: int| 0 <= i < dests.len() ==> dests[i] != sp_local,
    ensures
        ({
            let prologue = ExprView::SetLocal { index: sp_local, value: Box::new(spec_read_sp()) };
            let epilogue = spec_write_sp(
                ExprView::GetLocal { index: sp_local, ty: Some(ReprType::Int32) },
            );
            &&& eval(prologue, m) is Some
            &&& run(spec_allocas(dests, sizes), eval(prologue, m)->0.machine, dests.len()) is Some
            &&& eval(
                epilogue,
                run(spec_allocas(dests, sizes), eval(prologue, m)->0.machine, dests.len())->0,
            ) is Some
            &&& spec_stack_pointer(
                eval(
                    epilogue,
                    run(spec_allocas(dests, sizes), eval(prologue, m)->0.machine, dests.len())->0,
                )->0.machine,
            ) == spec_stack_pointer(m)
        }),
{
    lemma_wrap_unsigned(0);
    let prologue = ExprView::SetLocal { index: sp_local, value: Box::new(spec_read_sp()) };
    lemma_read_sp(m);
    let v = spec_stack_pointer(m);
    let m1 = Machine { locals: m.locals.insert(sp_local, v), ..m };
    assert(eval(prologue, m) == Some(Outcome { value: None, machine: m1 }));
    lemma_allocas_keep(m1, dests, sizes, dests.len(), sp_local);
    let m2 = run(spec_allocas(dests, sizes), m1, dests.len())->0;
    lemma_wrap_unsigned(load4(m.memory, 0));
    lemma_wrap_unsigned(v);
    lemma_load_store(m2.memory, 0, unsigned32(v));
    let saved = ExprView::GetLocal { index: sp_local, ty: Some(ReprType::Int32) };
    assert(eval(saved, m2) == Some(Outcome { value: Some(v), machine: m2 }));
    assert(eval(spec_sp(), m2) == Some(Outcome { value: Some(0int), machine: m2 }));
    let m3 = Machine { memory: store4(m2.memory, 0, unsigned32(v)), ..m2 };
    assert(eval(spec_write_sp(saved), m2) == Some(Outcome { value: None, machine: m3 }));
}

/// The exact result of the operation `op` on `a` and `b`, for addition,
/// subtraction and multiplication.
pub open spec fn spec_exact(op: BinOp, a: int, b: int) -> int {
    match op {
        BinOp::Add => a + b,
        BinOp::Sub => a - b,
        _ => a * b,
    }
}

/// The words of a checked operation.
///
/// For addition, subtraction and multiplication of the 32-bit values `a`
/// and `b`, which the operands `left` and `right` yield without changing
/// the state: the scratch slot receives the exact result; the low word is
/// that result as a 32-bit value; and the high word is the upper half of
/// the result as a 64-bit value.
pub proof fn lemma_checked_words(
    m: Machine,
    scratch: usize,
    op: BinOp,
    left: ExprView,
    right: ExprView,
    a: int,
    b: int,
)
    requires
        op == BinOp::Add || op == BinOp::Sub || op == BinOp::Mul,
        -0x8000_0000 <= a < 0x8000_0000,
        -0x8000_0000 <= b < 0x8000_0000,
        eval(left, m) == Some(Outcome { value: Some(a), machine: m }),
        eval(right, m) == Some(Outcome { value: Some(b), machine: m }),
    ensures
        ({
            let wide = spec_checked_wide(scratch, spec_checked_op(op)->Ok_0, left, right);
            let exact = spec_exact(op, a, b);
            &&& spec_checked_op(op) is Ok
            &&& eval(wide, m) is Some
            &&& eval(wide, m)->0.machine.locals == m.locals.insert(scratch, exact)
            &&& eval(wide, m)->0.machine.memory == m.memory
            &&& eval(spec_checked_lower(scratch), eval(wide, m)->0.machine) is Some
            &&& eval(spec_checked_lower(scratch), eval(wide, m)->0.machine)->0.value == Some(
                wrap32(exact),
            )
            &&& eval(spec_checked_upper(scratch), eval(wide, m)->0.machine) is Some
            &&& eval(spec_checked_upper(scratch), eval(wide, m)->0.machine)->0.value == Some(
                wrap32(unsigned64(exact) / 0x1_0000_0000),
            )
        }),
{
    lemma2_to64();
    lemma2_to64_rest();
    let exact = spec_exact(op, a, b);
    assert(-0x4000_0000_0000_0000 <= a * b <= 0x4000_0000_0000_0000) by (nonlinear_arith)
        requires
            -0x8000_0000 <= a < 0x8000_0000,
            -0x8000_0000 <= b < 0x8000_0000,
    ;
    lemma_wrap64(exact);
    lemma_wrap64(32);
    assert(unsigned64(32) % 64 == 32);
    assert(pow2(32) == 0x1_0000_0000);
    let hi = unsigned64(exact) / 0x1_0000_0000;
    assert(0 <= hi < 0x1_0000_0000);
    lemma_wrap64(hi);
    let wide_op = spec_checked_op(op)->Ok_0;
    let l = ExprView::Unary { op: UnaryOp::ExtendSInt32, value: Box::new(left) };
    let r = ExprView::Unary { op: UnaryOp::ExtendSInt32, value: Box::new(right) };
    assert(eval(l, m) == Some(Outcome { value: Some(a), machine: m }));
    assert(eval(r, m) == Some(Outcome { value: Some(b), machine: m }));
    let wide_value = ExprView::Binary { op: wide_op, left: Box::new(l), right: Box::new(r) };
    assert(eval(wide_value, m) == Some(Outcome { value: Some(exact), machine: m }));
    let m1 = Machine { locals: m.locals.insert(scratch, exact), ..m };
    assert(eval(spec_checked_wide(scratch, wide_op, left, right), m) == Some(
        Outcome { value: None, machine: m1 },
    ));
    let get = ExprView::GetLocal { index: scratch, ty: Some(ReprType::Int64) };
    assert(eval(get, m1) == Some(Outcome { value: Some(exact), machine: m1 }));
    assert(eval(spec_checked_lower(scratch), m1) == Some(
        Outcome { value: Some(wrap32(exact)), machine: m1 },
    ));
    let by = ExprView::Const(Literal::Int64(32));
    assert(eval(by, m1) == Some(Outcome { value: Some(32int), machine: m1 }));
    let shifted = ExprView::Binary {
        op: BinaryOp::ShrUInt64,
        left: Box::new(get),
        right: Box::new(by),
    };
    assert(eval(shifted, m1) == Some(Outcome { value: Some(hi), machine: m1 }));
    assert(eval(spec_checked_upper(scratch), m1) == Some(
        Outcome { value: Some(wrap32(hi)), machine: m1 },
    ));
}

/// The branch of a conditional edge is taken exactly where the edge is:
/// where its condition is nonzero, if the edge is taken on true, and where
/// it is zero, if not.
pub proof fn lemma_branch_condition(e: PendingEdgeView, m: Machine)
    requires
        e.kind is Conditional,
        eval(e.kind->Conditional_cond, m) is Some,
        eval(e.kind->Conditional_cond, m)->0.value is Some,
    ensures
        eval(spec_branch(e)->Cond_cond, m) is Some,
        eval(spec_branch(e)->Cond_cond, m)->0.value is Some,
        eval(spec_branch(e)->Cond_cond, m)->0.value->0 != 0 <==> ((eval(
            e.kind->Conditional_cond,
            m,
        )->0.value->0 != 0) == e.kind->Conditional_taken_on_true),
{
    let cond = e.kind->Conditional_cond;
    if !e.kind->Conditional_taken_on_true {
        let negated = ExprView::Unary { op: UnaryOp::EqZInt32, value: Box::new(cond) };
        assert(eval(negated, m) is Some);
    }
}

} // verus!
