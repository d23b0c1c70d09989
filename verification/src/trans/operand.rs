//! Operands: reads of storage locations, and constants.

use vstd::prelude::*;
use super::context::{BinaryenFnCtxt, Slots};
use super::place::{lval_ty, spec_lval, spec_lval_ty, BinaryenLvalue};
use super::types::{rust_ty_to_binaryen, spec_rust_ty_to_builder, spec_type_kind, type_kind};
use crate::binaryen::builder::{ReprType, Type};
use crate::binaryen::ir::{constant, get_local, load, trap, Expr, ExprView, Literal};
use crate::error::ErrorKind;
use crate::mir::{ConstInt, ConstIsize, ConstVal, Constant, Lvalue, Mir, Operand, Program, TypeId};

verus! {

/// The read of the resolved location `place`, whose slot is read as a
/// value of type `ty`: the slot itself where the location has no offset,
/// else the 32-bit word at the offset from the address in the slot.
pub open spec fn spec_read(place: BinaryenLvalue, ty: Type) -> ExprView {
    match place.offset {
        Some(offset) => ExprView::Load {
            bytes: 4,
            signed: false,
            offset,
            align: 0,
            ty: Some(ReprType::Int32),
            ptr: Box::new(ExprView::GetLocal { index: place.index, ty }),
        },
        None => ExprView::GetLocal { index: place.index, ty },
    }
}

/// The read of a location. A location of unit or never type has no value:
/// its read is the instruction that traps.
pub open spec fn spec_consume(program: &Program, mir: &Mir, s: Slots, lvalue: &Lvalue) -> Result<
    ExprView,
    ErrorKind,
> {
    match spec_lval(program, mir, s, lvalue) {
        Err(e) => Err(e),
        Ok(None) => Ok(ExprView::Unreachable),
        Ok(Some(place)) => match spec_lval_ty(mir, lvalue) {
            Err(e) => Err(e),
            Ok(t) => match spec_type_kind(program, t) {
                Err(e) => Err(e),
                Ok(kind) => Ok(spec_read(place, spec_rust_ty_to_builder(kind))),
            },
        },
    }
}

/// The instruction that yields the value of a location, if the location
/// holds one: a location of unit or never type holds none.
pub open spec fn spec_place_value(program: &Program, mir: &Mir, s: Slots, lvalue: &Lvalue)
    -> Result<Option<ExprView>, ErrorKind> {
    match spec_lval(program, mir, s, lvalue) {
        Err(e) => Err(e),
        Ok(None) => Ok(None),
        Ok(Some(_)) => match spec_consume(program, mir, s, lvalue) {
            Err(e) => Err(e),
            Ok(v) => Ok(Some(v)),
        },
    }
}

/// The literal for a constant: 32-bit for `i32` and for `isize`, of which
/// a 64-bit value keeps its low 32 bits; 64-bit for `i64`; 1 and 0 for
/// `true` and `false`. Other constants are not supported.
pub open spec fn spec_literal(value: ConstVal) -> Result<Literal, ErrorKind> {
    match value {
        ConstVal::Integral(ConstInt::Isize(ConstIsize::Is32(val))) => Ok(Literal::Int32(val)),
        ConstVal::Integral(ConstInt::I32(val)) => Ok(Literal::Int32(val)),
        ConstVal::Integral(ConstInt::Isize(ConstIsize::Is64(val))) => Ok(
            Literal::Int32(val as i32),
        ),
        ConstVal::Integral(ConstInt::I64(val)) => Ok(Literal::Int64(val)),
        ConstVal::Bool(val) => Ok(
            Literal::Int32(
                if val {
                    1
                } else {
                    0
                },
            ),
        ),
        _ => Err(ErrorKind::UnsupportedConstant),
    }
}

/// The instruction for a constant operand.
pub open spec fn spec_constant(c: Constant) -> Result<ExprView, ErrorKind> {
    match c.literal {
        crate::mir::Literal::Value(value) => match spec_literal(value) {
            Ok(lit) => Ok(ExprView::Const(lit)),
            Err(e) => Err(e),
        },
        _ => Err(ErrorKind::UnsupportedConstant),
    }
}

/// The instruction that yields the value of an operand.
pub open spec fn spec_operand(program: &Program, mir: &Mir, s: Slots, operand: &Operand) -> Result<
    ExprView,
    ErrorKind,
> {
    match operand {
        Operand::Consume(lvalue) => spec_consume(program, mir, s, lvalue),
        Operand::Constant(c) => spec_constant(*c),
    }
}

/// The instruction that yields the value of an operand, if the operand
/// has one: a read of a location of unit or never type has none.
pub open spec fn spec_operand_value(
    program: &Program,
    mir: &Mir,
    s: Slots,
    operand: &Operand,
) -> Result<Option<ExprView>, ErrorKind> {
    match operand {
        Operand::Consume(lvalue) => spec_place_value(program, mir, s, lvalue),
        Operand::Constant(c) => match spec_constant(*c) {
            Err(e) => Err(e),
            Ok(v) => Ok(Some(v)),
        },
    }
}

/// The type of an operand.
pub open spec fn spec_operand_ty(mir: &Mir, operand: &Operand) -> Result<TypeId, ErrorKind> {
    match operand {
        Operand::Consume(lvalue) => spec_lval_ty(mir, lvalue),
        Operand::Constant(c) => Ok(c.ty),
    }
}

pub fn operand_ty(mir: &Mir, operand: &Operand) -> (r: Result<TypeId, ErrorKind>)
    ensures
        r == spec_operand_ty(mir, operand),
{
    match operand {
        Operand::Consume(lvalue) => lval_ty(mir, lvalue),
        Operand::Constant(c) => Ok(c.ty),
    }
}

/// Whether `r` is the outcome `spec`: the same failure, or a tree whose
/// model is the instruction of `spec`.
pub open spec fn yields(r: Result<Expr, ErrorKind>, spec: Result<ExprView, ErrorKind>) -> bool {
    match r {
        Ok(e) => spec == Ok::<ExprView, ErrorKind>(e@),
        Err(k) => spec == Err::<ExprView, ErrorKind>(k),
    }
}

/// The literal for a constant; see [`spec_literal`].
pub fn literal(value: ConstVal) -> (r: Result<Literal, ErrorKind>)
    ensures
        r == spec_literal(value),
{
    match value {
        ConstVal::Integral(ConstInt::Isize(ConstIsize::Is32(val))) => Ok(Literal::Int32(val)),
        ConstVal::Integral(ConstInt::I32(val)) => Ok(Literal::Int32(val)),
        ConstVal::Integral(ConstInt::Isize(ConstIsize::Is64(val))) => Ok(
            Literal::Int32(
                #[verifier::truncate]
                (val as i32),
            ),
        ),
        ConstVal::Integral(ConstInt::I64(val)) => Ok(Literal::Int64(val)),
        ConstVal::Bool(val) => {
            let val: i32 = if val {
                1
            } else {
                0
            };
            Ok(Literal::Int32(val))
        },
        _ => Err(ErrorKind::UnsupportedConstant),
    }
}

/// Whether `r` is the outcome `spec`: the same failure, or no tree where
/// `spec` has no instruction, or a tree whose model is the instruction of
/// `spec`.
pub open spec fn yields_value(
    r: Result<Option<Expr>, ErrorKind>,
    spec: Result<Option<ExprView>, ErrorKind>,
) -> bool {
    match r {
        Ok(Some(e)) => spec == Ok::<Option<ExprView>, ErrorKind>(Some(e@)),
        Ok(None) => spec == Ok::<Option<ExprView>, ErrorKind>(None),
        Err(k) => spec == Err::<Option<ExprView>, ErrorKind>(k),
    }
}

impl BinaryenFnCtxt {
    /// The instruction that yields the value of a location, if it holds
    /// one; see [`spec_place_value`].
    pub fn trans_place_value(&self, program: &Program, mir: &Mir, lvalue: &Lvalue) -> (r: Result<
        Option<Expr>,
        ErrorKind,
    >)
        ensures
            yields_value(r, spec_place_value(program, mir, self@, lvalue)),
    {
        match self.trans_lval(program, mir, lvalue)? {
            None => Ok(None),
            Some(_) => Ok(Some(self.trans_consume(program, mir, lvalue)?)),
        }
    }

    /// The instruction that yields the value of an operand, if it has one;
    /// see [`spec_operand_value`].
    pub fn trans_operand_value(&self, program: &Program, mir: &Mir, operand: &Operand) -> (r:
        Result<Option<Expr>, ErrorKind>)
        ensures
            yields_value(r, spec_operand_value(program, mir, self@, operand)),
    {
        match operand {
            Operand::Consume(lvalue) => self.trans_place_value(program, mir, lvalue),
            Operand::Constant(_) => Ok(Some(self.trans_operand(program, mir, operand)?)),
        }
    }

    /// The read of a location; see [`spec_consume`].
    pub fn trans_consume(&self, program: &Program, mir: &Mir, lvalue: &Lvalue) -> (r: Result<
        Expr,
        ErrorKind,
    >)
        ensures
            yields(r, spec_consume(program, mir, self@, lvalue)),
    {
        let binaryen_lvalue = match self.trans_lval(program, mir, lvalue)? {
            Some(lval) => lval,
            None => {
                return Ok(trap());
            },
        };
        let lval_ty = lval_ty(mir, lvalue)?;
        let t = rust_ty_to_binaryen(type_kind(program, lval_ty)?);
        match binaryen_lvalue.offset {
            Some(offset) => {
                let ptr = get_local(binaryen_lvalue.index, t);
                Ok(load(4, false, offset, 0, Some(ReprType::Int32), ptr))
            },
            None => Ok(get_local(binaryen_lvalue.index, t)),
        }
    }

    /// The instruction that yields the value of an operand; see
    /// [`spec_operand`].
    pub fn trans_operand(&self, program: &Program, mir: &Mir, operand: &Operand) -> (r: Result<
        Expr,
        ErrorKind,
    >)
        ensures
            yields(r, spec_operand(program, mir, self@, operand)),
    {
        match operand {
            Operand::Consume(lvalue) => self.trans_consume(program, mir, lvalue),
            Operand::Constant(c) => {
                match c.literal {
                    crate::mir::Literal::Value(value) => {
                        let lit = literal(value)?;
                        Ok(constant(lit))
                    },
                    _ => Err(ErrorKind::UnsupportedConstant),
                }
            },
        }
    }
}

} // verus!
