//! Helper functions for translating binops.

use vstd::prelude::*;
use crate::binaryen::ir::BinaryOp;
use crate::error::ErrorKind;
use crate::mir::{BinOp, IntTy, TyKind};

verus! {

/// The 32-bit signed operator for `op`, if there is one.
pub open spec fn int32_op(op: BinOp) -> Option<BinaryOp> {
    match op {
        BinOp::Add => Some(BinaryOp::AddInt32),
        BinOp::Sub => Some(BinaryOp::SubInt32),
        BinOp::Mul => Some(BinaryOp::MulInt32),
        BinOp::Div => Some(BinaryOp::DivSInt32),
        BinOp::BitAnd => Some(BinaryOp::AndInt32),
        BinOp::BitOr => Some(BinaryOp::OrInt32),
        BinOp::BitXor => Some(BinaryOp::XorInt32),
        BinOp::Eq => Some(BinaryOp::EqInt32),
        BinOp::Ne => Some(BinaryOp::NeInt32),
        BinOp::Lt => Some(BinaryOp::LtSInt32),
        BinOp::Le => Some(BinaryOp::LeSInt32),
        BinOp::Gt => Some(BinaryOp::GtSInt32),
        BinOp::Ge => Some(BinaryOp::GeSInt32),
        _ => None,
    }
}

/// The 64-bit signed operator for `op`, if there is one.
pub open spec fn int64_op(op: BinOp) -> Option<BinaryOp> {
    match op {
        BinOp::Add => Some(BinaryOp::AddInt64),
        BinOp::Sub => Some(BinaryOp::SubInt64),
        BinOp::Mul => Some(BinaryOp::MulInt64),
        BinOp::Div => Some(BinaryOp::DivSInt64),
        BinOp::BitAnd => Some(BinaryOp::AndInt64),
        BinOp::BitOr => Some(BinaryOp::OrInt64),
        BinOp::BitXor => Some(BinaryOp::XorInt64),
        BinOp::Eq => Some(BinaryOp::EqInt64),
        BinOp::Ne => Some(BinaryOp::NeInt64),
        BinOp::Lt => Some(BinaryOp::LtSInt64),
        BinOp::Le => Some(BinaryOp::LeSInt64),
        BinOp::Gt => Some(BinaryOp::GtSInt64),
        BinOp::Ge => Some(BinaryOp::GeSInt64),
        _ => None,
    }
}

/// The operator for `op` on operands of type `ty`: the 32-bit one for
/// `i32` and `i16`, the 64-bit one for `i64`. Other types, and operators
/// without a signed counterpart of that width, are not supported.
pub open spec fn spec_binaryen_op_for(op: BinOp, ty: TyKind) -> Result<BinaryOp, ErrorKind> {
    match ty {
        TyKind::Int(IntTy::I32) | TyKind::Int(IntTy::I16) => match int32_op(op) {
            Some(b) => Ok(b),
            None => Err(ErrorKind::UnsupportedOperator),
        },
        TyKind::Int(IntTy::I64) => match int64_op(op) {
            Some(b) => Ok(b),
            None => Err(ErrorKind::UnsupportedOperator),
        },
        _ => Err(ErrorKind::UnsupportedType),
    }
}

pub fn op32(op: BinOp) -> (r: Option<BinaryOp>)
    ensures
        r == int32_op(op),
{
    match op {
        BinOp::Add => Some(BinaryOp::AddInt32),
        BinOp::Sub => Some(BinaryOp::SubInt32),
        BinOp::Mul => Some(BinaryOp::MulInt32),
        BinOp::Div => Some(BinaryOp::DivSInt32),
        BinOp::BitAnd => Some(BinaryOp::AndInt32),
        BinOp::BitOr => Some(BinaryOp::OrInt32),
        BinOp::BitXor => Some(BinaryOp::XorInt32),
        BinOp::Eq => Some(BinaryOp::EqInt32),
        BinOp::Ne => Some(BinaryOp::NeInt32),
        BinOp::Lt => Some(BinaryOp::LtSInt32),
        BinOp::Le => Some(BinaryOp::LeSInt32),
        BinOp::Gt => Some(BinaryOp::GtSInt32),
        BinOp::Ge => Some(BinaryOp::GeSInt32),
        _ => None,
    }
}

pub fn op64(op: BinOp) -> (r: Option<BinaryOp>)
    ensures
        r == int64_op(op),
{
    match op {
        BinOp::Add => Some(BinaryOp::AddInt64),
        BinOp::Sub => Some(BinaryOp::SubInt64),
        BinOp::Mul => Some(BinaryOp::MulInt64),
        BinOp::Div => Some(BinaryOp::DivSInt64),
        BinOp::BitAnd => Some(BinaryOp::AndInt64),
        BinOp::BitOr => Some(BinaryOp::OrInt64),
        BinOp::BitXor => Some(BinaryOp::XorInt64),
        BinOp::Eq => Some(BinaryOp::EqInt64),
        BinOp::Ne => Some(BinaryOp::NeInt64),
        BinOp::Lt => Some(BinaryOp::LtSInt64),
        BinOp::Le => Some(BinaryOp::LeSInt64),
        BinOp::Gt => Some(BinaryOp::GtSInt64),
        BinOp::Ge => Some(BinaryOp::GeSInt64),
        _ => None,
    }
}

pub fn binaryen_op_for(op: BinOp, ty: TyKind) -> (r: Result<BinaryOp, ErrorKind>)
    ensures
        r == spec_binaryen_op_for(op, ty),
{
    match ty {
        TyKind::Int(IntTy::I32) | TyKind::Int(IntTy::I16) => match op32(op) {
            Some(b) => Ok(b),
            None => Err(ErrorKind::UnsupportedOperator),
        },
        TyKind::Int(IntTy::I64) => match op64(op) {
            Some(b) => Ok(b),
            None => Err(ErrorKind::UnsupportedOperator),
        },
        _ => Err(ErrorKind::UnsupportedType),
    }
}

} // verus!
