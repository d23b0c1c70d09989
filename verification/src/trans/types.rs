//! From source types to the types of the target, and the layout facts of
//! aggregates.

use vstd::prelude::*;
use crate::binaryen::builder::{ReprType, Type};
use crate::error::ErrorKind;
use crate::mir::{FloatTy, IntTy, Integer, Layout, Program, TyKind, TypeId, UintTy};

verus! {

/// The representable type of values of a source type: none for the unit
/// and never types, the float of the same width for floats, the 64-bit
/// integer for `i64` and `u64`, and the 32-bit integer for everything else.
pub open spec fn spec_rust_ty_to_builder(t: TyKind) -> Type {
    match t {
        TyKind::Nil | TyKind::Never => None,
        TyKind::Float(FloatTy::F32) => Some(ReprType::Float32),
        TyKind::Float(FloatTy::F64) => Some(ReprType::Float64),
        TyKind::Int(IntTy::I64) | TyKind::Uint(UintTy::U64) => Some(ReprType::Int64),
        _ => Some(ReprType::Int32),
    }
}

#[verifier::when_used_as_spec(spec_rust_ty_to_builder)]
pub fn rust_ty_to_builder(t: TyKind) -> (r: Type)
    ensures
        r == spec_rust_ty_to_builder(t),
{
    match t {
        TyKind::Nil | TyKind::Never => None,
        TyKind::Float(FloatTy::F32) => Some(ReprType::Float32),
        TyKind::Float(FloatTy::F64) => Some(ReprType::Float64),
        TyKind::Int(IntTy::I64) | TyKind::Uint(UintTy::U64) => Some(ReprType::Int64),
        _ => Some(ReprType::Int32),
    }
}

/// The type given to instructions that read or yield a value of a source
/// type.
pub fn rust_ty_to_binaryen(t: TyKind) -> (r: Type)
    ensures
        r == spec_rust_ty_to_builder(t),
{
    rust_ty_to_builder(t)
}

/// Whether a type is the unit type.
pub open spec fn is_nil(t: TyKind) -> bool {
    t == TyKind::Nil
}

/// Whether a type is the never type.
pub open spec fn is_never(t: TyKind) -> bool {
    t == TyKind::Never
}

/// The kind of the type `ty`; a type the program does not describe has none.
pub open spec fn spec_type_kind(program: &Program, ty: TypeId) -> Result<TyKind, ErrorKind> {
    if ty < program.types.len() {
        Ok(program.types[ty as int].kind)
    } else {
        Err(ErrorKind::LayoutFailure)
    }
}

pub fn type_kind(program: &Program, ty: TypeId) -> (r: Result<TyKind, ErrorKind>)
    ensures
        r == spec_type_kind(program, ty),
{
    if ty < program.types.len() {
        Ok(program.types[ty].kind)
    } else {
        Err(ErrorKind::LayoutFailure)
    }
}

/// Whether a layout is known for the type `ty`.
pub open spec fn has_layout(program: &Program, ty: TypeId) -> bool {
    ty < program.types.len() && program.types[ty as int].layout is Some
}

/// The layout of `ty`, where [`has_layout`] holds.
pub open spec fn layout_of(program: &Program, ty: TypeId) -> Layout {
    program.types[ty as int].layout->0
}

/// The layout of the type `ty`. Fails with `LayoutFailure` exactly when
/// none is known.
pub fn type_layout(program: &Program, ty: TypeId) -> (r: Result<&Layout, ErrorKind>)
    ensures
        match r {
            Ok(l) => has_layout(program, ty) && *l == layout_of(program, ty),
            Err(e) => !has_layout(program, ty) && e == ErrorKind::LayoutFailure,
        },
{
    if ty < program.types.len() {
        match &program.types[ty].layout {
            Some(l) => Ok(l),
            None => Err(ErrorKind::LayoutFailure),
        }
    } else {
        Err(ErrorKind::LayoutFailure)
    }
}

/// The size in bytes of the type `ty`, which is a fact of its layout.
pub open spec fn spec_type_size(program: &Program, ty: TypeId) -> Result<u64, ErrorKind> {
    if has_layout(program, ty) {
        Ok(program.types[ty as int].size)
    } else {
        Err(ErrorKind::LayoutFailure)
    }
}

pub fn type_size(program: &Program, ty: TypeId) -> (r: Result<u64, ErrorKind>)
    ensures
        r == spec_type_size(program, ty),
{
    match type_layout(program, ty) {
        Ok(_) => Ok(program.types[ty].size),
        Err(e) => Err(e),
    }
}

/// The size of a frame for a value of type `ty`, in bits, as far as it can
/// be handed to the allocator: the size in bytes times 8, where that is
/// below 2^32.
pub open spec fn spec_frame_bits(program: &Program, ty: TypeId) -> Result<u32, ErrorKind> {
    match spec_type_size(program, ty) {
        Err(e) => Err(e),
        Ok(bytes) => if bytes <= 0x1fff_ffff {
            Ok((bytes * 8) as u32)
        } else {
            Err(ErrorKind::UnsupportedLayout)
        },
    }
}

pub fn frame_bits(program: &Program, ty: TypeId) -> (r: Result<u32, ErrorKind>)
    ensures
        r == spec_frame_bits(program, ty),
{
    let bytes = type_size(program, ty)?;
    if bytes <= 0x1fff_ffff {
        Ok((bytes * 8) as u32)
    } else {
        Err(ErrorKind::UnsupportedLayout)
    }
}

impl Integer {
    /// The width in bytes of the integer; 128-bit integers are not
    /// supported.
    pub open spec fn spec_size(self) -> Result<u32, ErrorKind> {
        match self {
            Integer::I1 | Integer::I8 => Ok(1u32),
            Integer::I16 => Ok(2u32),
            Integer::I32 => Ok(4u32),
            Integer::I64 => Ok(8u32),
            Integer::I128 => Err(ErrorKind::UnsupportedLayout),
        }
    }

    #[verifier::when_used_as_spec(spec_size)]
    pub fn size(self) -> (r: Result<u32, ErrorKind>)
        ensures
            r == self.spec_size(),
    {
        match self {
            Integer::I1 | Integer::I8 => Ok(1u32),
            Integer::I16 => Ok(2u32),
            Integer::I32 => Ok(4u32),
            Integer::I64 => Ok(8u32),
            Integer::I128 => Err(ErrorKind::UnsupportedLayout),
        }
    }
}

} // verus!
