//! Resolution of storage locations.

use vstd::prelude::*;
use super::context::{spec_local_index, BinaryenFnCtxt, Slots};
use super::types::{has_layout, layout_of, type_layout};
use crate::error::ErrorKind;
use crate::mir::{Layout, Lvalue, Mir, Program, ProjectionElem, Struct, TypeId};

verus! {

/// What a resolved location carries besides slot and offset.
#[derive(Copy, Clone, Debug, PartialEq, Eq, Structural)]
pub enum LvalueExtra {
    Nothing,
    /// The location is seen as the variant with this index.
    DowncastVariant(usize),
}

/// A resolved storage location.
///
/// With `offset == None` the slot `index` holds the value itself. With
/// `offset == Some(k)` the slot holds an address into linear memory and the
/// value lives `k` bytes after it.
#[derive(Copy, Clone, Debug, PartialEq, Eq, Structural)]
pub struct BinaryenLvalue {
    pub index: usize,
    pub offset: Option<u32>,
    pub extra: LvalueExtra,
}

impl BinaryenLvalue {
    pub fn new(index: usize, offset: Option<u32>, extra: LvalueExtra) -> (r: Self)
        ensures
            r == (BinaryenLvalue { index, offset, extra }),
    {
        BinaryenLvalue { index: index, offset: offset, extra: extra }
    }

    /// The offset in bytes, with 0 for a location that has none.
    pub open spec fn offset_or_zero(self) -> int {
        match self.offset {
            None => 0,
            Some(k) => k as int,
        }
    }

    /// The location `offset` bytes further on.
    pub fn offset(&self, offset: u32) -> (r: Self)
        requires
            self.offset_or_zero() + offset <= u32::MAX,
        ensures
            r == (BinaryenLvalue {
                index: self.index,
                offset: Some((self.offset_or_zero() + offset) as u32),
                extra: self.extra,
            }),
    {
        let offset = match self.offset {
            None => Some(offset),
            Some(base_offset) => Some(base_offset + offset),
        };
        Self::new(self.index, offset, self.extra)
    }
}

/// The type of a location: the declared type of a local, the recorded type
/// of a projection.
pub open spec fn spec_lval_ty(mir: &Mir, lvalue: &Lvalue) -> Result<TypeId, ErrorKind> {
    match lvalue {
        Lvalue::Local(i) => if *i < mir.local_decls.len() {
            Ok(mir.local_decls[*i as int].ty)
        } else {
            Err(ErrorKind::UnsupportedPlace)
        },
        Lvalue::Static => Err(ErrorKind::UnsupportedPlace),
        Lvalue::Projection(p) => Ok(p.ty),
    }
}

pub fn lval_ty(mir: &Mir, lvalue: &Lvalue) -> (r: Result<TypeId, ErrorKind>)
    ensures
        r == spec_lval_ty(mir, lvalue),
{
    match lvalue {
        Lvalue::Local(i) => if *i < mir.local_decls.len() {
            Ok(mir.local_decls[*i].ty)
        } else {
            Err(ErrorKind::UnsupportedPlace)
        },
        Lvalue::Static => Err(ErrorKind::UnsupportedPlace),
        Lvalue::Projection(p) => Ok(p.ty),
    }
}

/// The fields that a field projection selects among: those of the single
/// variant of a record, or those of the variant that a tagged union was
/// downcast to.
pub open spec fn spec_active_variant(layout: Layout, extra: LvalueExtra) -> Result<
    Struct,
    ErrorKind,
> {
    match layout {
        Layout::Univariant { variant } => Ok(variant),
        Layout::General { discr, variants } => match extra {
            LvalueExtra::DowncastVariant(v) => if v < variants.len() {
                Ok(variants[v as int])
            } else {
                Err(ErrorKind::UnsupportedPlace)
            },
            LvalueExtra::Nothing => Err(ErrorKind::UnsupportedPlace),
        },
        _ => Err(ErrorKind::UnsupportedPlace),
    }
}

/// One projection step from the resolved location `base`, whose type has
/// the layout `layout`.
///
/// - A dereference of a location without offset reads the slot as an
///   address: the offset becomes 0. With an offset it is not supported.
/// - A field adds its byte offset in the active variant to the offset of
///   the base, counted as 0 where the base has none.
/// - A downcast of a tagged union without offset sets the offset to the
///   width of the discriminant and records the variant.
///
/// Everything else is not supported, and so is an offset past 2^32 - 1.
pub open spec fn spec_project(base: BinaryenLvalue, layout: Layout, elem: ProjectionElem) -> Result<
    BinaryenLvalue,
    ErrorKind,
> {
    match elem {
        ProjectionElem::Deref => if base.offset is None {
            Ok(BinaryenLvalue { index: base.index, offset: Some(0), extra: LvalueExtra::Nothing })
        } else {
            Err(ErrorKind::UnsupportedPlace)
        },
        ProjectionElem::Field(f) => match spec_active_variant(layout, base.extra) {
            Err(e) => Err(e),
            Ok(variant) => if f < variant.offsets.len() && base.offset_or_zero()
                + variant.offsets[f as int] <= u32::MAX {
                Ok(
                    BinaryenLvalue {
                        index: base.index,
                        offset: Some((base.offset_or_zero() + variant.offsets[f as int]) as u32),
                        extra: LvalueExtra::Nothing,
                    },
                )
            } else {
                Err(ErrorKind::UnsupportedPlace)
            },
        },
        ProjectionElem::Downcast(v) => match layout {
            Layout::General { discr, variants } => if base.offset is None {
                match discr.size() {
                    Ok(width) => Ok(
                        BinaryenLvalue {
                            index: base.index,
                            offset: Some(width),
                            extra: LvalueExtra::DowncastVariant(v),
                        },
                    ),
                    Err(e) => Err(e),
                }
            } else {
                Err(ErrorKind::UnsupportedPlace)
            },
            _ => Err(ErrorKind::UnsupportedPlace),
        },
        ProjectionElem::Other => Err(ErrorKind::UnsupportedPlace),
    }
}

/// The resolution of a location, by recursion over its projections.
///
/// `Ok(None)` is a location of unit or never type: one rooted in a local
/// without a slot. A projection needs the layout of the type of its base.
pub open spec fn spec_lval(program: &Program, mir: &Mir, s: Slots, lvalue: &Lvalue) -> Result<
    Option<BinaryenLvalue>,
    ErrorKind,
>
    decreases lvalue,
{
    match lvalue {
        Lvalue::Local(i) => match spec_local_index(s, *i as nat) {
            Ok(Some(slot)) => Ok(
                Some(BinaryenLvalue { index: slot, offset: None, extra: LvalueExtra::Nothing }),
            ),
            Ok(None) => Ok(None),
            Err(e) => Err(e),
        },
        Lvalue::Static => Err(ErrorKind::UnsupportedPlace),
        Lvalue::Projection(p) => match spec_lval(program, mir, s, &p.base) {
            Err(e) => Err(e),
            Ok(None) => Ok(None),
            Ok(Some(base)) => match spec_lval_ty(mir, &p.base) {
                Err(e) => Err(e),
                Ok(base_ty) => if has_layout(program, base_ty) {
                    match spec_project(base, layout_of(program, base_ty), p.elem) {
                        Ok(l) => Ok(Some(l)),
                        Err(e) => Err(e),
                    }
                } else {
                    Err(ErrorKind::LayoutFailure)
                },
            },
        },
    }
}

fn active_variant<'a>(layout: &'a Layout, extra: LvalueExtra) -> (r: Result<&'a Struct, ErrorKind>)
    ensures
        match r {
            Ok(v) => spec_active_variant(*layout, extra) == Ok::<Struct, ErrorKind>(*v),
            Err(e) => spec_active_variant(*layout, extra) == Err::<Struct, ErrorKind>(e),
        },
{
    match layout {
        Layout::Univariant { variant } => Ok(variant),
        Layout::General { discr, variants } => match extra {
            LvalueExtra::DowncastVariant(v) => if v < variants.len() {
                Ok(&variants[v])
            } else {
                Err(ErrorKind::UnsupportedPlace)
            },
            LvalueExtra::Nothing => Err(ErrorKind::UnsupportedPlace),
        },
        _ => Err(ErrorKind::UnsupportedPlace),
    }
}

/// One projection step; see [`spec_project`].
pub fn project(base: BinaryenLvalue, layout: &Layout, elem: ProjectionElem) -> (r: Result<
    BinaryenLvalue,
    ErrorKind,
>)
    ensures
        r == spec_project(base, *layout, elem),
{
    match elem {
        ProjectionElem::Deref => {
            if base.offset.is_none() {
                Ok(BinaryenLvalue::new(base.index, Some(0), LvalueExtra::Nothing))
            } else {
                Err(ErrorKind::UnsupportedPlace)
            }
        },
        ProjectionElem::Field(field) => {
            let variant = active_variant(layout, base.extra)?;
            if field >= variant.offsets.len() {
                return Err(ErrorKind::UnsupportedPlace);
            }
            let offset = variant.offsets[field];
            let base_offset: u64 = match base.offset {
                None => 0,
                Some(k) => k as u64,
            };
            if offset > u32::MAX as u64 || base_offset + offset > u32::MAX as u64 {
                return Err(ErrorKind::UnsupportedPlace);
            }
            Ok(BinaryenLvalue::new(base.index, base.offset, LvalueExtra::Nothing).offset(offset as u32))
        },
        ProjectionElem::Downcast(variant) => {
            match layout {
                Layout::General { discr, .. } => {
                    if base.offset.is_some() {
                        return Err(ErrorKind::UnsupportedPlace);
                    }
                    let offset = discr.size()?;
                    Ok(
                        BinaryenLvalue::new(
                            base.index,
                            Some(offset),
                            LvalueExtra::DowncastVariant(variant),
                        ),
                    )
                },
                _ => Err(ErrorKind::UnsupportedPlace),
            }
        },
        ProjectionElem::Other => Err(ErrorKind::UnsupportedPlace),
    }
}

impl BinaryenFnCtxt {
    /// Resolves a location; see [`spec_lval`].
    pub fn trans_lval(&self, program: &Program, mir: &Mir, lvalue: &Lvalue) -> (r: Result<
        Option<BinaryenLvalue>,
        ErrorKind,
    >)
        ensures
            r == spec_lval(program, mir, self@, lvalue),
        decreases lvalue,
    {
        match lvalue {
            Lvalue::Local(i) => {
                match self.get_local_index(*i)? {
                    Some(i) => Ok(Some(BinaryenLvalue::new(i, None, LvalueExtra::Nothing))),
                    None => Ok(None),
                }
            },
            Lvalue::Static => Err(ErrorKind::UnsupportedPlace),
            Lvalue::Projection(projection) => {
                let base = match self.trans_lval(program, mir, &projection.base)? {
                    Some(base) => base,
                    None => return Ok(None),
                };
                let base_ty = lval_ty(mir, &projection.base)?;
                let base_layout = type_layout(program, base_ty)?;
                Ok(Some(project(base, base_layout, projection.elem)?))
            },
        }
    }
}

} // verus!
