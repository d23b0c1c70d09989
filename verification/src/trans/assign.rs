//! Assignments: the instructions that compute a value and write it to a
//! storage location.

use vstd::prelude::*;
use super::context::{BinaryenFnCtxt, Slots};
use super::operand::{
    operand_ty, spec_consume, spec_operand, spec_operand_ty, spec_operand_value,
    spec_place_value,
};
use super::place::{lval_ty, spec_lval, spec_lval_ty, BinaryenLvalue};
use super::stack::{spec_alloca, spec_store_field};
use super::types::{
    frame_bits, has_layout, layout_of, rust_ty_to_binaryen, spec_frame_bits,
    spec_rust_ty_to_builder, type_layout,
};
use crate::binaryen::builder::{ReprType, Type};
use crate::binaryen::ir::{
    binary, drop_value, get_local, int64, lemma_views_push, set_local, store,
    unary, views, BinaryOp, Expr, ExprView, Literal, UnaryOp,
};
use crate::binops::int32_op;
use crate::error::ErrorKind;
use crate::mir::{
    AggregateKind, BinOp, CastKind, Layout, Lvalue, Mir, Operand, Program, Rvalue, TyKind, UnOp,
};

verus! {

/// The write of `value` to the resolved location `dest`, whose slot is
/// read as a value of type `ty`: to the slot itself where the location has
/// no offset, else as a 32-bit word at the offset from the address in the
/// slot.
pub open spec fn spec_write(dest: BinaryenLvalue, ty: Type, value: ExprView) -> ExprView {
    match dest.offset {
        Some(offset) => spec_store_at(dest.index, ty, offset, value),
        None => ExprView::SetLocal { index: dest.index, value: Box::new(value) },
    }
}

/// The write of the 32-bit `value` at `offset` bytes from the address in
/// the slot `index`.
pub open spec fn spec_store_at(index: usize, ty: Type, offset: u32, value: ExprView) -> ExprView {
    ExprView::Store {
        bytes: 4,
        offset,
        align: 0,
        ptr: Box::new(ExprView::GetLocal { index, ty }),
        value: Box::new(value),
        ty: Some(ReprType::Int32),
    }
}

/// The 64-bit operator of a checked operation: there is one for addition,
/// subtraction, multiplication and division.
pub open spec fn spec_checked_op(op: BinOp) -> Result<BinaryOp, ErrorKind> {
    match op {
        BinOp::Add => Ok(BinaryOp::AddInt64),
        BinOp::Sub => Ok(BinaryOp::SubInt64),
        BinOp::Mul => Ok(BinaryOp::MulInt64),
        BinOp::Div => Ok(BinaryOp::DivSInt64),
        _ => Err(ErrorKind::UnsupportedOperator),
    }
}

/// The result of a checked operation at double width: the operation on
/// both 32-bit operands sign-extended to 64 bits.
pub open spec fn spec_checked_value(op: BinaryOp, left: ExprView, right: ExprView) -> ExprView {
    ExprView::Binary {
        op,
        left: Box::new(ExprView::Unary { op: UnaryOp::ExtendSInt32, value: Box::new(left) }),
        right: Box::new(ExprView::Unary { op: UnaryOp::ExtendSInt32, value: Box::new(right) }),
    }
}

/// The operation of a checked operation at double width, its result
/// written to the slot `scratch`.
pub open spec fn spec_checked_wide(scratch: usize, op: BinaryOp, left: ExprView, right: ExprView)
    -> ExprView {
    ExprView::SetLocal { index: scratch, value: Box::new(spec_checked_value(op, left, right)) }
}

/// The low word of the double-width result in the slot `scratch`.
pub open spec fn spec_checked_lower(scratch: usize) -> ExprView {
    ExprView::Unary {
        op: UnaryOp::WrapInt64,
        value: Box::new(ExprView::GetLocal { index: scratch, ty: Some(ReprType::Int64) }),
    }
}

/// The high word of the double-width result in the slot `scratch`.
pub open spec fn spec_checked_upper(scratch: usize) -> ExprView {
    ExprView::Unary {
        op: UnaryOp::WrapInt64,
        value: Box::new(
            ExprView::Binary {
                op: BinaryOp::ShrUInt64,
                left: Box::new(
                    ExprView::GetLocal { index: scratch, ty: Some(ReprType::Int64) },
                ),
                right: Box::new(ExprView::Const(Literal::Int64(32))),
            },
        ),
    }
}

/// The instructions of a checked operation whose operands are `left` and
/// `right`.
///
/// The operation is done at double width in the scratch slot. The low word
/// and the high word of the result are then written next to each other: at
/// the offset of `dest` and 4 bytes after it where `dest` is in memory;
/// else at 0 and 4 in a frame allocated for the pair, whose address the
/// slot of `dest` receives. A slot holds the address of a pair, never the
/// pair: the two words of a destination in a slot are the first two words
/// of its frame, where the fields of the pair are read from.
pub open spec fn spec_checked(
    program: &Program,
    s: Slots,
    dest: BinaryenLvalue,
    dest_ty: crate::mir::TypeId,
    ty: Type,
    op: BinOp,
    left: ExprView,
    right: ExprView,
) -> Result<Seq<ExprView>, ErrorKind> {
    match spec_checked_op(op) {
        Err(e) => Err(e),
        Ok(wide) => match s.checked_op_local {
            None => Err(ErrorKind::UnsupportedRvalue),
            Some(scratch) => match dest.offset {
                Some(offset) => if offset <= u32::MAX - 4 {
                    Ok(
                        seq![
                            spec_checked_wide(scratch, wide, left, right),
                            spec_store_at(dest.index, ty, offset, spec_checked_lower(scratch)),
                            spec_store_at(
                                dest.index,
                                ty,
                                (offset + 4) as u32,
                                spec_checked_upper(scratch),
                            ),
                        ],
                    )
                } else {
                    Err(ErrorKind::UnsupportedPlace)
                },
                None => match spec_frame_bits(program, dest_ty) {
                    Err(e) => Err(e),
                    Ok(bits) => Ok(
                        seq![
                            spec_checked_wide(scratch, wide, left, right),
                            spec_alloca(dest.index, bits),
                            spec_store_at(dest.index, ty, 0, spec_checked_lower(scratch)),
                            spec_store_at(dest.index, ty, 4, spec_checked_upper(scratch)),
                        ],
                    ),
                },
            },
        },
    }
}

/// The writes of the fields of an aggregate into the frame the stack
/// pointer points to: the value of the operand with index `k` as a 32-bit
/// word at the byte offset of the field with index `k`, for each `k` below
/// `n`, in order, as far as there is both an operand and an offset. What
/// is past the shorter of the two lists is not looked at.
pub open spec fn spec_assign_fields(
    program: &Program,
    mir: &Mir,
    s: Slots,
    offsets: Seq<u64>,
    operands: Seq<Operand>,
    n: nat,
) -> Result<Seq<ExprView>, ErrorKind>
    decreases n,
{
    if n == 0 {
        Ok(Seq::empty())
    } else {
        match spec_assign_fields(program, mir, s, offsets, operands, (n - 1) as nat) {
            Err(e) => Err(e),
            Ok(before) => if n - 1 < offsets.len() && n - 1 < operands.len() {
                if offsets[n - 1] <= u32::MAX {
                    match spec_operand(program, mir, s, &operands[n - 1]) {
                        Err(e) => Err(e),
                        Ok(src) => Ok(before.push(spec_store_field(offsets[n - 1] as u32, src))),
                    }
                } else {
                    Err(ErrorKind::UnsupportedAggregate)
                }
            } else {
                Ok(before)
            },
        }
    }
}

/// The instructions that build an aggregate of type `ty` in a new frame,
/// whose address the slot `dest` receives: the allocation of the frame,
/// then the writes of the fields. The type must be a record with a single
/// variant.
pub open spec fn spec_aggregate(
    program: &Program,
    mir: &Mir,
    s: Slots,
    dest: usize,
    ty: crate::mir::TypeId,
    operands: Seq<Operand>,
) -> Result<Seq<ExprView>, ErrorKind> {
    if !has_layout(program, ty) {
        Err(ErrorKind::LayoutFailure)
    } else {
        match spec_frame_bits(program, ty) {
            Err(e) => Err(e),
            Ok(bits) => match layout_of(program, ty) {
                Layout::Univariant { variant } => match spec_assign_fields(
                    program,
                    mir,
                    s,
                    variant.offsets@,
                    operands,
                    operands.len(),
                ) {
                    Err(e) => Err(e),
                    Ok(writes) => Ok(seq![spec_alloca(dest, bits)] + writes),
                },
                _ => Err(ErrorKind::UnsupportedAggregate),
            },
        }
    }
}

/// Whether a value whose type has the layout `src` can be cast by copying
/// it: a scalar or a C-style enum.
pub open spec fn spec_cast_source(src: Layout) -> bool {
    src is Scalar || src is CEnum
}

/// Whether a value whose type has the layout `src` can be cast to a value
/// of a type of kind `dest` by copying it: a scalar or a C-style enum, to
/// an integer.
pub open spec fn spec_castable(src: Layout, dest: TyKind) -> bool {
    spec_cast_source(src) && (dest is Int || dest is Uint)
}

/// The instructions of an assignment to the resolved location `dest` of
/// type `dest_ty`.
pub open spec fn spec_assign_to(
    program: &Program,
    mir: &Mir,
    s: Slots,
    dest: BinaryenLvalue,
    dest_ty: crate::mir::TypeId,
    rvalue: &Rvalue,
) -> Result<Seq<ExprView>, ErrorKind> {
    let dest_kind = program.types[dest_ty as int].kind;
    let ty = spec_rust_ty_to_builder(dest_kind);
    match rvalue {
        Rvalue::Use(operand) => match spec_operand(program, mir, s, operand) {
            Err(e) => Err(e),
            Ok(src) => Ok(seq![spec_write(dest, ty, src)]),
        },
        Rvalue::UnaryOp(op, operand) => match spec_operand(program, mir, s, operand) {
            Err(e) => Err(e),
            Ok(src) => match op {
                UnOp::Not => Ok(
                    seq![
                        ExprView::SetLocal {
                            index: dest.index,
                            value: Box::new(
                                ExprView::Unary { op: UnaryOp::EqZInt32, value: Box::new(src) },
                            ),
                        },
                    ],
                ),
                _ => Err(ErrorKind::UnsupportedOperator),
            },
        },
        Rvalue::BinaryOp(op, left, right) => match spec_operand(program, mir, s, left) {
            Err(e) => Err(e),
            Ok(l) => match spec_operand(program, mir, s, right) {
                Err(e) => Err(e),
                Ok(r) => match int32_op(*op) {
                    None => Err(ErrorKind::UnsupportedOperator),
                    Some(b) => Ok(
                        seq![
                            spec_write(
                                dest,
                                ty,
                                ExprView::Binary { op: b, left: Box::new(l), right: Box::new(r) },
                            ),
                        ],
                    ),
                },
            },
        },
        Rvalue::CheckedBinaryOp(op, left, right) => match spec_operand(program, mir, s, left) {
            Err(e) => Err(e),
            Ok(l) => match spec_operand(program, mir, s, right) {
                Err(e) => Err(e),
                Ok(r) => spec_checked(program, s, dest, dest_ty, ty, *op, l, r),
            },
        },
        Rvalue::Ref(lvalue) => match spec_consume(program, mir, s, lvalue) {
            Err(e) => Err(e),
            Ok(src) => Ok(seq![ExprView::SetLocal { index: dest.index, value: Box::new(src) }]),
        },
        Rvalue::Aggregate(kind, operands) => match kind {
            AggregateKind::Adt { ty, variant } => spec_aggregate(
                program,
                mir,
                s,
                dest.index,
                *ty,
                operands@,
            ),
            AggregateKind::Tuple => if operands.len() == 0 {
                Ok(Seq::empty())
            } else {
                spec_aggregate(program, mir, s, dest.index, dest_ty, operands@)
            },
            _ => Err(ErrorKind::UnsupportedAggregate),
        },
        Rvalue::Cast(kind, operand, _) => if dest.offset is Some || *kind != CastKind::Misc {
            Err(ErrorKind::UnsupportedCast)
        } else {
            match spec_operand(program, mir, s, operand) {
                Err(e) => Err(e),
                Ok(src) => match spec_operand_ty(mir, operand) {
                    Err(e) => Err(e),
                    Ok(src_ty) => if !has_layout(program, src_ty) {
                        Err(ErrorKind::LayoutFailure)
                    } else if spec_castable(layout_of(program, src_ty), dest_kind) {
                        Ok(
                            seq![
                                ExprView::SetLocal { index: dest.index, value: Box::new(src) },
                            ],
                        )
                    } else {
                        Err(ErrorKind::UnsupportedCast)
                    },
                },
            }
        },
        Rvalue::Other => Err(ErrorKind::UnsupportedRvalue),
    }
}

/// The discard of the value `v`, if there is one.
pub open spec fn spec_drop(v: Option<ExprView>) -> Seq<ExprView> {
    match v {
        Some(v) => seq![ExprView::Drop { value: Box::new(v) }],
        None => Seq::empty(),
    }
}

/// The discards of the values of the first `n` of the operands
/// `operands`, in order: one for each operand that has a value.
pub open spec fn spec_discard_operands(
    program: &Program,
    mir: &Mir,
    s: Slots,
    operands: Seq<Operand>,
    n: nat,
) -> Result<Seq<ExprView>, ErrorKind>
    decreases n,
{
    if n == 0 {
        Ok(Seq::empty())
    } else {
        match spec_discard_operands(program, mir, s, operands, (n - 1) as nat) {
            Err(e) => Err(e),
            Ok(before) => match spec_operand_value(program, mir, s, &operands[n - 1]) {
                Err(e) => Err(e),
                Ok(v) => Ok(before + spec_drop(v)),
            },
        }
    }
}

/// The instructions that evaluate `rvalue` and discard what it yields.
///
/// - A use, a reference and a cast yield the value of their operand; the
///   cast must be of a scalar or of a C-style enum.
/// - An operation yields its result; a checked one the result at double
///   width.
/// - A tuple and a record yield the values of their operands, one after
///   another.
///
/// An operand that is a read of a location of unit or never type yields
/// nothing to discard, and so does a tuple without operands. The discard
/// fails where an operand, the operator, the kind of the cast or of the
/// aggregate, or the rvalue itself is not supported; what is asked of a
/// destination is not asked here.
pub open spec fn spec_discard(program: &Program, mir: &Mir, s: Slots, rvalue: &Rvalue) -> Result<
    Seq<ExprView>,
    ErrorKind,
> {
    match rvalue {
        Rvalue::Use(operand) => match spec_operand_value(program, mir, s, operand) {
            Err(e) => Err(e),
            Ok(v) => Ok(spec_drop(v)),
        },
        Rvalue::UnaryOp(op, operand) => match spec_operand(program, mir, s, operand) {
            Err(e) => Err(e),
            Ok(src) => match op {
                UnOp::Not => Ok(
                    spec_drop(
                        Some(ExprView::Unary { op: UnaryOp::EqZInt32, value: Box::new(src) }),
                    ),
                ),
                _ => Err(ErrorKind::UnsupportedOperator),
            },
        },
        Rvalue::BinaryOp(op, left, right) => match spec_operand(program, mir, s, left) {
            Err(e) => Err(e),
            Ok(l) => match spec_operand(program, mir, s, right) {
                Err(e) => Err(e),
                Ok(r) => match int32_op(*op) {
                    None => Err(ErrorKind::UnsupportedOperator),
                    Some(b) => Ok(
                        spec_drop(
                            Some(
                                ExprView::Binary { op: b, left: Box::new(l), right: Box::new(r) },
                            ),
                        ),
                    ),
                },
            },
        },
        Rvalue::CheckedBinaryOp(op, left, right) => match spec_operand(program, mir, s, left) {
            Err(e) => Err(e),
            Ok(l) => match spec_operand(program, mir, s, right) {
                Err(e) => Err(e),
                Ok(r) => match spec_checked_op(*op) {
                    Err(e) => Err(e),
                    Ok(wide) => Ok(spec_drop(Some(spec_checked_value(wide, l, r)))),
                },
            },
        },
        Rvalue::Ref(lvalue) => match spec_place_value(program, mir, s, lvalue) {
            Err(e) => Err(e),
            Ok(v) => Ok(spec_drop(v)),
        },
        Rvalue::Aggregate(kind, operands) => match kind {
            AggregateKind::Adt { .. } | AggregateKind::Tuple => spec_discard_operands(
                program,
                mir,
                s,
                operands@,
                operands.len() as nat,
            ),
            _ => Err(ErrorKind::UnsupportedAggregate),
        },
        Rvalue::Cast(kind, operand, _) => if *kind != CastKind::Misc {
            Err(ErrorKind::UnsupportedCast)
        } else {
            match spec_operand_value(program, mir, s, operand) {
                Err(e) => Err(e),
                Ok(v) => match spec_operand_ty(mir, operand) {
                    Err(e) => Err(e),
                    Ok(src_ty) => if !has_layout(program, src_ty) {
                        Err(ErrorKind::LayoutFailure)
                    } else if spec_cast_source(layout_of(program, src_ty)) {
                        Ok(spec_drop(v))
                    } else {
                        Err(ErrorKind::UnsupportedCast)
                    },
                },
            }
        },
        Rvalue::Other => Err(ErrorKind::UnsupportedRvalue),
    }
}

/// The instructions of the assignment of `rvalue` to `lvalue`.
///
/// An assignment to a location of unit or never type writes nothing: the
/// rvalue is evaluated and what it yields is discarded; see
/// [`spec_discard`]. Every other assignment needs the layout of the type of
/// its destination.
pub open spec fn spec_assignment(
    program: &Program,
    mir: &Mir,
    s: Slots,
    lvalue: &Lvalue,
    rvalue: &Rvalue,
) -> Result<Seq<ExprView>, ErrorKind> {
    match spec_lval(program, mir, s, lvalue) {
        Err(e) => Err(e),
        Ok(None) => spec_discard(program, mir, s, rvalue),
        Ok(Some(dest)) => match spec_lval_ty(mir, lvalue) {
            Err(e) => Err(e),
            Ok(dest_ty) => if has_layout(program, dest_ty) {
                spec_assign_to(program, mir, s, dest, dest_ty, rvalue)
            } else {
                Err(ErrorKind::LayoutFailure)
            },
        },
    }
}

/// Whether `statements` went from `before` to `before` followed by the
/// instructions of `spec`, or the failure of `spec` was returned.
pub open spec fn appended(
    r: Result<(), ErrorKind>,
    before: Seq<Expr>,
    after: Seq<Expr>,
    spec: Result<Seq<ExprView>, ErrorKind>,
) -> bool {
    match r {
        Ok(()) => spec is Ok && views(after) == views(before) + spec->Ok_0,
        Err(k) => spec == Err::<Seq<ExprView>, ErrorKind>(k),
    }
}

fn checked_op(op: BinOp) -> (r: Result<BinaryOp, ErrorKind>)
    ensures
        r == spec_checked_op(op),
{
    match op {
        BinOp::Add => Ok(BinaryOp::AddInt64),
        BinOp::Sub => Ok(BinaryOp::SubInt64),
        BinOp::Mul => Ok(BinaryOp::MulInt64),
        BinOp::Div => Ok(BinaryOp::DivSInt64),
        _ => Err(ErrorKind::UnsupportedOperator),
    }
}

fn store_at(index: usize, ty: Type, offset: u32, value: Expr) -> (r: Expr)
    ensures
        r@ == spec_store_at(index, ty, offset, value@),
{
    let ptr = get_local(index, ty);
    store(4, offset, 0, ptr, value, Some(ReprType::Int32))
}

fn write(dest: BinaryenLvalue, ty: Type, value: Expr) -> (r: Expr)
    ensures
        r@ == spec_write(dest, ty, value@),
{
    match dest.offset {
        Some(offset) => store_at(dest.index, ty, offset, value),
        None => set_local(dest.index, value),
    }
}

fn checked_lower(scratch: usize) -> (r: Expr)
    ensures
        r@ == spec_checked_lower(scratch),
{
    unary(UnaryOp::WrapInt64, get_local(scratch, Some(ReprType::Int64)))
}

fn checked_upper(scratch: usize) -> (r: Expr)
    ensures
        r@ == spec_checked_upper(scratch),
{
    let thirty_two = int64(32);
    unary(
        UnaryOp::WrapInt64,
        binary(BinaryOp::ShrUInt64, get_local(scratch, Some(ReprType::Int64)), thirty_two),
    )
}

fn cast_source(src: &Layout) -> (r: bool)
    ensures
        r == spec_cast_source(*src),
{
    match src {
        Layout::Scalar => true,
        Layout::CEnum { .. } => true,
        _ => false,
    }
}

fn castable(src: &Layout, dest: TyKind) -> (r: bool)
    ensures
        r == spec_castable(*src, dest),
{
    let from = cast_source(src);
    let to = match dest {
        TyKind::Int(_) => true,
        TyKind::Uint(_) => true,
        _ => false,
    };
    from && to
}

fn checked_value(op: BinaryOp, left: Expr, right: Expr) -> (r: Expr)
    ensures
        r@ == spec_checked_value(op, left@, right@),
{
    binary(op, unary(UnaryOp::ExtendSInt32, left), unary(UnaryOp::ExtendSInt32, right))
}

/// Appends the discard of `v` to `statements`, if there is a value.
fn emit_drop(statements: &mut Vec<Expr>, v: Option<Expr>)
    ensures
        views(final(statements)@) == views(old(statements)@) + spec_drop(
            match v {
                Some(e) => Some(e@),
                None => None,
            },
        ),
{
    match v {
        Some(e) => {
            let d = drop_value(e);
            proof {
                lemma_views_push(statements@, d);
                assert(views(statements@).push(d@) =~= views(statements@) + seq![d@]);
            }
            statements.push(d);
        },
        None => {
            proof {
                assert(views(statements@) + Seq::<ExprView>::empty() =~= views(statements@));
            }
        },
    }
}

/// Appends `e` to `statements`.
fn emit(statements: &mut Vec<Expr>, e: Expr)
    ensures
        views(final(statements)@) == views(old(statements)@).push(e@),
        final(statements)@ == old(statements)@.push(e),
{
    proof {
        lemma_views_push(statements@, e);
    }
    statements.push(e);
}

impl BinaryenFnCtxt {
    /// Appends the instructions of a checked operation; see
    /// [`spec_checked`].
    pub fn emit_checked(
        &self,
        program: &Program,
        dest: BinaryenLvalue,
        dest_ty: crate::mir::TypeId,
        ty: Type,
        op: BinOp,
        left: Expr,
        right: Expr,
        statements: &mut Vec<Expr>,
    ) -> (r: Result<(), ErrorKind>)
        ensures
            appended(
                r,
                old(statements)@,
                final(statements)@,
                spec_checked(program, self@, dest, dest_ty, ty, op, left@, right@),
            ),
    {
        let ghost before = views(statements@);
        let ghost l = left@;
        let ghost r = right@;
        let wide = checked_op(op)?;
        let checked_local = match self.checked_op_local {
            Some(c) => c,
            None => return Err(ErrorKind::UnsupportedRvalue),
        };
        let ghost spec = spec_checked(program, self@, dest, dest_ty, ty, op, l, r);
        let op = checked_value(wide, left, right);
        match dest.offset {
            Some(offset) => {
                if offset > u32::MAX - 4 {
                    return Err(ErrorKind::UnsupportedPlace);
                }
                emit(statements, set_local(checked_local, op));
                emit(statements, store_at(dest.index, ty, offset, checked_lower(checked_local)));
                emit(
                    statements,
                    store_at(dest.index, ty, offset + 4, checked_upper(checked_local)),
                );
                proof {
                    assert(views(statements@) =~= before + spec->Ok_0);
                }
            },
            None => {
                let dest_size = frame_bits(program, dest_ty)?;
                emit(statements, set_local(checked_local, op));
                emit(statements, self.emit_alloca(dest.index, dest_size));
                emit(statements, store_at(dest.index, ty, 0, checked_lower(checked_local)));
                emit(statements, store_at(dest.index, ty, 4, checked_upper(checked_local)));
                proof {
                    assert(views(statements@) =~= before + spec->Ok_0);
                }
            },
        }
        Ok(())
    }

    /// Appends the writes of the fields of an aggregate; see
    /// [`spec_assign_fields`].
    pub fn emit_assign_fields(
        &self,
        program: &Program,
        mir: &Mir,
        offsets: &Vec<u64>,
        operands: &Vec<Operand>,
        statements: &mut Vec<Expr>,
    ) -> (r: Result<(), ErrorKind>)
        ensures
            appended(
                r,
                old(statements)@,
                final(statements)@,
                spec_assign_fields(program, mir, self@, offsets@, operands@, operands.len() as nat),
            ),
    {
        let ghost before = views(statements@);
        let mut i: usize = 0;
        let n = if offsets.len() < operands.len() {
            offsets.len()
        } else {
            operands.len()
        };
        proof {
            assert(views(statements@) =~= before + Seq::<ExprView>::empty());
            lemma_assign_fields_stops(
                program,
                mir,
                self@,
                offsets@,
                operands@,
                n as nat,
                operands.len() as nat,
            );
        }
        while i < n
            invariant
                i <= n <= operands.len(),
                n <= offsets.len(),
                spec_assign_fields(program, mir, self@, offsets@, operands@, n as nat)
                    == spec_assign_fields(
                    program,
                    mir,
                    self@,
                    offsets@,
                    operands@,
                    operands.len() as nat,
                ),
                spec_assign_fields(program, mir, self@, offsets@, operands@, i as nat) is Ok,
                views(statements@) == before + spec_assign_fields(
                    program,
                    mir,
                    self@,
                    offsets@,
                    operands@,
                    i as nat,
                )->Ok_0,
            ensures
                i == n,
            decreases n - i,
        {
            let ghost next = spec_assign_fields(
                program,
                mir,
                self@,
                offsets@,
                operands@,
                (i + 1) as nat,
            );
            if offsets[i] > u32::MAX as u64 {
                proof {
                    lemma_assign_fields_fails(
                        program,
                        mir,
                        self@,
                        offsets@,
                        operands@,
                        (i + 1) as nat,
                        n as nat,
                    );
                }
                return Err(ErrorKind::UnsupportedAggregate);
            }
            let src = match self.trans_operand(program, mir, &operands[i]) {
                Ok(src) => src,
                Err(e) => {
                    proof {
                        lemma_assign_fields_fails(
                            program,
                            mir,
                            self@,
                            offsets@,
                            operands@,
                            (i + 1) as nat,
                            n as nat,
                        );
                    }
                    return Err(e);
                },
            };
            let write_field = store(
                4,
                offsets[i] as u32,
                0,
                self.emit_read_sp(),
                src,
                Some(ReprType::Int32),
            );
            emit(statements, write_field);
            proof {
                assert(views(statements@) =~= before + next->Ok_0);
            }
            i += 1;
        }
        Ok(())
    }

    /// Appends the instructions that build an aggregate in a new frame; see
    /// [`spec_aggregate`].
    pub fn emit_aggregate(
        &self,
        program: &Program,
        mir: &Mir,
        dest: usize,
        ty: crate::mir::TypeId,
        operands: &Vec<Operand>,
        statements: &mut Vec<Expr>,
    ) -> (r: Result<(), ErrorKind>)
        ensures
            appended(
                r,
                old(statements)@,
                final(statements)@,
                spec_aggregate(program, mir, self@, dest, ty, operands@),
            ),
    {
        let ghost before = views(statements@);
        let dest_layout = type_layout(program, ty)?;
        let dest_size = frame_bits(program, ty)?;
        match dest_layout {
            Layout::Univariant { variant } => {
                let allocation = self.emit_alloca(dest, dest_size);
                emit(statements, allocation);
                self.emit_assign_fields(program, mir, &variant.offsets, operands, statements)?;
                proof {
                    let writes = spec_assign_fields(
                        program,
                        mir,
                        self@,
                        variant.offsets@,
                        operands@,
                        operands.len() as nat,
                    )->Ok_0;
                    assert(views(statements@) =~= before + (seq![spec_alloca(dest, dest_size)]
                        + writes));
                }
                Ok(())
            },
            _ => Err(ErrorKind::UnsupportedAggregate),
        }
    }

    /// Appends the discards of the values of the operands `operands`; see
    /// [`spec_discard_operands`].
    pub fn emit_discard_operands(
        &self,
        program: &Program,
        mir: &Mir,
        operands: &Vec<Operand>,
        statements: &mut Vec<Expr>,
    ) -> (r: Result<(), ErrorKind>)
        ensures
            appended(
                r,
                old(statements)@,
                final(statements)@,
                spec_discard_operands(program, mir, self@, operands@, operands.len() as nat),
            ),
    {
        let ghost before = views(statements@);
        let mut i: usize = 0;
        proof {
            assert(views(statements@) =~= before + Seq::<ExprView>::empty());
        }
        while i < operands.len()
            invariant
                i <= operands.len(),
                spec_discard_operands(program, mir, self@, operands@, i as nat) is Ok,
                views(statements@) == before + spec_discard_operands(
                    program,
                    mir,
                    self@,
                    operands@,
                    i as nat,
                )->Ok_0,
            ensures
                i == operands.len(),
            decreases operands.len() - i,
        {
            let ghost done = spec_discard_operands(program, mir, self@, operands@, i as nat)->Ok_0;
            match self.trans_operand_value(program, mir, &operands[i]) {
                Ok(v) => {
                    let ghost dropped = spec_drop(
                        spec_operand_value(program, mir, self@, &operands@[i as int])->Ok_0,
                    );
                    emit_drop(statements, v);
                    proof {
                        assert(views(statements@) =~= before + (done + dropped));
                    }
                },
                Err(e) => {
                    proof {
                        lemma_discard_operands_fails(
                            program,
                            mir,
                            self@,
                            operands@,
                            (i + 1) as nat,
                            operands.len() as nat,
                        );
                    }
                    return Err(e);
                },
            }
            i += 1;
        }
        Ok(())
    }

    /// Appends the instructions that evaluate `rvalue` and discard what it
    /// yields; see [`spec_discard`].
    pub fn emit_discard(
        &self,
        program: &Program,
        mir: &Mir,
        rvalue: &Rvalue,
        statements: &mut Vec<Expr>,
    ) -> (r: Result<(), ErrorKind>)
        ensures
            appended(
                r,
                old(statements)@,
                final(statements)@,
                spec_discard(program, mir, self@, rvalue),
            ),
    {
        match rvalue {
            Rvalue::Use(operand) => {
                let v = self.trans_operand_value(program, mir, operand)?;
                emit_drop(statements, v);
                Ok(())
            },
            Rvalue::UnaryOp(op, operand) => {
                let operand = self.trans_operand(program, mir, operand)?;
                let op = match op {
                    UnOp::Not => UnaryOp::EqZInt32,
                    _ => return Err(ErrorKind::UnsupportedOperator),
                };
                emit_drop(statements, Some(unary(op, operand)));
                Ok(())
            },
            Rvalue::BinaryOp(op, left, right) => {
                let left = self.trans_operand(program, mir, left)?;
                let right = self.trans_operand(program, mir, right)?;
                let op = match crate::binops::op32(*op) {
                    Some(b) => b,
                    None => return Err(ErrorKind::UnsupportedOperator),
                };
                emit_drop(statements, Some(binary(op, left, right)));
                Ok(())
            },
            Rvalue::CheckedBinaryOp(op, left, right) => {
                let left = self.trans_operand(program, mir, left)?;
                let right = self.trans_operand(program, mir, right)?;
                let wide = checked_op(*op)?;
                emit_drop(statements, Some(checked_value(wide, left, right)));
                Ok(())
            },
            Rvalue::Ref(lvalue) => {
                let v = self.trans_place_value(program, mir, lvalue)?;
                emit_drop(statements, v);
                Ok(())
            },
            Rvalue::Aggregate(kind, operands) => {
                match kind {
                    AggregateKind::Adt { .. } | AggregateKind::Tuple => self.emit_discard_operands(
                        program,
                        mir,
                        operands,
                        statements,
                    ),
                    _ => Err(ErrorKind::UnsupportedAggregate),
                }
            },
            Rvalue::Cast(kind, operand, _) => {
                match kind {
                    CastKind::Misc => {
                        let v = self.trans_operand_value(program, mir, operand)?;
                        let src_ty = operand_ty(mir, operand)?;
                        let src_layout = type_layout(program, src_ty)?;
                        if cast_source(src_layout) {
                            emit_drop(statements, v);
                            Ok(())
                        } else {
                            Err(ErrorKind::UnsupportedCast)
                        }
                    },
                    _ => Err(ErrorKind::UnsupportedCast),
                }
            },
            Rvalue::Other => Err(ErrorKind::UnsupportedRvalue),
        }
    }

    /// Appends to `statements` the instructions of the assignment of
    /// `rvalue` to `lvalue`; see [`spec_assignment`].
    pub fn trans_assignment(
        &self,
        program: &Program,
        mir: &Mir,
        lvalue: &Lvalue,
        rvalue: &Rvalue,
        statements: &mut Vec<Expr>,
    ) -> (r: Result<(), ErrorKind>)
        ensures
            appended(
                r,
                old(statements)@,
                final(statements)@,
                spec_assignment(program, mir, self@, lvalue, rvalue),
            ),
    {
        let ghost before = views(statements@);
        let ghost spec = spec_assignment(program, mir, self@, lvalue, rvalue);
        let dest = match self.trans_lval(program, mir, lvalue)? {
            Some(dest) => dest,
            None => {
                return self.emit_discard(program, mir, rvalue, statements);
            },
        };
        let dest_ty = lval_ty(mir, lvalue)?;
        let _dest_layout = type_layout(program, dest_ty)?;
        let dest_kind = program.types[dest_ty].kind;
        let ty = rust_ty_to_binaryen(dest_kind);
        match rvalue {
            Rvalue::Use(operand) => {
                let src = self.trans_operand(program, mir, operand)?;
                emit(statements, write(dest, ty, src));
                proof {
                    assert(views(statements@) =~= before + spec->Ok_0);
                }
                Ok(())
            },
            Rvalue::UnaryOp(op, operand) => {
                let operand = self.trans_operand(program, mir, operand)?;
                let op = match op {
                    UnOp::Not => UnaryOp::EqZInt32,
                    _ => return Err(ErrorKind::UnsupportedOperator),
                };
                let op = unary(op, operand);
                emit(statements, set_local(dest.index, op));
                proof {
                    assert(views(statements@) =~= before + spec->Ok_0);
                }
                Ok(())
            },
            Rvalue::BinaryOp(op, left, right) => {
                let left = self.trans_operand(program, mir, left)?;
                let right = self.trans_operand(program, mir, right)?;
                let op = match crate::binops::op32(*op) {
                    Some(b) => b,
                    None => return Err(ErrorKind::UnsupportedOperator),
                };
                let op = binary(op, left, right);
                emit(statements, write(dest, ty, op));
                proof {
                    assert(views(statements@) =~= before + spec->Ok_0);
                }
                Ok(())
            },
            Rvalue::CheckedBinaryOp(op, left, right) => {
                let left = self.trans_operand(program, mir, left)?;
                let right = self.trans_operand(program, mir, right)?;
                self.emit_checked(program, dest, dest_ty, ty, *op, left, right, statements)
            },
            Rvalue::Ref(lvalue) => {
                let expr = self.trans_consume(program, mir, lvalue)?;
                emit(statements, set_local(dest.index, expr));
                proof {
                    assert(views(statements@) =~= before + spec->Ok_0);
                }
                Ok(())
            },
            Rvalue::Aggregate(kind, operands) => {
                match kind {
                    AggregateKind::Adt { ty, variant } => self.emit_aggregate(
                        program,
                        mir,
                        dest.index,
                        *ty,
                        operands,
                        statements,
                    ),
                    AggregateKind::Tuple => {
                        if operands.len() == 0 {
                            proof {
                                assert(views(statements@) =~= before + Seq::<ExprView>::empty());
                            }
                            Ok(())
                        } else {
                            self.emit_aggregate(
                                program,
                                mir,
                                dest.index,
                                dest_ty,
                                operands,
                                statements,
                            )
                        }
                    },
                    _ => Err(ErrorKind::UnsupportedAggregate),
                }
            },
            Rvalue::Cast(kind, operand, _) => {
                if dest.offset.is_some() {
                    return Err(ErrorKind::UnsupportedCast);
                }
                match kind {
                    CastKind::Misc => {
                        let src = self.trans_operand(program, mir, operand)?;
                        let src_ty = operand_ty(mir, operand)?;
                        let src_layout = type_layout(program, src_ty)?;
                        if castable(src_layout, dest_kind) {
                            emit(statements, set_local(dest.index, src));
                            proof {
                                assert(views(statements@) =~= before + spec->Ok_0);
                            }
                            Ok(())
                        } else {
                            Err(ErrorKind::UnsupportedCast)
                        }
                    },
                    _ => Err(ErrorKind::UnsupportedCast),
                }
            },
            Rvalue::Other => Err(ErrorKind::UnsupportedRvalue),
        }
    }
}

/// Past the shorter of the two lists no field is written: the writes of
/// the first `m` fields are those of the first `n`, for every `m` from `n`
/// on, where `n` is the length of the shorter list or more.
pub proof fn lemma_assign_fields_stops(
    program: &Program,
    mir: &Mir,
    s: Slots,
    offsets: Seq<u64>,
    operands: Seq<Operand>,
    n: nat,
    m: nat,
)
    requires
        n <= m,
        n >= offsets.len() || n >= operands.len(),
    ensures
        spec_assign_fields(program, mir, s, offsets, operands, m) == spec_assign_fields(
            program,
            mir,
            s,
            offsets,
            operands,
            n,
        ),
    decreases m,
{
    if n < m {
        lemma_assign_fields_stops(program, mir, s, offsets, operands, n, (m - 1) as nat);
    }
}

/// Once the discards of the first `n` operands fail, those of the first
/// `m` operands fail in the same way, for every `m` from `n` on.
pub proof fn lemma_discard_operands_fails(
    program: &Program,
    mir: &Mir,
    s: Slots,
    operands: Seq<Operand>,
    n: nat,
    m: nat,
)
    requires
        n <= m,
        spec_discard_operands(program, mir, s, operands, n) is Err,
    ensures
        spec_discard_operands(program, mir, s, operands, m) == spec_discard_operands(
            program,
            mir,
            s,
            operands,
            n,
        ),
    decreases m,
{
    if n < m {
        lemma_discard_operands_fails(program, mir, s, operands, n, (m - 1) as nat);
    }
}

/// Once the writes of the first `n` fields fail, those of the first `m`
/// fields fail in the same way, for every `m` from `n` on.
pub proof fn lemma_assign_fields_fails(
    program: &Program,
    mir: &Mir,
    s: Slots,
    offsets: Seq<u64>,
    operands: Seq<Operand>,
    n: nat,
    m: nat,
)
    requires
        n <= m,
        spec_assign_fields(program, mir, s, offsets, operands, n) is Err,
    ensures
        spec_assign_fields(program, mir, s, offsets, operands, m) == spec_assign_fields(
            program,
            mir,
            s,
            offsets,
            operands,
            n,
        ),
    decreases m,
{
    if n < m {
        lemma_assign_fields_fails(program, mir, s, offsets, operands, n, (m - 1) as nat);
    }
}

} // verus!
