//! Instruction trees of the target stack machine.
//!
//! [`Expr`] is the executable tree; [`ExprView`] is its mathematical model, in
//! which names are sequences of characters and operand lists are sequences.

use vstd::prelude::*;
use super::builder::Type;

verus! {

/// A constant operand.
#[derive(Copy, Clone, Debug, PartialEq, Eq, Structural)]
pub enum Literal {
    Int32(i32),
    Int64(i64),
}

/// One-operand operators.
#[derive(Copy, Clone, Debug, PartialEq, Eq, Structural)]
pub enum UnaryOp {
    /// 1 if the 32-bit operand is zero, else 0.
    EqZInt32,
    /// Sign-extends a 32-bit operand to 64 bits.
    ExtendSInt32,
    /// Keeps the low 32 bits of a 64-bit operand.
    WrapInt64,
}

/// Two-operand operators.
#[derive(Copy, Clone, Debug, PartialEq, Eq, Structural)]
pub enum BinaryOp {
    AddInt32,
    SubInt32,
    MulInt32,
    DivSInt32,
    AndInt32,
    OrInt32,
    XorInt32,
    EqInt32,
    NeInt32,
    LtSInt32,
    LeSInt32,
    GtSInt32,
    GeSInt32,
    AddInt64,
    SubInt64,
    MulInt64,
    DivSInt64,
    AndInt64,
    OrInt64,
    XorInt64,
    EqInt64,
    NeInt64,
    LtSInt64,
    LeSInt64,
    GtSInt64,
    GeSInt64,
    ShrUInt64,
}

/// An instruction tree.
#[derive(Debug, PartialEq, Eq)]
#[allow(inconsistent_fields)]
pub enum Expr {
    Const(Literal),
    GetLocal { index: usize, ty: Type },
    SetLocal { index: usize, value: Box<Expr> },
    TeeLocal { index: usize, value: Box<Expr> },
    Load { bytes: u32, signed: bool, offset: u32, align: u32, ty: Type, ptr: Box<Expr> },
    Store { bytes: u32, offset: u32, align: u32, ptr: Box<Expr>, value: Box<Expr>, ty: Type },
    Unary { op: UnaryOp, value: Box<Expr> },
    Binary { op: BinaryOp, left: Box<Expr>, right: Box<Expr> },
    Call { target: String, operands: Vec<Expr>, ty: Type },
    CallImport { target: String, operands: Vec<Expr>, ty: Type },
    Return { value: Option<Box<Expr>> },
    Block { name: Option<String>, children: Vec<Expr> },
    Drop { value: Box<Expr> },
    Unreachable,
}

/// The mathematical model of an [`Expr`].
#[allow(inconsistent_fields)]
pub ghost enum ExprView {
    Const(Literal),
    GetLocal { index: usize, ty: Type },
    SetLocal { index: usize, value: Box<ExprView> },
    TeeLocal { index: usize, value: Box<ExprView> },
    Load { bytes: u32, signed: bool, offset: u32, align: u32, ty: Type, ptr: Box<ExprView> },
    Store { bytes: u32, offset: u32, align: u32, ptr: Box<ExprView>, value: Box<ExprView>, ty: Type },
    Unary { op: UnaryOp, value: Box<ExprView> },
    Binary { op: BinaryOp, left: Box<ExprView>, right: Box<ExprView> },
    Call { target: Seq<char>, operands: Seq<ExprView>, ty: Type },
    CallImport { target: Seq<char>, operands: Seq<ExprView>, ty: Type },
    Return { value: Option<Box<ExprView>> },
    Block { name: Option<Seq<char>>, children: Seq<ExprView> },
    Drop { value: Box<ExprView> },
    Unreachable,
}

/// The model of an optional name.
pub open spec fn name_view(name: Option<String>) -> Option<Seq<char>> {
    match name {
        Some(s) => Some(s@),
        None => None,
    }
}

impl Expr {
    /// The model of this tree, by structural recursion.
    pub open spec fn model(self) -> ExprView
        decreases self,
    {
        match self {
            Expr::Const(lit) => ExprView::Const(lit),
            Expr::GetLocal { index, ty } => ExprView::GetLocal { index, ty },
            Expr::SetLocal { index, value } => ExprView::SetLocal {
                index,
                value: Box::new(value.model()),
            },
            Expr::TeeLocal { index, value } => ExprView::TeeLocal {
                index,
                value: Box::new(value.model()),
            },
            Expr::Load { bytes, signed, offset, align, ty, ptr } => ExprView::Load {
                bytes,
                signed,
                offset,
                align,
                ty,
                ptr: Box::new(ptr.model()),
            },
            Expr::Store { bytes, offset, align, ptr, value, ty } => ExprView::Store {
                bytes,
                offset,
                align,
                ptr: Box::new(ptr.model()),
                value: Box::new(value.model()),
                ty,
            },
            Expr::Unary { op, value } => ExprView::Unary { op, value: Box::new(value.model()) },
            Expr::Binary { op, left, right } => ExprView::Binary {
                op,
                left: Box::new(left.model()),
                right: Box::new(right.model()),
            },
            Expr::Call { target, operands, ty } => ExprView::Call {
                target: target@,
                operands: Seq::new(
                    operands.len() as nat,
                    |i: int|
                        if 0 <= i < operands.len() {
                            operands[i].model()
                        } else {
                            ExprView::Unreachable
                        },
                ),
                ty,
            },
            Expr::CallImport { target, operands, ty } => ExprView::CallImport {
                target: target@,
                operands: Seq::new(
                    operands.len() as nat,
                    |i: int|
                        if 0 <= i < operands.len() {
                            operands[i].model()
                        } else {
                            ExprView::Unreachable
                        },
                ),
                ty,
            },
            Expr::Return { value } => ExprView::Return {
                value: match value {
                    Some(v) => Some(Box::new(v.model())),
                    None => None,
                },
            },
            Expr::Block { name, children } => ExprView::Block {
                name: name_view(name),
                children: Seq::new(
                    children.len() as nat,
                    |i: int|
                        if 0 <= i < children.len() {
                            children[i].model()
                        } else {
                            ExprView::Unreachable
                        },
                ),
            },
            Expr::Drop { value } => ExprView::Drop { value: Box::new(value.model()) },
            Expr::Unreachable => ExprView::Unreachable,
        }
    }
}

impl View for Expr {
    type V = ExprView;

    open spec fn view(&self) -> ExprView {
        self.model()
    }
}

/// The models of a list of values, in order.
pub open spec fn views<T: View>(items: Seq<T>) -> Seq<T::V> {
    items.map_values(|x: T| x@)
}

/// Appending a value appends its model.
pub proof fn lemma_views_push<T: View>(items: Seq<T>, x: T)
    ensures
        views(items.push(x)) == views(items).push(x@),
{
    assert(views(items.push(x)) =~= views(items).push(x@));
}

/// The constant `lit`.
pub fn constant(lit: Literal) -> (r: Expr)
    ensures
        r@ == ExprView::Const(lit),
{
    Expr::Const(lit)
}

/// The 32-bit constant `k`.
pub fn int32(k: i32) -> (r: Expr)
    ensures
        r@ == ExprView::Const(Literal::Int32(k)),
{
    Expr::Const(Literal::Int32(k))
}

/// The 64-bit constant `k`.
pub fn int64(k: i64) -> (r: Expr)
    ensures
        r@ == ExprView::Const(Literal::Int64(k)),
{
    Expr::Const(Literal::Int64(k))
}

/// Reads the slot `index` as a value of type `ty`.
pub fn get_local(index: usize, ty: Type) -> (r: Expr)
    ensures
        r@ == (ExprView::GetLocal { index, ty }),
{
    Expr::GetLocal { index, ty }
}

/// Writes `value` to the slot `index`.
pub fn set_local(index: usize, value: Expr) -> (r: Expr)
    ensures
        r@ == (ExprView::SetLocal { index, value: Box::new(value@) }),
{
    Expr::SetLocal { index, value: Box::new(value) }
}

/// Writes `value` to the slot `index` and yields it.
pub fn tee_local(index: usize, value: Expr) -> (r: Expr)
    ensures
        r@ == (ExprView::TeeLocal { index, value: Box::new(value@) }),
{
    Expr::TeeLocal { index, value: Box::new(value) }
}

/// Reads `bytes` bytes of linear memory at the address `ptr + offset`.
pub fn load(bytes: u32, signed: bool, offset: u32, align: u32, ty: Type, ptr: Expr) -> (r: Expr)
    ensures
        r@ == (ExprView::Load { bytes, signed, offset, align, ty, ptr: Box::new(ptr@) }),
{
    Expr::Load { bytes, signed, offset, align, ty, ptr: Box::new(ptr) }
}

/// Writes the low `bytes` bytes of `value` at the address `ptr + offset`.
pub fn store(bytes: u32, offset: u32, align: u32, ptr: Expr, value: Expr, ty: Type) -> (r: Expr)
    ensures
        r@ == (ExprView::Store {
            bytes,
            offset,
            align,
            ptr: Box::new(ptr@),
            value: Box::new(value@),
            ty,
        }),
{
    Expr::Store { bytes, offset, align, ptr: Box::new(ptr), value: Box::new(value), ty }
}

pub fn unary(op: UnaryOp, value: Expr) -> (r: Expr)
    ensures
        r@ == (ExprView::Unary { op, value: Box::new(value@) }),
{
    Expr::Unary { op, value: Box::new(value) }
}

pub fn binary(op: BinaryOp, left: Expr, right: Expr) -> (r: Expr)
    ensures
        r@ == (ExprView::Binary { op, left: Box::new(left@), right: Box::new(right@) }),
{
    Expr::Binary { op, left: Box::new(left), right: Box::new(right) }
}

/// Leaves the function, with `value` as its result if there is one.
pub fn ret(value: Option<Expr>) -> (r: Expr)
    ensures
        r@ == (ExprView::Return {
            value: match value {
                Some(v) => Some(Box::new(v@)),
                None => None,
            },
        }),
{
    match value {
        Some(v) => Expr::Return { value: Some(Box::new(v)) },
        None => Expr::Return { value: None },
    }
}

/// Evaluates `value` and discards the result.
pub fn drop_value(value: Expr) -> (r: Expr)
    ensures
        r@ == (ExprView::Drop { value: Box::new(value@) }),
{
    Expr::Drop { value: Box::new(value) }
}

/// The instruction that traps.
pub fn trap() -> (r: Expr)
    ensures
        r@ == ExprView::Unreachable,
{
    Expr::Unreachable
}

/// A direct call whose operands are `operands`.
pub fn call(target: String, operands: Vec<Expr>, ty: Type) -> (r: Expr)
    ensures
        r@ == (ExprView::Call { target: target@, operands: views(operands@), ty }),
{
    let ghost ops = operands@;
    let r = Expr::Call { target, operands, ty };
    assert(r@->Call_operands =~= views(ops));
    r
}

/// A call of an imported function whose operands are `operands`.
pub fn call_import(target: String, operands: Vec<Expr>, ty: Type) -> (r: Expr)
    ensures
        r@ == (ExprView::CallImport { target: target@, operands: views(operands@), ty }),
{
    let ghost ops = operands@;
    let r = Expr::CallImport { target, operands, ty };
    assert(r@->CallImport_operands =~= views(ops));
    r
}

/// A block that runs `children` in order.
pub fn block(name: Option<String>, children: Vec<Expr>) -> (r: Expr)
    ensures
        r@ == (ExprView::Block { name: name_view(name), children: views(children@) }),
{
    let ghost cs = children@;
    let r = Expr::Block { name, children };
    assert(r@->Block_children =~= views(cs));
    r
}

} // verus!
