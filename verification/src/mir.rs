//! The input: a typed program in basic-block form, with the layout facts
//! the lowering needs, all as plain data.
//!
//! Types, signatures and definitions are held in tables and named by their
//! index. Whatever the producer of a program derives by substitution or by
//! resolving a trait method is already in it: a call names the definition it
//! reaches and the concrete signature it reaches it at.

use vstd::prelude::*;

verus! {

/// Index of a type in [`Program::types`].
pub type TypeId = usize;

/// Index of a signature in [`Program::sigs`].
pub type SigId = usize;

/// Index of a definition in [`Program::defs`].
pub type DefId = usize;

#[derive(Copy, Clone, Debug, PartialEq, Eq, Structural)]
pub enum IntTy {
    Is,
    I8,
    I16,
    I32,
    I64,
    I128,
}

#[derive(Copy, Clone, Debug, PartialEq, Eq, Structural)]
pub enum UintTy {
    Us,
    U8,
    U16,
    U32,
    U64,
    U128,
}

#[derive(Copy, Clone, Debug, PartialEq, Eq, Structural)]
pub enum FloatTy {
    F32,
    F64,
}

/// What the lowering distinguishes among source types.
#[derive(Copy, Clone, Debug, PartialEq, Eq, Structural)]
pub enum TyKind {
    /// The unit type.
    Nil,
    /// The type of computations that do not return.
    Never,
    Bool,
    Char,
    Int(IntTy),
    Uint(UintTy),
    Float(FloatTy),
    /// Aggregates, references and everything else.
    Other,
}

/// The integer a discriminant is stored as.
#[derive(Copy, Clone, Debug, PartialEq, Eq, Structural)]
pub enum Integer {
    I1,
    I8,
    I16,
    I32,
    I64,
    I128,
}

/// The fields of one variant: the byte offset of each, by field index.
#[derive(Clone, Debug, PartialEq, Eq)]
pub struct Struct {
    pub offsets: Vec<u64>,
}

/// How values of a type are laid out.
#[derive(Clone, Debug, PartialEq, Eq)]
pub enum Layout {
    /// A single scalar.
    Scalar,
    /// A C-style enum: a discriminant and nothing else.
    CEnum { discr: Integer },
    /// A record with a single variant.
    Univariant { variant: Struct },
    /// A tagged union: a discriminant, then the fields of one of the variants.
    General { discr: Integer, variants: Vec<Struct> },
    /// Any other layout.
    Other,
}

/// A source type: its kind, its layout where one could be computed, and
/// its size in bytes.
#[derive(Clone, Debug, PartialEq, Eq)]
pub struct TypeInfo {
    pub kind: TyKind,
    pub layout: Option<Layout>,
    pub size: u64,
}

/// A signature: the types of the parameters and of the result.
#[derive(Clone, Debug, PartialEq, Eq)]
pub struct FnSig {
    pub inputs: Vec<TypeId>,
    pub output: TypeId,
}

/// A reference to a function at a call site.
///
/// `def_id` is the definition named in the source. `resolved` is the
/// implementation it stands for where `def_id` is a trait method.
/// `mono_sig` is the signature of the function reached, with the call
/// site's type arguments substituted.
#[derive(Copy, Clone, Debug, PartialEq, Eq, Structural)]
pub struct FnRef {
    pub def_id: DefId,
    pub resolved: Option<DefId>,
    pub mono_sig: SigId,
}

#[derive(Copy, Clone, Debug, PartialEq, Eq, Structural)]
pub enum ConstIsize {
    Is32(i32),
    Is64(i64),
}

#[derive(Copy, Clone, Debug, PartialEq, Eq, Structural)]
pub enum ConstInt {
    I32(i32),
    I64(i64),
    Isize(ConstIsize),
    /// An integer of any other type.
    Other,
}

#[derive(Copy, Clone, Debug, PartialEq, Eq, Structural)]
pub enum ConstVal {
    Integral(ConstInt),
    Bool(bool),
    Function(FnRef),
    /// Strings, floats and every other constant.
    Other,
}

#[derive(Copy, Clone, Debug, PartialEq, Eq, Structural)]
pub enum Literal {
    Item(FnRef),
    Value(ConstVal),
    Promoted,
}

/// A constant operand and its type.
#[derive(Copy, Clone, Debug, PartialEq, Eq, Structural)]
pub struct Constant {
    pub ty: TypeId,
    pub literal: Literal,
}

/// One step from a storage location to a part of it.
#[derive(Copy, Clone, Debug, PartialEq, Eq, Structural)]
pub enum ProjectionElem {
    Deref,
    /// The field with this index.
    Field(usize),
    /// The same location, seen as the variant with this index.
    Downcast(usize),
    /// Indexing, slicing and every other step.
    Other,
}

/// A storage location: a local, or a part of another location.
#[derive(Debug, PartialEq, Eq)]
pub enum Lvalue {
    Local(usize),
    Static,
    Projection(Box<Projection>),
}

/// A part of `base`, reached by `elem`; `ty` is the type of the part.
#[derive(Debug, PartialEq, Eq)]
pub struct Projection {
    pub base: Lvalue,
    pub elem: ProjectionElem,
    pub ty: TypeId,
}

#[derive(Debug, PartialEq, Eq)]
pub enum Operand {
    Consume(Lvalue),
    Constant(Constant),
}

#[derive(Copy, Clone, Debug, PartialEq, Eq, Structural)]
pub enum UnOp {
    Not,
    Neg,
}

#[derive(Copy, Clone, Debug, PartialEq, Eq, Structural)]
pub enum BinOp {
    Add,
    Sub,
    Mul,
    Div,
    Rem,
    BitXor,
    BitAnd,
    BitOr,
    Shl,
    Shr,
    Eq,
    Lt,
    Le,
    Ne,
    Ge,
    Gt,
}

#[derive(Copy, Clone, Debug, PartialEq, Eq, Structural)]
pub enum CastKind {
    Misc,
    ReifyFnPointer,
    ClosureFnPointer,
    UnsafeFnPointer,
    Unsize,
}

/// What an aggregate value is built as. For `Adt`, `ty` is the type built,
/// with the type arguments of the construction substituted.
#[derive(Copy, Clone, Debug, PartialEq, Eq, Structural)]
pub enum AggregateKind {
    Array,
    Tuple,
    Adt { ty: TypeId, variant: usize },
    Closure,
}

#[derive(Debug, PartialEq, Eq)]
pub enum Rvalue {
    Use(Operand),
    UnaryOp(UnOp, Operand),
    BinaryOp(BinOp, Operand, Operand),
    CheckedBinaryOp(BinOp, Operand, Operand),
    Ref(Lvalue),
    Aggregate(AggregateKind, Vec<Operand>),
    Cast(CastKind, Operand, TypeId),
    /// Repetition, length, discriminant reads and every other value.
    Other,
}

#[derive(Debug, PartialEq, Eq)]
pub enum StatementKind {
    Assign(Lvalue, Rvalue),
    StorageLive,
    StorageDead,
    /// Every other statement.
    Other,
}

#[derive(Debug, PartialEq, Eq)]
pub struct Statement {
    pub kind: StatementKind,
}

/// One case of a switch: the value selected on and the block it leads to.
#[derive(Copy, Clone, Debug, PartialEq, Eq, Structural)]
pub struct SwitchCase {
    pub value: u64,
    pub target: usize,
}

/// How a block ends. Blocks are named by their index in the body.
#[derive(Debug, PartialEq, Eq)]
pub enum TerminatorKind {
    Goto { target: usize },
    SwitchInt { discr: Operand, cases: Vec<SwitchCase>, otherwise: usize },
    Return,
    Call { func: Operand, args: Vec<Operand>, destination: Option<(Lvalue, usize)> },
    Assert { cond: Operand, expected: bool, target: usize },
    /// Unwinding, drops and every other terminator.
    Other,
}

#[derive(Debug, PartialEq, Eq)]
pub struct Terminator {
    pub kind: TerminatorKind,
}

#[derive(Debug, PartialEq, Eq)]
pub struct BasicBlockData {
    pub statements: Vec<Statement>,
    pub terminator: Terminator,
}

#[derive(Copy, Clone, Debug, PartialEq, Eq, Structural)]
pub struct LocalDecl {
    pub ty: TypeId,
}

/// The body of a function.
///
/// Local 0 is the return value; the parameters follow, as many as the
/// signature has inputs; then `var_count` user variables; the rest are
/// temporaries.
#[derive(Debug, PartialEq, Eq)]
pub struct Mir {
    pub local_decls: Vec<LocalDecl>,
    pub var_count: usize,
    pub basic_blocks: Vec<BasicBlockData>,
}

/// Where a function without a body of its own is found: it is called as
/// `name`, and imported as `base` from the external module `module`.
#[derive(Clone, Debug, PartialEq, Eq)]
pub struct LinkInfo {
    pub name: String,
    pub module: String,
    pub base: String,
}

/// A function definition.
#[derive(Debug, PartialEq, Eq)]
pub struct FnDef {
    /// The path of the definition, as it is written in diagnostics.
    pub path: String,
    /// The crate of the definition and its index there.
    pub krate: u32,
    pub index: u32,
    /// The declared signature.
    pub sig: SigId,
    /// Whether the definition has type parameters of its own or of its parent.
    pub generic: bool,
    /// Whether the definition belongs to the crate being lowered.
    pub is_local: bool,
    pub mir: Option<Mir>,
    pub link: Option<LinkInfo>,
}

/// A program to lower.
#[derive(Debug, PartialEq, Eq)]
pub struct Program {
    pub types: Vec<TypeInfo>,
    pub sigs: Vec<FnSig>,
    pub defs: Vec<FnDef>,
    /// The definition that stands for a panic, if the program has one.
    pub panic_fn: Option<DefId>,
}

} // verus!
