//! The module builder: the output module, function builders with their flat
//! table of local slots, and typed instruction constructors.

use vstd::prelude::*;
use vstd::std_specs::convert::FromSpecImpl;
use super::ir::{call, views, Expr, ExprView, Literal};
use super::relooper::{Cfg, CfgView};

verus! {

/// Representable types.
///
/// These are types that can actually exist, for example, as a local variable.
#[derive(Copy, Clone, Debug, PartialEq, Eq, Structural)]
pub enum ReprType {
    Int32,
    Int64,
    Float32,
    Float64,
}

impl ReprType {
    /// Width in bytes: 4 for the 32-bit types, 8 for the 64-bit types.
    pub open spec fn spec_size(&self) -> usize {
        match *self {
            ReprType::Int32 | ReprType::Float32 => 4,
            ReprType::Int64 | ReprType::Float64 => 8,
        }
    }

    #[verifier::when_used_as_spec(spec_size)]
    pub fn size(&self) -> (r: usize)
        ensures
            r == self.spec_size(),
    {
        match *self {
            ReprType::Int32 | ReprType::Float32 => 4,
            ReprType::Int64 | ReprType::Float64 => 8,
        }
    }
}

/// Any type the target supports; `None` is the type of no value.
pub type Type = Option<ReprType>;

/// The linear memory of a module, in 64 KiB pages.
#[derive(Clone, Debug, PartialEq, Eq)]
pub struct Memory {
    pub initial: u32,
    pub maximum: u32,
    pub export_name: Option<String>,
}

pub ghost struct MemoryView {
    pub initial: u32,
    pub maximum: u32,
    pub export_name: Option<Seq<char>>,
}

impl View for Memory {
    type V = MemoryView;

    open spec fn view(&self) -> MemoryView {
        MemoryView {
            initial: self.initial,
            maximum: self.maximum,
            export_name: super::ir::name_view(self.export_name),
        }
    }
}

/// A function type descriptor: parameter types and result type, under a name.
#[derive(Clone, Debug, PartialEq, Eq)]
pub struct FunctionType {
    pub name: String,
    pub params: Vec<ReprType>,
    pub result: Type,
}

pub ghost struct FunctionTypeView {
    pub name: Seq<char>,
    pub params: Seq<ReprType>,
    pub result: Type,
}

impl View for FunctionType {
    type V = FunctionTypeView;

    open spec fn view(&self) -> FunctionTypeView {
        FunctionTypeView { name: self.name@, params: self.params@, result: self.result }
    }
}

/// The body of a function: an instruction tree, or a set of blocks and
/// edges still to be turned into one by structured-control synthesis.
#[derive(Debug, PartialEq, Eq)]
pub enum Body {
    Expr(Expr),
    Cfg(Cfg),
}

pub ghost enum BodyView {
    Expr(ExprView),
    Cfg(CfgView),
}

impl View for Body {
    type V = BodyView;

    open spec fn view(&self) -> BodyView {
        match self {
            Body::Expr(e) => BodyView::Expr(e@),
            Body::Cfg(c) => BodyView::Cfg(c@),
        }
    }
}

/// A function of the module. `ty` indexes the module's function types;
/// `var_types` are the types of its locals that are not parameters.
#[derive(Debug, PartialEq, Eq)]
pub struct Function {
    pub name: String,
    pub ty: usize,
    pub var_types: Vec<ReprType>,
    pub body: Body,
}

pub ghost struct FunctionView {
    pub name: Seq<char>,
    pub ty: usize,
    pub var_types: Seq<ReprType>,
    pub body: BodyView,
}

impl View for Function {
    type V = FunctionView;

    open spec fn view(&self) -> FunctionView {
        FunctionView {
            name: self.name@,
            ty: self.ty,
            var_types: self.var_types@,
            body: self.body@,
        }
    }
}

/// A function taken from outside the module: called as `name`, found as
/// `base` in the external module `module`.
#[derive(Clone, Debug, PartialEq, Eq)]
pub struct Import {
    pub name: String,
    pub module: String,
    pub base: String,
    pub ty: usize,
}

pub ghost struct ImportView {
    pub name: Seq<char>,
    pub module: Seq<char>,
    pub base: Seq<char>,
    pub ty: usize,
}

impl View for Import {
    type V = ImportView;

    open spec fn view(&self) -> ImportView {
        ImportView { name: self.name@, module: self.module@, base: self.base@, ty: self.ty }
    }
}

/// A function made visible outside the module under the name `external`.
#[derive(Clone, Debug, PartialEq, Eq)]
pub struct Export {
    pub internal: String,
    pub external: String,
}

pub ghost struct ExportView {
    pub internal: Seq<char>,
    pub external: Seq<char>,
}

impl View for Export {
    type V = ExportView;

    open spec fn view(&self) -> ExportView {
        ExportView { internal: self.internal@, external: self.external@ }
    }
}

/// The output module: the accumulator of everything the lowering emits.
#[derive(Debug, PartialEq, Eq)]
pub struct Module {
    pub auto_drop: bool,
    pub memory: Option<Memory>,
    pub function_types: Vec<FunctionType>,
    pub functions: Vec<Function>,
    pub imports: Vec<Import>,
    pub exports: Vec<Export>,
    pub start: Option<usize>,
}

pub ghost struct ModuleView {
    pub auto_drop: bool,
    pub memory: Option<MemoryView>,
    pub function_types: Seq<FunctionTypeView>,
    pub functions: Seq<FunctionView>,
    pub imports: Seq<ImportView>,
    pub exports: Seq<ExportView>,
    pub start: Option<usize>,
}

impl View for Module {
    type V = ModuleView;

    open spec fn view(&self) -> ModuleView {
        ModuleView {
            auto_drop: self.auto_drop,
            memory: match self.memory {
                Some(m) => Some(m@),
                None => None,
            },
            function_types: views(self.function_types@),
            functions: views(self.functions@),
            imports: views(self.imports@),
            exports: views(self.exports@),
            start: self.start,
        }
    }
}

impl ModuleView {
    /// The module that holds nothing.
    pub open spec fn empty() -> ModuleView {
        ModuleView {
            auto_drop: false,
            memory: None,
            function_types: Seq::empty(),
            functions: Seq::empty(),
            imports: Seq::empty(),
            exports: Seq::empty(),
            start: None,
        }
    }
}

/// A registered function type: its place in the module's type table, with
/// the name and parameter types it was registered under.
#[derive(Clone, Debug, PartialEq, Eq)]
pub struct FnType {
    name: String,
    raw_arg_tys: Vec<ReprType>,
    type_ref: usize,
}

impl FnType {
    pub closed spec fn name(&self) -> Seq<char> {
        self.name@
    }

    pub closed spec fn arg_tys(&self) -> Seq<ReprType> {
        self.raw_arg_tys@
    }

    pub closed spec fn spec_type_ref(&self) -> usize {
        self.type_ref
    }

    /// The index of this type in the module's type table.
    #[verifier::when_used_as_spec(spec_type_ref)]
    pub fn type_ref(&self) -> (r: usize)
        ensures
            r == self.spec_type_ref(),
    {
        self.type_ref
    }
}

impl Module {
    /// A module that holds nothing yet.
    pub fn new() -> (m: Module)
        ensures
            m@ == ModuleView::empty(),
    {
        let m = Module {
            auto_drop: false,
            memory: None,
            function_types: Vec::new(),
            functions: Vec::new(),
            imports: Vec::new(),
            exports: Vec::new(),
            start: None,
        };
        assert(m@.function_types =~= Seq::empty());
        assert(m@.functions =~= Seq::empty());
        assert(m@.imports =~= Seq::empty());
        assert(m@.exports =~= Seq::empty());
        m
    }

    /// Asks that values left unused by a function body be dropped when the
    /// module is finished.
    pub fn auto_drop(&mut self)
        ensures
            final(self)@ == (ModuleView { auto_drop: true, ..old(self)@ }),
    {
        self.auto_drop = true;
    }

    /// Gives the module a linear memory of exactly `num_pages` pages,
    /// exported as `memory`. Of a number of pages past 32 bits the low 32
    /// bits count.
    pub fn set_memory(&mut self, num_pages: usize)
        ensures
            final(self)@ == (ModuleView {
                memory: Some(
                    MemoryView {
                        initial: num_pages as u32,
                        maximum: num_pages as u32,
                        export_name: Some("memory"@),
                    },
                ),
                ..old(self)@
            }),
    {
        let pages = #[verifier::truncate]
        (num_pages as u32);
        self.memory = Some(
            Memory {
                initial: pages,
                maximum: pages,
                export_name: Some("memory".to_string()),
            },
        );
    }

    /// Replaces the linear memory by one of `initial` to `maximum` pages
    /// under an optional export name.
    pub fn set_memory_raw(&mut self, initial: u32, maximum: u32, export_name: Option<String>)
        ensures
            final(self)@ == (ModuleView {
                memory: Some(
                    MemoryView {
                        initial,
                        maximum,
                        export_name: super::ir::name_view(export_name),
                    },
                ),
                ..old(self)@
            }),
    {
        self.memory = Some(Memory { initial, maximum, export_name });
    }

    /// A builder for a function with no parameters and no locals yet.
    pub fn create_func(&mut self) -> (f: Fn)
        ensures
            *final(self) == *old(self),
            f.wf(),
            f.vars() == Seq::<Var>::empty(),
            f.arg_count() == 0,
            !f.sealed(),
    {
        Fn { vars: Vec::new(), num_args: 0, has_locals: false }
    }

    /// Registers a function type at the end of the type table.
    pub fn create_function_type(&mut self, name: &str, arg_tys: &[ReprType], ret_ty: Type) -> (t:
        FnType)
        ensures
            final(self)@ == (ModuleView {
                function_types: old(self)@.function_types.push(
                    FunctionTypeView { name: name@, params: arg_tys@, result: ret_ty },
                ),
                ..old(self)@
            }),
            t.name() == name@,
            t.arg_tys() == arg_tys@,
            t.type_ref() == old(self)@.function_types.len(),
    {
        let params = copy_types(arg_tys);
        let raw_arg_tys = copy_types(arg_tys);
        let type_ref = self.function_types.len();
        let ghost before = self.function_types@;
        let ft = FunctionType { name: name.to_string(), params, result: ret_ty };
        proof {
            super::ir::lemma_views_push(before, ft);
        }
        self.function_types.push(ft);
        FnType { name: name.to_string(), raw_arg_tys, type_ref }
    }

    /// Adds a function at the end of the function list and returns its
    /// position there.
    pub fn add_function(&mut self, name: String, ty: usize, var_types: Vec<ReprType>, body: Body) -> (r:
        usize)
        ensures
            final(self)@ == (ModuleView {
                functions: old(self)@.functions.push(
                    FunctionView { name: name@, ty, var_types: var_types@, body: body@ },
                ),
                ..old(self)@
            }),
            r == old(self)@.functions.len(),
    {
        let r = self.functions.len();
        let f = Function { name, ty, var_types, body };
        proof {
            super::ir::lemma_views_push(self.functions@, f);
        }
        self.functions.push(f);
        r
    }

    /// Registers a function to be taken from outside the module.
    pub fn add_import(&mut self, name: String, module: String, base: String, ty: usize)
        ensures
            final(self)@ == (ModuleView {
                imports: old(self)@.imports.push(
                    ImportView { name: name@, module: module@, base: base@, ty },
                ),
                ..old(self)@
            }),
    {
        let i = Import { name, module, base, ty };
        proof {
            super::ir::lemma_views_push(self.imports@, i);
        }
        self.imports.push(i);
    }

    /// Makes the function `internal` visible outside under `external`.
    pub fn add_export(&mut self, internal: String, external: String)
        ensures
            final(self)@ == (ModuleView {
                exports: old(self)@.exports.push(
                    ExportView { internal: internal@, external: external@ },
                ),
                ..old(self)@
            }),
    {
        let e = Export { internal, external };
        proof {
            super::ir::lemma_views_push(self.exports@, e);
        }
        self.exports.push(e);
    }

    /// Names the function at `function` as the one run when the module starts.
    pub fn set_start(&mut self, function: usize)
        ensures
            final(self)@ == (ModuleView { start: Some(function), ..old(self)@ }),
    {
        self.start = Some(function);
    }
}

/// A copy of a list of representable types.
pub fn copy_types(tys: &[ReprType]) -> (r: Vec<ReprType>)
    ensures
        r@ == tys@,
{
    let mut r: Vec<ReprType> = Vec::new();
    let mut i: usize = 0;
    while i < tys.len()
        invariant
            i <= tys.len(),
            r@ == tys@.subrange(0, i as int),
        decreases tys.len() - i,
    {
        r.push(tys[i]);
        assert(r@ =~= tys@.subrange(0, i + 1));
        i += 1;
    }
    assert(r@ =~= tys@);
    r
}

/// One local slot of a function: its type and its position in the
/// function's flat slot table.
#[derive(Copy, Clone, Debug, PartialEq, Eq)]
pub struct Var {
    ty: ReprType,
    index: usize,
}

impl Var {
    pub closed spec fn spec_index(&self) -> usize {
        self.index
    }

    pub closed spec fn spec_ty(&self) -> ReprType {
        self.ty
    }

    #[verifier::when_used_as_spec(spec_index)]
    pub fn index(&self) -> (r: usize)
        ensures
            r == self.spec_index(),
    {
        self.index
    }

    #[verifier::when_used_as_spec(spec_ty)]
    pub fn ty(&self) -> (r: ReprType)
        ensures
            r == self.spec_ty(),
    {
        self.ty
    }
}

/// A function under construction: its slots, parameters first.
///
/// Slots are only ever appended. Parameters can be added until the first
/// local is created.
#[derive(Clone, Debug, PartialEq, Eq)]
pub struct Fn {
    vars: Vec<Var>,
    num_args: usize,
    has_locals: bool,
}

impl Fn {
    /// All slots, in index order.
    pub closed spec fn vars(&self) -> Seq<Var> {
        self.vars@
    }

    /// How many of the slots are parameters.
    pub closed spec fn arg_count(&self) -> nat {
        self.num_args as nat
    }

    /// Whether a local has been created, after which no parameter can be
    /// added.
    pub closed spec fn sealed(&self) -> bool {
        self.has_locals
    }

    /// The slot at position `i` has index `i`, and the parameters are a
    /// prefix of the slots: all of them until the first local is created.
    pub closed spec fn wf(&self) -> bool {
        &&& self.num_args <= self.vars.len()
        &&& !self.has_locals ==> self.num_args == self.vars.len()
        &&& forall|i: int| 0 <= i < self.vars.len() ==> (#[trigger] self.vars[i]).index == i
    }

    /// The types of all slots, in index order.
    pub open spec fn var_tys(&self) -> Seq<ReprType> {
        self.vars().map_values(|v: Var| v.ty())
    }

    /// Appends a parameter slot of type `ty`.
    pub fn add_arg(&mut self, ty: ReprType) -> (r: &Var)
        requires
            old(self).wf(),
            !old(self).sealed(),
        ensures
            final(self).wf(),
            final(self).vars() == old(self).vars().push(*r),
            final(self).var_tys() == old(self).var_tys().push(ty),
            final(self).arg_count() == old(self).arg_count() + 1,
            !final(self).sealed(),
            r.index() == old(self).vars().len(),
            r.ty() == ty,
    {
        let index = self.vars.len();
        self.vars.push(Var { ty, index });
        assert(self.var_tys() =~= old(self).var_tys().push(ty));
        assert(self.num_args < self.vars.len());
        self.num_args = self.num_args + 1;
        &self.vars[index]
    }

    /// Appends a local slot of type `ty`.
    pub fn create_local(&mut self, ty: ReprType) -> (r: &Var)
        requires
            old(self).wf(),
        ensures
            final(self).wf(),
            final(self).vars() == old(self).vars().push(*r),
            final(self).var_tys() == old(self).var_tys().push(ty),
            final(self).arg_count() == old(self).arg_count(),
            final(self).sealed(),
            r.index() == old(self).vars().len(),
            r.ty() == ty,
    {
        self.has_locals = true;
        self.create_local_raw(ty)
    }

    fn create_local_raw(&mut self, ty: ReprType) -> (r: &Var)
        requires
            old(self).num_args <= old(self).vars.len(),
            old(self).has_locals,
            forall|i: int| 0 <= i < old(self).vars.len() ==> (#[trigger] old(self).vars[i]).index == i,
        ensures
            final(self).wf(),
            final(self).vars@ == old(self).vars@.push(*r),
            final(self).var_tys() == old(self).var_tys().push(ty),
            final(self).num_args == old(self).num_args,
            final(self).has_locals,
            r.index == old(self).vars.len(),
            r.ty == ty,
    {
        let index = self.vars.len();
        let var = Var { ty, index };
        self.vars.push(var);
        assert(self.var_tys() =~= old(self).var_tys().push(ty));
        &self.vars[index]
    }

    /// The types of the slots that are not parameters, in index order.
    pub fn binaryen_var_types(&self) -> (r: Vec<ReprType>)
        requires
            self.wf(),
        ensures
            r@ == self.var_tys().subrange(self.arg_count() as int, self.vars().len() as int),
    {
        let mut r: Vec<ReprType> = Vec::new();
        let mut i: usize = self.num_args;
        while i < self.vars.len()
            invariant
                self.num_args <= i <= self.vars.len(),
                r@ == self.var_tys().subrange(self.num_args as int, i as int),
            decreases self.vars.len() - i,
        {
            r.push(self.vars[i].ty);
            assert(r@ =~= self.var_tys().subrange(self.num_args as int, i + 1));
            i += 1;
        }
        r
    }

    /// The number of slots, parameters included.
    pub fn num_vars(&self) -> (r: usize)
        ensures
            r == self.vars().len(),
    {
        self.vars.len()
    }

    /// The number of slots that are not parameters.
    pub fn num_locals(&self) -> (r: usize)
        requires
            self.wf(),
        ensures
            r == self.vars().len() - self.arg_count(),
    {
        self.vars.len() - self.num_args
    }

    /// The number of parameter slots.
    pub fn num_args(&self) -> (r: usize)
        ensures
            r == self.arg_count(),
    {
        self.num_args
    }

    /// The slot at `index`.
    pub fn get_var(&self, index: usize) -> (r: &Var)
        requires
            index < self.vars().len(),
        ensures
            *r == self.vars()[index as int],
    {
        &self.vars[index]
    }

    /// Reads the slot at `index`.
    pub fn get_local(&self, index: usize) -> (r: Expression)
        requires
            self.wf(),
            index < self.vars().len(),
        ensures
            r.expr() == (ExprView::GetLocal { index, ty: Some(self.vars()[index as int].ty()) }),
            r.ty() == Some(self.vars()[index as int].ty()),
    {
        let x = self.get_var(index);
        Expression::new(Expr::GetLocal { index: x.index, ty: Some(x.ty) }, Some(x.ty))
    }

    /// Writes `val` to the slot at `index`; the result has no value.
    pub fn set_local(&self, index: usize, val: Expression) -> (r: Expression)
        requires
            self.wf(),
            index < self.vars().len(),
            val.ty() == Some(self.vars()[index as int].ty()),
        ensures
            r.expr() == (ExprView::SetLocal { index, value: Box::new(val.expr()) }),
            r.ty() == None::<ReprType>,
    {
        let x = self.get_var(index);
        Expression::new(Expr::SetLocal { index: x.index, value: Box::new(val.expr) }, None)
    }

    /// Writes `val` to the slot at `index` and yields the value written.
    pub fn tee_local(&self, index: usize, val: Expression) -> (r: Expression)
        requires
            self.wf(),
            index < self.vars().len(),
            val.ty() == Some(self.vars()[index as int].ty()),
        ensures
            r.expr() == (ExprView::TeeLocal { index, value: Box::new(val.expr()) }),
            r.ty() == Some(self.vars()[index as int].ty()),
    {
        let x = self.get_var(index);
        let ty = x.ty;
        Expression::new(Expr::TeeLocal { index: x.index, value: Box::new(val.expr) }, Some(ty))
    }

    /// Registers in `module` the type of this function: its parameter
    /// types and `ret_ty`, under `name`.
    pub fn create_sig_type(&self, module: &mut Module, name: &str, ret_ty: Type) -> (r: usize)
        requires
            self.wf(),
        ensures
            final(module)@ == (ModuleView {
                function_types: old(module)@.function_types.push(
                    FunctionTypeView {
                        name: name@,
                        params: self.var_tys().subrange(0, self.arg_count() as int),
                        result: ret_ty,
                    },
                ),
                ..old(module)@
            }),
            r == old(module)@.function_types.len(),
    {
        let mut arg_tys: Vec<ReprType> = Vec::new();
        let mut i: usize = 0;
        while i < self.num_args
            invariant
                i <= self.num_args <= self.vars.len(),
                arg_tys@ == self.var_tys().subrange(0, i as int),
            decreases self.num_args - i,
        {
            arg_tys.push(self.vars[i].ty);
            assert(arg_tys@ =~= self.var_tys().subrange(0, i + 1));
            i += 1;
        }
        module.create_function_type(name, arg_tys.as_slice(), ret_ty).type_ref()
    }
}

/// An instruction tree together with the type of the value it yields.
#[derive(Debug, PartialEq, Eq)]
pub struct Expression {
    expr: Expr,
    ty: Type,
}

impl Expression {
    /// The model of the instruction tree.
    pub closed spec fn expr(&self) -> ExprView {
        self.expr@
    }

    pub closed spec fn spec_ty(&self) -> Type {
        self.ty
    }

    pub fn new(expr: Expr, ty: Type) -> (r: Expression)
        ensures
            r.expr() == expr@,
            r.ty() == ty,
    {
        Expression { expr: expr, ty: ty }
    }

    /// The type of the value the tree yields.
    #[verifier::when_used_as_spec(spec_ty)]
    pub fn ty(&self) -> (r: Type)
        ensures
            r == self.spec_ty(),
    {
        self.ty
    }

    /// The instruction tree alone.
    pub fn into_expr(self) -> (r: Expr)
        ensures
            r@ == self.expr(),
    {
        self.expr
    }
}

impl From<Expression> for Expr {
    fn from(expr: Expression) -> (r: Expr) {
        expr.expr
    }
}

impl FromSpecImpl<Expression> for Expr {
    open spec fn obeys_from_spec() -> bool {
        true
    }

    closed spec fn from_spec(expr: Expression) -> Expr {
        expr.expr
    }
}

/// The instruction trees of a list of typed expressions, in order.
pub fn into_exprs(args: Vec<Expression>) -> (r: Vec<Expr>)
    ensures
        views(r@) == args@.map_values(|a: Expression| a.expr()),
{
    let mut args = args;
    let ghost all = args@;
    let mut rev: Vec<Expr> = Vec::new();
    while args.len() > 0
        invariant
            args@ == all.subrange(0, args.len() as int),
            args.len() + rev.len() == all.len(),
            forall|k: int| 0 <= k < rev.len() ==> (#[trigger] rev[k])@ == all[all.len() - 1 - k].expr(),
        decreases args.len(),
    {
        let ghost before = args@;
        let a = args.pop().unwrap();
        assert(a == before[before.len() - 1]);
        assert(args@ =~= all.subrange(0, args.len() as int));
        rev.push(a.expr);
    }
    let mut r: Vec<Expr> = Vec::new();
    while rev.len() > 0
        invariant
            rev.len() + r.len() == all.len(),
            forall|k: int| 0 <= k < rev.len() ==> (#[trigger] rev[k])@ == all[all.len() - 1 - k].expr(),
            forall|k: int| 0 <= k < r.len() ==> (#[trigger] r[k])@ == all[k].expr(),
        decreases rev.len(),
    {
        let e = rev.pop().unwrap();
        r.push(e);
    }
    assert(views(r@) =~= all.map_values(|a: Expression| a.expr()));
    r
}

/// A marker for the things that build expressions for a module.
pub trait ModuleOwned {

}

impl ModuleOwned for Module {

}

impl ModuleOwned for Fn {

}

/// Constructors of typed expressions.
pub trait ExpressionBuilder: ModuleOwned {
    /// The instruction that traps.
    fn unreachable(&self) -> (r: Expression)
        ensures
            r.expr() == ExprView::Unreachable,
            r.ty() == None::<ReprType>,
    {
        Expression::new(Expr::Unreachable, None)
    }

    /// The 32-bit constant `k`.
    fn int32(&self, k: i32) -> (r: Expression)
        ensures
            r.expr() == ExprView::Const(Literal::Int32(k)),
            r.ty() == Some(ReprType::Int32),
    {
        Expression::new(Expr::Const(Literal::Int32(k)), Some(ReprType::Int32))
    }

    /// The 64-bit constant `k`.
    fn int64(&self, k: i64) -> (r: Expression)
        ensures
            r.expr() == ExprView::Const(Literal::Int64(k)),
            r.ty() == Some(ReprType::Int64),
    {
        Expression::new(Expr::Const(Literal::Int64(k)), Some(ReprType::Int64))
    }

    /// A direct call of `name` on `args`, yielding a value of type `ret_ty`.
    fn call(&self, name: &str, args: Vec<Expression>, ret_ty: Type) -> (r: Expression)
        ensures
            r.expr() == (ExprView::Call {
                target: name@,
                operands: args@.map_values(|a: Expression| a.expr()),
                ty: ret_ty,
            }),
            r.ty() == ret_ty,
    {
        let raw_args = into_exprs(args);
        Expression::new(call(name.to_string(), raw_args, ret_ty), ret_ty)
    }

    /// A full-width, unsigned read of a value of type `ty` at `address`.
    fn load(&self, address: Expression, ty: ReprType) -> (r: Expression)
        requires
            address.ty() == Some(ReprType::Int32),
        ensures
            r.expr() == (ExprView::Load {
                bytes: ty.size() as u32,
                signed: false,
                offset: 0,
                align: 0,
                ty: Some(ty),
                ptr: Box::new(address.expr()),
            }),
            r.ty() == Some(ty),
    {
        let bytes = ty.size();
        Expression::new(
            Expr::Load {
                bytes: bytes as u32,
                signed: false,
                offset: 0,
                align: 0,
                ty: Some(ty),
                ptr: Box::new(address.into_expr()),
            },
            Some(ty),
        )
    }

    /// A full-width write of `val` at `address`.
    fn store(&self, address: Expression, val: Expression) -> (r: Expression)
        requires
            address.ty() == Some(ReprType::Int32),
            val.ty() is Some,
        ensures
            r.expr() == (ExprView::Store {
                bytes: val.ty()->0.size() as u32,
                offset: 0,
                align: 0,
                ptr: Box::new(address.expr()),
                value: Box::new(val.expr()),
                ty: val.ty(),
            }),
            r.ty() == val.ty(),
    {
        let ty = val.ty().unwrap();
        let bytes = ty.size();
        Expression::new(
            Expr::Store {
                bytes: bytes as u32,
                offset: 0,
                align: 0,
                ptr: Box::new(address.into_expr()),
                value: Box::new(val.into_expr()),
                ty: Some(ty),
            },
            Some(ty),
        )
    }

    /// Evaluates `expr` and discards its value.
    fn drop(&self, expr: Expression) -> (r: Expression)
        ensures
            r.expr() == (ExprView::Drop { value: Box::new(expr.expr()) }),
            r.ty() == None::<ReprType>,
    {
        Expression::new(Expr::Drop { value: Box::new(expr.into_expr()) }, None)
    }
}

impl<T: ModuleOwned> ExpressionBuilder for T {

}

} // verus!
