//! The last steps of the lowering of a function: its blocks are linked and
//! closed, and the function is added to the module.

use vstd::prelude::*;
use vstd::string::StringExecFns;
use super::cache::Key;
use super::cache::{has_key, is_prefix};
use super::calls::{spec_symbol, symbol};
use super::context::BinaryenFnCtxt;
use super::edges::{is_switch, submit, with_edges};
use super::frame::{spec_args, spec_frame, Frame, FrameInfo};
use super::function::{
    spec_cfg, spec_collect, spec_function, spec_has_assert, spec_prologue, spec_trap_block,
    FunctionSpec,
};
use super::lowering::{spec_emit, spec_sig_type, Lowering};
use super::module::{describes, function_is, key_translated, BinaryenModuleCtxt};
use super::names::sig_type_name;
use super::stack::spec_sp;
use crate::binaryen::builder::{
    Body, BodyView, ExportView, FunctionTypeView, FunctionView, MemoryView, Module, ModuleView,
    ReprType,
};
use crate::binaryen::ir::{
    block, call, drop_value, int32, lemma_views_push, set_local, store, trap, views, Expr,
    ExprView, Literal,
};
use crate::binaryen::relooper::{BlockKind, BranchView, Cfg, CfgView, Relooper};
use crate::error::ErrorKind;
use crate::mir::{DefId, Mir, Program, SigId, TyKind};

verus! {

/// The body of the start routine: the stack pointer is set to the top of
/// the first page of linear memory; then the entry point is called, with
/// two zeros and its result dropped where it is a `start` function, with
/// nothing where it is `main`.
pub open spec fn spec_runtime_start(entry_name: Seq<char>, is_start: bool) -> ExprView {
    ExprView::Block {
        name: None,
        children: seq![
            ExprView::Store {
                bytes: 4,
                offset: 0,
                align: 0,
                ptr: Box::new(spec_sp()),
                value: Box::new(ExprView::Const(Literal::Int32(0xFFFF))),
                ty: Some(ReprType::Int32),
            },
            if is_start {
                ExprView::Drop {
                    value: Box::new(
                        ExprView::Call {
                            target: entry_name,
                            operands: seq![
                                ExprView::Const(Literal::Int32(0)),
                                ExprView::Const(Literal::Int32(0)),
                            ],
                            ty: Some(ReprType::Int32),
                        },
                    ),
                }
            } else {
                ExprView::Call { target: entry_name, operands: Seq::empty(), ty: None }
            },
        ],
    }
}

/// The module `m` after the start routine for the entry point
/// `entry_name` was added: one page of linear memory, the type of the
/// routine, the routine itself, and its export as `rust_entry`.
pub open spec fn spec_with_start(m: ModuleView, entry_name: Seq<char>, is_start: bool)
    -> ModuleView {
    ModuleView {
        memory: Some(MemoryView { initial: 1, maximum: 1, export_name: None }),
        function_types: m.function_types.push(
            FunctionTypeView { name: "__wasm_start"@, params: Seq::empty(), result: None },
        ),
        functions: m.functions.push(
            FunctionView {
                name: "__wasm_start"@,
                ty: m.function_types.len() as usize,
                var_types: Seq::empty(),
                body: BodyView::Expr(spec_runtime_start(entry_name, is_start)),
            },
        ),
        exports: m.exports.push(
            ExportView { internal: "__wasm_start"@, external: "rust_entry"@ },
        ),
        ..m
    }
}

/// Adds the start routine to the module and returns its position among
/// the functions; see [`spec_with_start`].
pub fn generate_runtime_start(module: &mut Module, entry_fn_name: &str, is_start: bool) -> (r:
    usize)
    ensures
        final(module)@ == spec_with_start(old(module)@, entry_fn_name@, is_start),
        r == old(module)@.functions.len(),
{
    // runtime start fn
    let runtime_start_name = "__wasm_start";
    let runtime_export_name = "rust_entry";
    let no_args: Vec<ReprType> = Vec::new();
    let runtime_start_ty = module.create_function_type(
        runtime_start_name,
        no_args.as_slice(),
        None,
    ).type_ref();
    let mut statements: Vec<Expr> = Vec::new();
    // set-up memory and stack: one 64K page
    module.set_memory_raw(1, 1, None);
    let stack_top = int32(0xFFFF);
    let stack_init = store(
        4,
        0,
        0,
        int32(super::stack::STACK_POINTER_ADDRESS),
        stack_top,
        Some(ReprType::Int32),
    );
    proof {
        lemma_views_push(statements@, stack_init);
    }
    statements.push(stack_init);
    // call start_fn(0, 0) or main()
    let entry_fn_call = if is_start {
        let mut start_args: Vec<Expr> = Vec::new();
        let zero = int32(0);
        proof {
            lemma_views_push(start_args@, zero);
        }
        start_args.push(zero);
        let zero = int32(0);
        proof {
            lemma_views_push(start_args@, zero);
        }
        start_args.push(zero);
        let ghost args = views(start_args@);
        let c = call(String::from_str(entry_fn_name), start_args, Some(ReprType::Int32));
        assert(args =~= seq![
            ExprView::Const(Literal::Int32(0)),
            ExprView::Const(Literal::Int32(0)),
        ]);
        drop_value(c)
    } else {
        let no_operands: Vec<Expr> = Vec::new();
        assert(views(no_operands@) =~= Seq::<ExprView>::empty());
        call(String::from_str(entry_fn_name), no_operands, None)
    };
    proof {
        lemma_views_push(statements@, entry_fn_call);
    }
    statements.push(entry_fn_call);
    let ghost children = views(statements@);
    let body = block(None, statements);
    assert(children =~= spec_runtime_start(entry_fn_name@, is_start)->Block_children);
    module.add_export(String::from_str(runtime_start_name), String::from_str(runtime_export_name));
    let no_vars: Vec<ReprType> = Vec::new();
    module.add_function(
        String::from_str(runtime_start_name),
        runtime_start_ty,
        no_vars,
        Body::Expr(body),
    )
}

/// Whether a basic block of the body ends in an assertion.
pub fn has_assert(mir: &Mir) -> (r: bool)
    ensures
        r == spec_has_assert(mir),
{
    let mut i: usize = 0;
    while i < mir.basic_blocks.len()
        invariant
            i <= mir.basic_blocks.len(),
            forall|j: int| 0 <= j < i ==> !((#[trigger] mir.basic_blocks[j]).terminator.kind is Assert),
        decreases mir.basic_blocks.len() - i,
    {
        match &mir.basic_blocks[i].terminator.kind {
            crate::mir::TerminatorKind::Assert { .. } => {
                return true;
            },
            _ => {},
        }
        i += 1;
    }
    false
}

/// The blocks built from the first `n` basic blocks are `n` blocks
/// without edges, and one of them switches exactly if its basic block ends
/// in a switch.
pub proof fn lemma_collect_blocks(program: &Program, mir: &Mir, frame: Frame, n: nat)
    requires
        n <= mir.basic_blocks.len(),
        spec_collect(program, mir, frame, n) is Ok,
    ensures
        spec_collect(program, mir, frame, n)->Ok_0.blocks.len() == n,
        forall|j: int|
            0 <= j < n ==> {
                let b = #[trigger] spec_collect(program, mir, frame, n)->Ok_0.blocks[j];
                &&& (b.kind == BlockKind::Switch <==> is_switch(
                    &mir.basic_blocks[j].terminator.kind,
                ))
                &&& (b.kind == BlockKind::Switch || b.kind == BlockKind::Basic)
                &&& b.branches == Seq::<BranchView>::empty()
            },
    decreases n,
{
    if n > 0 {
        lemma_collect_blocks(program, mir, frame, (n - 1) as nat);
        let prev = spec_collect(program, mir, frame, (n - 1) as nat)->Ok_0;
        let cur = spec_collect(program, mir, frame, n)->Ok_0;
        assert forall|j: int| 0 <= j < n implies {
            let b = #[trigger] cur.blocks[j];
            &&& (b.kind == BlockKind::Switch <==> is_switch(&mir.basic_blocks[j].terminator.kind))
            &&& (b.kind == BlockKind::Switch || b.kind == BlockKind::Basic)
            &&& b.branches == Seq::<BranchView>::empty()
        } by {
            if j < n - 1 {
                assert(cur.blocks[j] == prev.blocks[j]);
            }
        }
    }
}

/// Links and closes the blocks of a function: the edges of the
/// terminators are added to the blocks they leave, then the block that
/// traps is added if an assertion needs it, then the prologue, in which
/// the function starts; see [`spec_cfg`].
pub(crate) fn assemble(
    program: &Program,
    fcx: &BinaryenFnCtxt,
    mir: &Mir,
    info: FrameInfo,
    relooper: Relooper,
) -> (r: Result<Cfg, ErrorKind>)
    requires
        spec_frame(program, mir, fcx.sig) is Ok,
        fcx@ == spec_frame(program, mir, fcx.sig)->Ok_0.slots,
        info == spec_frame(program, mir, fcx.sig)->Ok_0.info(),
        spec_collect(
            program,
            mir,
            spec_frame(program, mir, fcx.sig)->Ok_0,
            mir.basic_blocks.len() as nat,
        ) is Ok,
        relooper@ == spec_collect(
            program,
            mir,
            spec_frame(program, mir, fcx.sig)->Ok_0,
            mir.basic_blocks.len() as nat,
        )->Ok_0.blocks,
    ensures
        match r {
            Ok(cfg) => spec_cfg(
                program,
                mir,
                spec_frame(program, mir, fcx.sig)->Ok_0,
                spec_collect(
                    program,
                    mir,
                    spec_frame(program, mir, fcx.sig)->Ok_0,
                    mir.basic_blocks.len() as nat,
                )->Ok_0,
            ) == Ok::<CfgView, ErrorKind>(cfg@),
            Err(e) => spec_cfg(
                program,
                mir,
                spec_frame(program, mir, fcx.sig)->Ok_0,
                spec_collect(
                    program,
                    mir,
                    spec_frame(program, mir, fcx.sig)->Ok_0,
                    mir.basic_blocks.len() as nat,
                )->Ok_0,
            ) == Err::<CfgView, ErrorKind>(e),
        },
{
    let ghost frame = spec_frame(program, mir, fcx.sig)->Ok_0;
    let mut relooper = relooper;
    let n = mir.basic_blocks.len();
    proof {
        lemma_collect_blocks(program, mir, frame, n as nat);
    }
    // Create the edges from the terminators
    let edges = fcx.pending_edges(program, mir, n)?;
    submit(&mut relooper, mir, edges);
    if has_assert(mir) {
        relooper.add_block_raw(trap());
    }
    // Create the function prologue
    let copy_sp = set_local(info.sp_local, fcx.emit_read_sp());
    let prologue = relooper.add_block_raw(copy_sp);
    if n > 0 {
        relooper.block_mut(prologue).add_goto(0);
    }
    proof {
        let linked = with_edges(
            spec_collect(program, mir, frame, n as nat)->Ok_0.blocks,
            views(edges@),
            edges@.len(),
        );
        let with_trap = if spec_has_assert(mir) {
            linked.push(spec_trap_block())
        } else {
            linked
        };
        assert(relooper@[prologue as int].branches =~= spec_prologue(
            info.sp_local,
            n as nat,
        ).branches);
        assert(relooper@ =~= with_trap.push(spec_prologue(info.sp_local, n as nat)));
    }
    Ok(relooper.render_with(prologue, info.relooper_local))
}

/// What the lowering of functions keeps is kept by a step that leaves the
/// caches and the functions of the module as they are and takes no type
/// descriptor away.
pub proof fn lemma_inv_kept(program: &Program, a: &BinaryenModuleCtxt, b: &BinaryenModuleCtxt)
    requires
        a.inv(program),
        b.entry_fn == a.entry_fn,
        b.fun_names@ == a.fun_names@,
        b.met@ == a.met@,
        b.fun_types@ == a.fun_types@,
        b.translated@ == a.translated@,
        b.module@.functions == a.module@.functions,
        is_prefix(a.module@.function_types, b.module@.function_types),
    ensures
        b.inv(program),
{
    assert forall|j: int| 0 <= j < b.translated@.len() implies match #[trigger] b.translated@[j] {
        Some((did, sig)) => has_key(b.met@, (did, sig)) && function_is(
            program,
            b.entry_fn,
            b.module@,
            j,
            did,
            sig,
        ),
        None => true,
    } by {
        match a.translated@[j] {
            Some((did, sig)) => {
                assert(function_is(program, a.entry_fn, a.module@, j, did, sig));
            },
            None => {},
        }
    }
    assert forall|sig: SigId| #[trigger] b.fun_types@.contains_key(sig) implies {
        &&& sig < program.sigs.len()
        &&& b.fun_types@[sig] < b.module@.function_types.len()
        &&& describes(program, b.module@.function_types[b.fun_types@[sig] as int], sig)
    } by {
        assert(a.fun_types@.contains_key(sig));
        assert(describes(program, a.module@.function_types[a.fun_types@[sig] as int], sig));
    }
}

/// What the lowering of functions keeps is kept when the function of a
/// key is added, if the key has an entry and no function yet.
pub proof fn lemma_inv_added(
    program: &Program,
    a: &BinaryenModuleCtxt,
    b: &BinaryenModuleCtxt,
    key: Option<Key>,
)
    requires
        a.inv(program),
        b.entry_fn == a.entry_fn,
        b.fun_names@ == a.fun_names@,
        b.met@ == a.met@,
        b.fun_types@ == a.fun_types@,
        b.translated@ == a.translated@.push(key),
        b.module@.functions.len() == a.module@.functions.len() + 1,
        is_prefix(a.module@.functions, b.module@.functions),
        is_prefix(a.module@.function_types, b.module@.function_types),
        match key {
            Some((did, sig)) => {
                &&& has_key(a.met@, (did, sig))
                &&& !key_translated(a.translated@, (did, sig))
                &&& function_is(
                    program,
                    b.entry_fn,
                    b.module@,
                    a.module@.functions.len() as int,
                    did,
                    sig,
                )
            },
            None => true,
        },
    ensures
        b.inv(program),
{
    assert forall|j: int| 0 <= j < b.translated@.len() implies match #[trigger] b.translated@[j] {
        Some((did, sig)) => has_key(b.met@, (did, sig)) && function_is(
            program,
            b.entry_fn,
            b.module@,
            j,
            did,
            sig,
        ),
        None => true,
    } by {
        if j < a.translated@.len() {
            assert(b.translated@[j] == a.translated@[j]);
            match a.translated@[j] {
                Some((did, sig)) => {
                    assert(function_is(program, a.entry_fn, a.module@, j, did, sig));
                    assert(b.module@.functions[j] == a.module@.functions[j]);
                },
                None => {},
            }
        }
    }
    assert forall|j: int, k: int|
        0 <= j < k < b.translated@.len() && (#[trigger] b.translated@[j]) is Some implies b.translated@[j]
        != #[trigger] b.translated@[k] by {
        assert(b.translated@[j] == a.translated@[j]);
        if k < a.translated@.len() {
            assert(b.translated@[k] == a.translated@[k]);
        }
    }
    assert forall|sig: SigId| #[trigger] b.fun_types@.contains_key(sig) implies {
        &&& sig < program.sigs.len()
        &&& b.fun_types@[sig] < b.module@.function_types.len()
        &&& describes(program, b.module@.function_types[b.fun_types@[sig] as int], sig)
    } by {
        assert(a.fun_types@.contains_key(sig));
        assert(describes(program, a.module@.function_types[a.fun_types@[sig] as int], sig));
    }
}

impl BinaryenModuleCtxt {
    /// The position in the module's type table of the descriptor of the
    /// signature `sig`, which is registered first if it has no entry: its
    /// parameter types are those of the parameter slots of `func`.
    pub(crate) fn sig_type(
        &mut self,
        program: &Program,
        func: &crate::binaryen::builder::Fn,
        did: DefId,
        sig: SigId,
        ret: crate::binaryen::builder::Type,
    ) -> (r: usize)
        requires
            old(self).inv(program),
            did < program.defs.len(),
            sig < program.sigs.len(),
            func.wf(),
            describes(
                program,
                FunctionTypeView {
                    name: Seq::empty(),
                    params: func.var_tys().subrange(0, func.arg_count() as int),
                    result: ret,
                },
                sig,
            ),
        ensures
            final(self).inv(program),
            final(self).extends(old(self)),
            final(self).fun_names@ == old(self).fun_names@,
            final(self).met@ == old(self).met@,
            final(self).translated@ == old(self).translated@,
            final(self).module@.functions == old(self).module@.functions,
            final(self).module@.exports == old(self).module@.exports,
            final(self).module@.imports == old(self).module@.imports,
            r < final(self).module@.function_types.len(),
            describes(program, final(self).module@.function_types[r as int], sig),
            (final(self)@, r) == spec_sig_type(
                program,
                old(self)@,
                did,
                sig,
                func.var_tys().subrange(0, func.arg_count() as int),
                ret,
            ),
    {
        let found = match self.fun_types.get(&sig) {
            Some(ty) => Some(*ty),
            None => None,
        };
        match found {
            Some(ty) => ty,
            None => {
                let name = sig_type_name(program.defs[did].krate, program.defs[did].index);
                let ty = func.create_sig_type(&mut self.module, name.as_str(), ret);
                let ghost mid = *self;
                self.fun_types.insert(sig, ty);
                proof {
                    lemma_inv_kept(program, old(self), &mid);
                    assert forall|s: SigId| #[trigger] self.fun_types@.contains_key(s) implies {
                        &&& s < program.sigs.len()
                        &&& self.fun_types@[s] < self.module@.function_types.len()
                        &&& describes(
                            program,
                            self.module@.function_types[self.fun_types@[s] as int],
                            s,
                        )
                    } by {
                        if s != sig {
                            assert(mid.fun_types@.contains_key(s));
                        }
                    }
                }
                ty
            },
        }
    }

    /// Adds to the module the function that the key `(did, sig)` is
    /// lowered to, and exports it under its own name unless it stands for a
    /// panic.
    pub(crate) fn add_lowered(
        &mut self,
        program: &Program,
        did: DefId,
        sig: SigId,
        ty: usize,
        var_types: Vec<ReprType>,
        body: Body,
    )
        requires
            old(self).inv(program),
            did < program.defs.len(),
            has_key(old(self).met@, (did, sig)),
            !key_translated(old(self).translated@, (did, sig)),
            spec_function(program, old(self).entry_fn, did, sig) is Ok,
            ty < old(self).module@.function_types.len(),
            old(self).module@.function_types[ty as int].params == spec_function(
                program,
                old(self).entry_fn,
                did,
                sig,
            )->Ok_0.params,
            old(self).module@.function_types[ty as int].result == spec_function(
                program,
                old(self).entry_fn,
                did,
                sig,
            )->Ok_0.result,
            var_types@ == spec_function(program, old(self).entry_fn, did, sig)->Ok_0.var_types,
            body@ == spec_function(program, old(self).entry_fn, did, sig)->Ok_0.body,
        ensures
            final(self).inv(program),
            final(self).extends(old(self)),
            final(self).fun_names@ == old(self).fun_names@,
            final(self).met@ == old(self).met@,
            final(self).fun_types@ == old(self).fun_types@,
            final(self).translated@ == old(self).translated@.push(Some((did, sig))),
            final(self).module@ == (ModuleView {
                functions: old(self).module@.functions.push(
                    FunctionView {
                        name: spec_symbol(program, did),
                        ty,
                        var_types: var_types@,
                        body: body@,
                    },
                ),
                exports: if program.panic_fn == Some(did) {
                    old(self).module@.exports
                } else {
                    old(self).module@.exports.push(
                        ExportView {
                            internal: spec_symbol(program, did),
                            external: spec_symbol(program, did),
                        },
                    )
                },
                ..old(self).module@
            }),
    {
        let fn_name = symbol(program, did);
        let panics = match program.panic_fn {
            Some(p) => p == did,
            None => false,
        };
        if panics {
            self.module.add_function(fn_name, ty, var_types, body);
        } else {
            let name = fn_name.clone();
            let export = fn_name.clone();
            self.module.add_function(fn_name, ty, var_types, body);
            self.module.add_export(name, export);
        }
        self.translated = Ghost(self.translated@.push(Some((did, sig))));
        proof {
            lemma_inv_added(program, old(self), self, Some((did, sig)));
        }
    }

    /// Adds the start routine for the entry point `did` and makes it the
    /// function the module starts with.
    pub(crate) fn add_start(&mut self, program: &Program, did: DefId, is_start: bool)
        requires
            old(self).inv(program),
            did < program.defs.len(),
        ensures
            final(self).inv(program),
            final(self).extends(old(self)),
            final(self).fun_names@ == old(self).fun_names@,
            final(self).met@ == old(self).met@,
            final(self).fun_types@ == old(self).fun_types@,
            final(self).translated@ == old(self).translated@.push(None),
            final(self).module@ == (ModuleView {
                start: Some(old(self).module@.functions.len() as usize),
                ..spec_with_start(old(self).module@, spec_symbol(program, did), is_start)
            }),
    {
        let name = symbol(program, did);
        let wasm_start = generate_runtime_start(&mut self.module, name.as_str(), is_start);
        self.module.set_start(wasm_start);
        self.translated = Ghost(self.translated@.push(None));
        proof {
            lemma_inv_added(program, old(self), self, None);
        }
    }

    /// Adds to the module the function whose blocks `relooper` holds: its
    /// blocks are linked and closed, the type of its signature is
    /// registered unless it is, and the function is added and exported. The
    /// function that stands for a panic gets a body that traps instead and
    /// is not exported. For the entry point of the program the start
    /// routine is added after it.
    pub(crate) fn emit_function(
        &mut self,
        program: &Program,
        fcx: BinaryenFnCtxt,
        mir: &Mir,
        info: FrameInfo,
        relooper: Relooper,
    ) -> (r: Result<(), ErrorKind>)
        requires
            old(self).inv(program),
            fcx.did < program.defs.len(),
            fcx.sig < program.sigs.len(),
            program.defs[fcx.did as int].link is None,
            program.defs[fcx.did as int].mir == Some(*mir),
            spec_frame(program, mir, fcx.sig) is Ok,
            fcx@ == spec_frame(program, mir, fcx.sig)->Ok_0.slots,
            info == spec_frame(program, mir, fcx.sig)->Ok_0.info(),
            fcx.func.wf(),
            fcx.func.arg_count() == fcx.num_args,
            fcx.num_args == program.sigs[fcx.sig as int].inputs.len(),
            fcx.num_args <= spec_frame(program, mir, fcx.sig)->Ok_0.tys.len(),
            spec_frame(program, mir, fcx.sig)->Ok_0.tys.subrange(0, fcx.num_args as int)
                == spec_args(
                program,
                program.sigs[fcx.sig as int].inputs@,
                program.sigs[fcx.sig as int].inputs.len() as nat,
            )->Ok_0,
            spec_collect(
                program,
                mir,
                spec_frame(program, mir, fcx.sig)->Ok_0,
                mir.basic_blocks.len() as nat,
            ) is Ok,
            relooper@ == spec_collect(
                program,
                mir,
                spec_frame(program, mir, fcx.sig)->Ok_0,
                mir.basic_blocks.len() as nat,
            )->Ok_0.blocks,
            fcx.func.var_tys() == spec_frame(program, mir, fcx.sig)->Ok_0.tys + Seq::new(
                spec_collect(
                    program,
                    mir,
                    spec_frame(program, mir, fcx.sig)->Ok_0,
                    mir.basic_blocks.len() as nat,
                )->Ok_0.created,
                |k: int| ReprType::Int32,
            ),
            has_key(old(self).met@, (fcx.did, fcx.sig)),
            !key_translated(old(self).translated@, (fcx.did, fcx.sig)),
        ensures
            final(self).inv(program),
            final(self).extends(old(self)),
            final(self).fun_names@ == old(self).fun_names@,
            final(self).met@ == old(self).met@,
            forall|j: int|
                old(self).translated@.len() <= j < final(self).translated@.len() ==> (
                #[trigger] final(self).translated@[j] == Some((fcx.did, fcx.sig))
                    || final(self).translated@[j] is None),
            match r {
                Ok(()) => {
                    &&& key_translated(final(self).translated@, (fcx.did, fcx.sig))
                    &&& spec_emit(program, old(self).entry_fn, old(self)@, fcx.did, fcx.sig)
                        == Ok::<Lowering, ErrorKind>(final(self)@)
                },
                Err(e) => {
                    &&& spec_function(program, old(self).entry_fn, fcx.did, fcx.sig) == Err::<
                        FunctionSpec,
                        ErrorKind,
                    >(e)
                    &&& spec_emit(program, old(self).entry_fn, old(self)@, fcx.did, fcx.sig)
                        == Err::<Lowering, ErrorKind>(e)
                },
            },
    {
        let did = fcx.did;
        let sig = fcx.sig;
        let ghost frame = spec_frame(program, mir, sig)->Ok_0;
        let cfg = assemble(program, &fcx, mir, info, relooper)?;
        let is_start = fcx.num_args == 2;
        if self.entry_fn == Some(did) && !is_start {
            match info.ret_kind {
                TyKind::Nil => {},
                _ => {
                    return Err(ErrorKind::UnsupportedType);
                },
            }
        }
        let ghost spec = spec_function(program, self.entry_fn, did, sig)->Ok_0;
        assert(spec_function(program, self.entry_fn, did, sig) is Ok);
        proof {
            assert(fcx.func.var_tys().subrange(0, fcx.num_args as int) =~= frame.tys.subrange(
                0,
                fcx.num_args as int,
            ));
        }
        let ty = self.sig_type(program, &fcx.func, did, sig, info.ret);
        let var_types = fcx.func.binaryen_var_types();
        proof {
            assert(fcx.func.vars().len() == fcx.func.var_tys().len());
            assert(var_types@ =~= spec.var_types);
        }
        let panics = match program.panic_fn {
            Some(p) => p == did,
            None => false,
        };
        let ghost typed = *self;
        if panics {
            // the function that stands for a panic traps
            self.add_lowered(program, did, sig, ty, var_types, Body::Expr(trap()));
        } else {
            self.add_lowered(program, did, sig, ty, var_types, Body::Cfg(cfg));
        }
        let ghost added = *self;
        assert(self.translated@[typed.translated@.len() as int] == Some((did, sig)));
        if self.entry_fn == Some(did) {
            self.add_start(program, did, is_start);
            assert(self.translated@[typed.translated@.len() as int] == added.translated@[typed.translated@.len() as int]);
        }
        Ok(())
    }
}

} // verus!
