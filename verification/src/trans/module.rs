//! The lowering of the functions of a program into one module: functions
//! are lowered depth first, each before the call that reaches it is
//! emitted, and each key of definition and signature at most once.

use std::collections::HashMap;
use vstd::prelude::*;
use super::block::{spec_block, LoweredBlock};
use super::cache::{
    has_key, is_prefix, key_code, key_code_of, key_codes, keys_in_range, lemma_code_has_key,
    lemma_has_key_mono, lemma_has_key_push, lemma_missing_keys_insert, lemma_missing_keys_mono,
    missing_keys, Key,
};
use super::calls::{
    arg_types, callee_info, fn_ref, spec_callee, spec_fn_ref, spec_symbol, BinaryenCallKind,
    CalleeInfo, CalleeView,
};
use super::context::BinaryenFnCtxt;
use super::frame::{spec_args, spec_frame, spec_ret, FrameInfo};
use super::function::{
    genuine, lemma_collect_fails, spec_collect, spec_collected_block, spec_function, Collected,
};
use super::lowering::{
    lemma_blocks_state_fails, spec_block_state, spec_blocks_state, spec_callee_state, spec_ensure,
    spec_body, spec_failure, spec_import, spec_mark, spec_trans, Lowering,
};
use super::names::{block_name, sanitize_symbol};
use super::types::spec_type_kind;
use crate::binaryen::builder::{FunctionTypeView, ImportView, Module, ModuleView, ReprType};
use crate::binaryen::ir::{block, call, views, Expr, ExprView};
use crate::binaryen::relooper::Relooper;
use crate::error::{ErrorKind, TransError};
use crate::mir::{DefId, FnRef, Mir, Operand, Program, SigId, TerminatorKind};

verus! {

/// The state of the lowering of a program.
///
/// `fun_names` has an entry for each key met so far, under the number of
/// the key; a key gets its entry before the body of its function is
/// lowered. `met` records the keys in the order in which they were met.
/// `fun_types` gives, for each signature whose type descriptor is in the
/// module, the position of the descriptor. `translated` records, for each
/// function of the module, the key it was lowered from, or `None` for the
/// start routine.
pub struct BinaryenModuleCtxt {
    pub module: Module,
    pub entry_fn: Option<DefId>,
    pub fun_types: HashMap<SigId, usize>,
    pub fun_names: HashMap<u128, String>,
    pub met: Ghost<Seq<Key>>,
    pub translated: Ghost<Seq<Option<Key>>>,
}

impl View for BinaryenModuleCtxt {
    type V = Lowering;

    open spec fn view(&self) -> Lowering {
        Lowering { names: self.met@, types: self.fun_types@, module: self.module@ }
    }
}

/// Whether the type descriptor `ft` is the one of the signature `sig`: the
/// types of the parameter slots and the type of the value returned.
pub open spec fn describes(program: &Program, ft: FunctionTypeView, sig: SigId) -> bool {
    &&& spec_args(
        program,
        program.sigs[sig as int].inputs@,
        program.sigs[sig as int].inputs.len() as nat,
    ) == Ok::<Seq<ReprType>, ErrorKind>(ft.params)
    &&& spec_type_kind(program, program.sigs[sig as int].output) is Ok
    &&& ft.result == spec_ret(spec_type_kind(program, program.sigs[sig as int].output)->Ok_0)
}

/// Whether the function at position `j` of the module `m` is the one that
/// the key `(did, sig)` is lowered to.
pub open spec fn function_is(
    program: &Program,
    entry_fn: Option<DefId>,
    m: ModuleView,
    j: int,
    did: DefId,
    sig: SigId,
) -> bool {
    let spec = spec_function(program, entry_fn, did, sig);
    let f = m.functions[j];
    &&& spec is Ok
    &&& f.name == spec->Ok_0.name
    &&& f.var_types == spec->Ok_0.var_types
    &&& f.body == spec->Ok_0.body
    &&& f.ty < m.function_types.len()
    &&& m.function_types[f.ty as int].params == spec->Ok_0.params
    &&& m.function_types[f.ty as int].result == spec->Ok_0.result
}

/// Whether every signature with a position in `a` has the same position
/// in `b`.
pub open spec fn types_kept(a: Map<SigId, usize>, b: Map<SigId, usize>) -> bool {
    forall|sig: SigId| #[trigger] a.contains_key(sig) ==> b.contains_key(sig) && b[sig] == a[sig]
}

/// Whether the key `key` has a function in the module.
pub open spec fn key_translated(translated: Seq<Option<Key>>, key: Key) -> bool {
    exists|j: int| 0 <= j < translated.len() && #[trigger] translated[j] == Some(key)
}

impl BinaryenModuleCtxt {
    /// Every key with an entry is a key of the program, and its entry holds
    /// the name its definition is called under.
    pub open spec fn names_wf(&self, program: &Program) -> bool {
        &&& keys_in_range(program, self.met@)
        &&& forall|c: u128| #[trigger]
            self.fun_names@.contains_key(c) <==> key_codes(program, self.met@).contains(c as int)
        &&& forall|i: int|
            0 <= i < self.met@.len() ==> {
                let c = key_code(program, #[trigger] self.met@[i]) as u128;
                &&& self.fun_names@.contains_key(c)
                &&& self.fun_names@[c]@ == spec_symbol(program, self.met@[i].0)
            }
    }

    /// Every signature with an entry is one of the program, and its entry
    /// leads to its type descriptor in the module.
    pub open spec fn types_wf(&self, program: &Program) -> bool {
        forall|sig: SigId| #[trigger]
            self.fun_types@.contains_key(sig) ==> {
                &&& sig < program.sigs.len()
                &&& self.fun_types@[sig] < self.module@.function_types.len()
                &&& describes(
                    program,
                    self.module@.function_types[self.fun_types@[sig] as int],
                    sig,
                )
            }
    }

    /// Every function of the module that was lowered from a key is the
    /// function that key is lowered to; the key has an entry; and no two
    /// functions were lowered from the same key.
    pub open spec fn functions_wf(&self, program: &Program) -> bool {
        &&& self.translated@.len() == self.module@.functions.len()
        &&& forall|j: int|
            0 <= j < self.translated@.len() ==> match #[trigger] self.translated@[j] {
                Some((did, sig)) => has_key(self.met@, (did, sig)) && function_is(
                    program,
                    self.entry_fn,
                    self.module@,
                    j,
                    did,
                    sig,
                ),
                None => true,
            }
        &&& forall|j: int, k: int|
            0 <= j < k < self.translated@.len() && (#[trigger] self.translated@[j]) is Some
                ==> self.translated@[j] != #[trigger] self.translated@[k]
    }

    /// What holds of the state between any two steps of the lowering.
    pub open spec fn inv(&self, program: &Program) -> bool {
        &&& self.names_wf(program)
        &&& self.types_wf(program)
        &&& self.functions_wf(program)
    }

    /// Whether `self` is the state `before` with more in it: nothing that
    /// was emitted or recorded is changed or taken away.
    pub open spec fn extends(&self, before: &BinaryenModuleCtxt) -> bool {
        &&& self.entry_fn == before.entry_fn
        &&& self.module@.auto_drop == before.module@.auto_drop
        &&& is_prefix(before.met@, self.met@)
        &&& types_kept(before.fun_types@, self.fun_types@)
        &&& is_prefix(before.translated@, self.translated@)
        &&& is_prefix(before.module@.functions, self.module@.functions)
        &&& is_prefix(before.module@.function_types, self.module@.function_types)
        &&& is_prefix(before.module@.imports, self.module@.imports)
        &&& is_prefix(before.module@.exports, self.module@.exports)
    }

    /// Whether every function that `self` has and `before` had not was
    /// lowered from a key without an entry in `before`.
    pub open spec fn fresh(&self, before: &BinaryenModuleCtxt) -> bool {
        forall|j: int|
            before.translated@.len() <= j < self.translated@.len() ==> match #[trigger] self.translated@[j] {
                Some((did, sig)) => !has_key(before.met@, (did, sig)),
                None => true,
            }
    }

    /// Whether every function that `self` has and `before` had not was
    /// lowered from `key` or from a key without an entry in `before`.
    pub open spec fn fresh_but(&self, before: &BinaryenModuleCtxt, key: Key) -> bool {
        forall|j: int|
            before.translated@.len() <= j < self.translated@.len() ==> match #[trigger] self.translated@[j] {
                Some((did, sig)) => (did, sig) == key || !has_key(before.met@, (did, sig)),
                None => true,
            }
    }

    /// A state with empty caches around `module`.
    pub fn new(module: Module, entry_fn: Option<DefId>) -> (r: BinaryenModuleCtxt)
        ensures
            r.module == module,
            r.entry_fn == entry_fn,
            r.fun_types@ == Map::<SigId, usize>::empty(),
            r.fun_names@ == Map::<u128, String>::empty(),
            r.met@ == Seq::<Key>::empty(),
            r.translated@ == Seq::new(module@.functions.len(), |j: int| None::<Key>),
            forall|program: &Program| r.inv(program),
    {
        let ghost n = module@.functions.len();
        BinaryenModuleCtxt {
            module: module,
            entry_fn: entry_fn,
            fun_types: HashMap::new(),
            fun_names: HashMap::new(),
            met: Ghost(Seq::empty()),
            translated: Ghost(Seq::new(n, |j: int| None::<Key>)),
        }
    }

    /// Whether the key `(did, sig)` has an entry.
    pub fn has_entry(&self, program: &Program, did: DefId, sig: SigId) -> (r: bool)
        requires
            self.inv(program),
        ensures
            r == has_key(self.met@, (did, sig)),
    {
        if did >= program.defs.len() || sig >= program.sigs.len() {
            return false;
        }
        proof {
            lemma_code_has_key(program, self.met@, (did, sig));
        }
        self.fun_names.contains_key(&key_code_of(program, did, sig))
    }

    /// Gives the key `(did, sig)` its entry.
    fn insert_name(&mut self, program: &Program, did: DefId, sig: SigId, name: String)
        requires
            old(self).inv(program),
            did < program.defs.len(),
            sig < program.sigs.len(),
            name@ == spec_symbol(program, did),
            !has_key(old(self).met@, (did, sig)),
        ensures
            final(self).inv(program),
            final(self).extends(old(self)),
            final(self).met@ == old(self).met@.push((did, sig)),
            final(self)@ == (Lowering { names: old(self)@.names.push((did, sig)), ..old(self)@ }),
            final(self).module == old(self).module,
            final(self).fun_types == old(self).fun_types,
            final(self).translated@ == old(self).translated@,
            missing_keys(program, final(self).met@) < missing_keys(program, old(self).met@),
    {
        let code = key_code_of(program, did, sig);
        proof {
            lemma_missing_keys_insert(program, self.met@, (did, sig));
            lemma_code_has_key(program, self.met@, (did, sig));
            lemma_names_insert(program, self.fun_names@, self.met@, (did, sig), name);
            assert forall|j: int| 0 <= j < self.translated@.len() implies match #[trigger] self.translated@[j] {
                Some((d, s)) => has_key(self.met@.push((did, sig)), (d, s)),
                None => true,
            } by {
                match self.translated@[j] {
                    Some((d, s)) => {
                        lemma_has_key_push(self.met@, (did, sig), (d, s));
                    },
                    None => {},
                }
            }
        }
        self.fun_names.insert(code, name);
        self.met = Ghost(self.met@.push((did, sig)));
        proof {
            let c = key_code(program, (did, sig)) as u128;
            assert(c == code);
            assert(self.fun_names@ == old(self).fun_names@.insert(c, name));
            assert(self.met@ == old(self).met@.push((did, sig)));
        }
    }

    /// Registers the imported function that `info` describes, unless its
    /// key has an entry: the key gets one, the module the type of the
    /// function and the import itself.
    pub fn import_wasm_extern(&mut self, program: &Program, f: FnRef, info: &CalleeInfo)
        requires
            old(self).inv(program),
            spec_callee(program, f) == Ok::<CalleeView, ErrorKind>(info@),
            info.kind == BinaryenCallKind::Import,
        ensures
            final(self).inv(program),
            final(self).extends(old(self)),
            final(self).translated@ == old(self).translated@,
            final(self)@ == spec_import(program, old(self)@, info@),
            has_key(final(self).met@, (info.did, info.sig)),
            missing_keys(program, final(self).met@) <= missing_keys(program, old(self).met@),
            has_key(old(self).met@, (info.did, info.sig)) ==> *final(self) == *old(self),
            !has_key(old(self).met@, (info.did, info.sig)) ==> {
                let link = program.defs[info.did as int].link->0;
                let ty = old(self).module@.function_types.len();
                &&& final(self).module@ == (ModuleView {
                    function_types: old(self).module@.function_types.push(
                        FunctionTypeView {
                            name: link.name@,
                            params: spec_args(
                                program,
                                program.sigs[info.sig as int].inputs@,
                                program.sigs[info.sig as int].inputs.len() as nat,
                            )->Ok_0,
                            result: info.ret_ty,
                        },
                    ),
                    imports: old(self).module@.imports.push(
                        ImportView {
                            name: link.name@,
                            module: link.module@,
                            base: link.base@,
                            ty: ty as usize,
                        },
                    ),
                    ..old(self).module@
                })
            },
    {
        let did = info.did;
        let sig = info.sig;
        proof {
        }
        if self.has_entry(program, did, sig) {
            return;
        }
        let link = match &program.defs[did].link {
            Some(l) => l,
            None => {
                return;
            },
        };
        self.insert_name(program, did, sig, link.name.clone());
        let ghost mid = *self;
        let args = match arg_types(program, &program.sigs[sig].inputs) {
            Ok(a) => a,
            Err(_) => {
                return;
            },
        };
        let ty = self.module.create_function_type(
            link.name.as_str(),
            args.as_slice(),
            info.ret_ty,
        ).type_ref();
        self.module.add_import(link.name.clone(), link.module.clone(), link.base.clone(), ty);
        proof {
            assert(self.met@[self.met@.len() - 1] == (did, sig));
            lemma_missing_keys_mono(program, old(self).met@, self.met@);
            assert(self.functions_wf(program));
        }
    }

    /// Marks the declared signature of the function that `info` describes
    /// as met, where it is called at another one, and lowers the function
    /// at the signature it is called at, unless that key has an entry.
    pub fn trans_fn(&mut self, program: &Program, f: FnRef, info: &CalleeInfo) -> (r: Result<
        (),
        TransError,
    >)
        requires
            old(self).inv(program),
            spec_callee(program, f) == Ok::<CalleeView, ErrorKind>(info@),
            info.kind == BinaryenCallKind::Direct,
        ensures
            final(self).inv(program),
            final(self).extends(old(self)),
            final(self).fresh(old(self)),
            match r {
                Ok(()) => {
                    &&& has_key(final(self).met@, (info.did, info.sig))
                    &&& spec_ensure(program, old(self).entry_fn, old(self)@, info@) == Ok::<
                        Lowering,
                        TransError,
                    >(final(self)@)
                },
                Err(e) => {
                    &&& genuine(program, old(self).entry_fn, e)
                    &&& spec_ensure(program, old(self).entry_fn, old(self)@, info@) == Err::<
                        Lowering,
                        TransError,
                    >(e)
                },
            },
        decreases missing_keys(program, old(self).met@), 1nat,
    {
        let fn_did = info.did;
        let fn_sig = info.sig;
        let sig = program.defs[fn_did].sig;
        proof {
        }
        // mark the declared signature seen, so that it is not lowered
        if sig != fn_sig && !self.has_entry(program, fn_did, sig) {
            let fn_name = sanitize_symbol(program.defs[fn_did].path.as_str());
            self.insert_name(program, fn_did, sig, fn_name);
        }
        let ghost mid = *self;
        proof {
            reveal(spec_trans);
            assert(mid@ == spec_mark(program, old(self)@, info@));
            assert(keys_in_range(program, mid@.names));
        }
        if !self.has_entry(program, fn_did, fn_sig) {
            let r = self.trans(program, fn_did, fn_sig);
            proof {
                lemma_fresh_trans(old(self), &mid, self);
            }
            r
        } else {
            Ok(())
        }
    }

    /// What a call of `f` calls, once that function is part of the module:
    /// an imported function is registered, any other is lowered.
    pub fn trans_fn_def_id(&mut self, program: &Program, caller: Key, f: FnRef) -> (r: Result<
        CalleeInfo,
        TransError,
    >)
        requires
            old(self).inv(program),
        ensures
            final(self).inv(program),
            final(self).extends(old(self)),
            final(self).fresh(old(self)),
            match r {
                Ok(c) => {
                    &&& spec_callee(program, f) == Ok::<CalleeView, ErrorKind>(c@)
                    &&& spec_callee_state(program, old(self).entry_fn, old(self)@, caller, f)
                        == Ok::<Lowering, TransError>(final(self)@)
                },
                Err(e) => {
                    &&& (e.did == caller.0 && e.sig == caller.1 && spec_callee(program, f)
                        == Err::<CalleeView, ErrorKind>(e.kind)) || genuine(
                        program,
                        old(self).entry_fn,
                        e,
                    )
                    &&& spec_callee_state(program, old(self).entry_fn, old(self)@, caller, f)
                        == Err::<Lowering, TransError>(e)
                },
            },
        decreases missing_keys(program, old(self).met@), 2nat,
    {
        let info = match callee_info(program, f) {
            Ok(i) => i,
            Err(kind) => return Err(TransError { kind, did: caller.0, sig: caller.1 }),
        };
        match info.kind {
            BinaryenCallKind::Import => {
                self.import_wasm_extern(program, f, &info);
            },
            BinaryenCallKind::Direct => {
                self.trans_fn(program, f, &info)?;
            },
        }
        Ok(info)
    }

    /// What the call whose callee is `operand` calls; see
    /// [`BinaryenModuleCtxt::trans_fn_def_id`].
    pub fn trans_fn_name_direct(&mut self, program: &Program, caller: Key, operand: &Operand) -> (r:
        Result<CalleeInfo, TransError>)
        requires
            old(self).inv(program),
        ensures
            final(self).inv(program),
            final(self).extends(old(self)),
            final(self).fresh(old(self)),
            match r {
                Ok(c) => spec_fn_ref(operand) is Ok && spec_callee(
                    program,
                    spec_fn_ref(operand)->Ok_0,
                ) == Ok::<CalleeView, ErrorKind>(c@),
                Err(e) => (e.did == caller.0 && e.sig == caller.1 && (spec_fn_ref(operand)
                    == Err::<FnRef, ErrorKind>(e.kind) || (spec_fn_ref(operand) is Ok
                    && spec_callee(program, spec_fn_ref(operand)->Ok_0) == Err::<
                    CalleeView,
                    ErrorKind,
                >(e.kind)))) || genuine(program, old(self).entry_fn, e),
            },
            match spec_fn_ref(operand) {
                Err(kind) => r == Err::<CalleeInfo, TransError>(spec_failure(kind, caller))
                    && *final(self) == *old(self),
                Ok(f) => match r {
                    Ok(_) => spec_callee_state(program, old(self).entry_fn, old(self)@, caller, f)
                        == Ok::<Lowering, TransError>(final(self)@),
                    Err(e) => spec_callee_state(program, old(self).entry_fn, old(self)@, caller, f)
                        == Err::<Lowering, TransError>(e),
                },
            },
        decreases missing_keys(program, old(self).met@), 3nat,
    {
        match fn_ref(operand) {
            Ok(f) => self.trans_fn_def_id(program, caller, f),
            Err(kind) => Err(TransError { kind, did: caller.0, sig: caller.1 }),
        }
    }

    /// Lowers the basic block with index `i` and adds the block built from
    /// it to `relooper`; see [`spec_block`]. The function a call reaches is
    /// lowered before the call is emitted.
    pub(crate) fn trans_block(
        &mut self,
        program: &Program,
        fcx: &mut BinaryenFnCtxt,
        mir: &Mir,
        info: FrameInfo,
        i: usize,
        relooper: &mut Relooper,
    ) -> (r: Result<(), TransError>)
        requires
            old(self).inv(program),
            old(fcx).func.wf(),
            i < mir.basic_blocks.len(),
        ensures
            final(self).inv(program),
            final(self).extends(old(self)),
            final(self).fresh(old(self)),
            final(fcx)@ == old(fcx)@,
            final(fcx).did == old(fcx).did,
            final(fcx).sig == old(fcx).sig,
            final(fcx).func.wf(),
            final(fcx).func.arg_count() == old(fcx).func.arg_count(),
            match r {
                Ok(()) => {
                    let spec = spec_block(
                        program,
                        mir,
                        old(fcx)@,
                        info,
                        old(fcx).func.vars().len(),
                        i as nat,
                    );
                    &&& spec is Ok
                    &&& final(relooper)@ == old(relooper)@.push(spec_collected_block(spec->Ok_0))
                    &&& final(fcx).func.var_tys() == old(fcx).func.var_tys() + Seq::new(
                        spec->Ok_0.created,
                        |k: int| ReprType::Int32,
                    )
                },
                Err(e) => (e.did == old(fcx).did && e.sig == old(fcx).sig && spec_block(
                    program,
                    mir,
                    old(fcx)@,
                    info,
                    old(fcx).func.vars().len(),
                    i as nat,
                ) == Err::<LoweredBlock, ErrorKind>(e.kind)) || genuine(
                    program,
                    old(self).entry_fn,
                    e,
                ),
            },
            match r {
                Ok(()) => spec_block_state(
                    program,
                    old(self).entry_fn,
                    old(self)@,
                    (old(fcx).did, old(fcx).sig),
                    mir,
                    old(fcx)@,
                    info,
                    old(fcx).func.vars().len(),
                    i as nat,
                ) == Ok::<Lowering, TransError>(final(self)@),
                Err(e) => spec_block_state(
                    program,
                    old(self).entry_fn,
                    old(self)@,
                    (old(fcx).did, old(fcx).sig),
                    mir,
                    old(fcx)@,
                    info,
                    old(fcx).func.vars().len(),
                    i as nat,
                ) == Err::<Lowering, TransError>(e),
            },
        decreases missing_keys(program, old(self).met@), 4nat,
    {
        let did = fcx.did;
        let sig = fcx.sig;
        let bb = &mir.basic_blocks[i];
        let ghost tys = fcx.func.var_tys();
        let mut binaryen_stmts = match fcx.trans_statements(program, mir, &bb.statements) {
            Ok(s) => s,
            Err(kind) => return Err(TransError { kind, did, sig }),
        };
        let ghost stmts = views(binaryen_stmts@);
        // Some features of terminators translate to instructions, some
        // translate to edges. These are the instructions.
        let mut cond: Option<Expr> = None;
        match &bb.terminator.kind {
            TerminatorKind::Return => {
                match fcx.trans_return(program, mir, info, &mut binaryen_stmts) {
                    Ok(()) => {},
                    Err(kind) => return Err(TransError { kind, did, sig }),
                }
                proof {
                    assert(fcx.func.var_tys() =~= tys + Seq::new(0, |k: int| ReprType::Int32));
                }
            },
            TerminatorKind::Call { func, args, destination } => {
                let callee = self.trans_fn_name_direct(program, (did, sig), func)?;
                let b_args = match fcx.trans_operands(program, mir, args) {
                    Ok(a) => a,
                    Err(kind) => return Err(TransError { kind, did, sig }),
                };
                match fcx.trans_call(program, mir, callee, b_args, destination, &mut binaryen_stmts) {
                    Ok(()) => {},
                    Err(kind) => return Err(TransError { kind, did, sig }),
                }
            },
            TerminatorKind::SwitchInt { discr, .. } => {
                match fcx.trans_operand(program, mir, discr) {
                    Ok(c) => {
                        cond = Some(c);
                    },
                    Err(kind) => return Err(TransError { kind, did, sig }),
                }
                proof {
                    assert(views(binaryen_stmts@) =~= stmts + Seq::<ExprView>::empty());
                    assert(fcx.func.var_tys() =~= tys + Seq::new(0, |k: int| ReprType::Int32));
                }
            },
            _ => {
                proof {
                    assert(views(binaryen_stmts@) =~= stmts + Seq::<ExprView>::empty());
                    assert(fcx.func.var_tys() =~= tys + Seq::new(0, |k: int| ReprType::Int32));
                }
            },
        }
        let name = block_name(i);
        let binaryen_expr = block(Some(name), binaryen_stmts);
        match cond {
            None => {
                relooper.add_block_raw(binaryen_expr);
            },
            Some(c) => {
                relooper.add_block_raw_with_switch(c, binaryen_expr);
            },
        }
        Ok(())
    }

    /// Lowers the function of the key `(did, sig)`, unless the key has an
    /// entry; see [`spec_trans`].
    ///
    /// The key gets its entry before the body is lowered, so that a
    /// function that is reached again while it is being lowered is not
    /// entered a second time. The functions it calls are lowered first,
    /// each unless its key has an entry; then the function itself is added
    /// to the module.
    pub fn trans(&mut self, program: &Program, did: DefId, sig: SigId) -> (r: Result<
        (),
        TransError,
    >)
        requires
            old(self).inv(program),
        ensures
            final(self).inv(program),
            final(self).extends(old(self)),
            final(self).fresh(old(self)),
            has_key(old(self).met@, (did, sig)) ==> r is Ok && *final(self) == *old(self),
            match r {
                Ok(()) => {
                    &&& has_key(final(self).met@, (did, sig))
                    &&& !has_key(old(self).met@, (did, sig)) ==> key_translated(
                        final(self).translated@,
                        (did, sig),
                    )
                    &&& spec_trans(program, old(self).entry_fn, old(self)@, did, sig) == Ok::<
                        Lowering,
                        TransError,
                    >(final(self)@)
                },
                Err(e) => {
                    &&& genuine(program, old(self).entry_fn, e)
                    &&& spec_trans(program, old(self).entry_fn, old(self)@, did, sig) == Err::<
                        Lowering,
                        TransError,
                    >(e)
                },
            },
        decreases missing_keys(program, old(self).met@), 0nat,
    {
        proof {
            reveal(spec_trans);
            assert(keys_in_range(program, self@.names));
        }
        // Maintain a cache of translated monomorphizations and bail
        // if we've already seen this one.
        if self.has_entry(program, did, sig) {
            return Ok(());
        }
        if did >= program.defs.len() || sig >= program.sigs.len() {
            return Err(TransError { kind: ErrorKind::UnsupportedCallee, did, sig });
        }
        if program.defs[did].link.is_some() {
            return Err(TransError { kind: ErrorKind::UnsupportedCallee, did, sig });
        }
        let mir = match &program.defs[did].mir {
            Some(m) => m,
            None => return Err(TransError { kind: ErrorKind::UnsupportedCallee, did, sig }),
        };
        let fn_name = sanitize_symbol(program.defs[did].path.as_str());
        self.insert_name(program, did, sig, fn_name);
        let ghost entered = *self;
        proof {
            assert(self.met@[self.met@.len() - 1] == (did, sig));
            assert(has_key(self.met@, (did, sig)));
            assert forall|j: int| 0 <= j < self.translated@.len() implies self.translated@[j]
                != Some((did, sig)) by {
                if self.translated@[j] == Some((did, sig)) {
                    assert(has_key(old(self).met@, (did, sig)));
                }
            }
        }
        let r = self.trans_body(program, did, sig, mir);
        proof {
            assert forall|j: int|
                old(self).translated@.len() <= j < self.translated@.len() implies match #[trigger] self.translated@[j] {
                Some((d, s)) => !has_key(old(self).met@, (d, s)),
                None => true,
            } by {
                match self.translated@[j] {
                    Some((d, s)) => {
                        if has_key(old(self).met@, (d, s)) {
                            lemma_has_key_mono(old(self).met@, entered.met@, (d, s));
                        }
                    },
                    None => {},
                }
            }
        }
        r
    }

    /// Lowers the body of the function of the key `(did, sig)`, which has
    /// its entry, and adds the function to the module; see [`spec_body`].
    pub(crate) fn trans_body(&mut self, program: &Program, did: DefId, sig: SigId, mir: &Mir) -> (r:
        Result<(), TransError>)
        requires
            old(self).inv(program),
            did < program.defs.len(),
            sig < program.sigs.len(),
            program.defs[did as int].link is None,
            program.defs[did as int].mir == Some(*mir),
            has_key(old(self).met@, (did, sig)),
            !key_translated(old(self).translated@, (did, sig)),
        ensures
            final(self).inv(program),
            final(self).extends(old(self)),
            final(self).fresh_but(old(self), (did, sig)),
            match r {
                Ok(()) => {
                    &&& key_translated(final(self).translated@, (did, sig))
                    &&& spec_body(program, old(self).entry_fn, old(self)@, did, sig) == Ok::<
                        Lowering,
                        TransError,
                    >(final(self)@)
                },
                Err(e) => {
                    &&& genuine(program, old(self).entry_fn, e)
                    &&& spec_body(program, old(self).entry_fn, old(self)@, did, sig) == Err::<
                        Lowering,
                        TransError,
                    >(e)
                },
            },
        decreases missing_keys(program, old(self).met@), 6nat,
    {
        let (mut fcx, info) = match BinaryenFnCtxt::new(program, &mut self.module, mir, did, sig) {
            Ok(x) => x,
            Err(kind) => return Err(TransError { kind, did, sig }),
        };
        // First the basic blocks are lowered, without their edges; then the
        // terminators give the edges.
        let r = self.collect_blocks(program, &mut fcx, mir, info);
        let ghost collected = *self;
        proof {
            assert forall|j: int| 0 <= j < self.translated@.len() implies self.translated@[j]
                != Some((did, sig)) by {
                if j < old(self).translated@.len() {
                    assert(self.translated@[j] == old(self).translated@[j]);
                }
            }
            lemma_has_key_mono(old(self).met@, self.met@, (did, sig));
        }
        let relooper = match r {
            Ok(relooper) => relooper,
            Err(e) => {
                return Err(e);
            },
        };
        let r = self.emit_function(program, fcx, mir, info, relooper);
        proof {
            lemma_extends_trans(old(self), &collected, self);
            assert forall|j: int|
                old(self).translated@.len() <= j < self.translated@.len() implies match #[trigger] self.translated@[j] {
                Some((d, s)) => (d, s) == (did, sig) || !has_key(old(self).met@, (d, s)),
                None => true,
            } by {
                if j < collected.translated@.len() {
                    assert(self.translated@[j] == collected.translated@[j]);
                }
            }
        }
        match r {
            Ok(()) => Ok(()),
            Err(kind) => Err(TransError { kind, did, sig }),
        }
    }

    /// Lowers the basic blocks of a function, in order, and hands out the
    /// blocks built from them; see [`spec_collect`].
    pub(crate) fn collect_blocks(
        &mut self,
        program: &Program,
        fcx: &mut BinaryenFnCtxt,
        mir: &Mir,
        info: FrameInfo,
    ) -> (r: Result<Relooper, TransError>)
        requires
            old(self).inv(program),
            old(fcx).func.wf(),
            spec_frame(program, mir, old(fcx).sig) is Ok,
            old(fcx)@ == spec_frame(program, mir, old(fcx).sig)->Ok_0.slots,
            info == spec_frame(program, mir, old(fcx).sig)->Ok_0.info(),
            old(fcx).func.var_tys() == spec_frame(program, mir, old(fcx).sig)->Ok_0.tys,
        ensures
            final(self).inv(program),
            final(self).extends(old(self)),
            final(self).fresh(old(self)),
            final(fcx)@ == old(fcx)@,
            final(fcx).did == old(fcx).did,
            final(fcx).sig == old(fcx).sig,
            final(fcx).func.wf(),
            final(fcx).func.arg_count() == old(fcx).func.arg_count(),
            match r {
                Ok(relooper) => {
                    let frame = spec_frame(program, mir, old(fcx).sig)->Ok_0;
                    let c = spec_collect(program, mir, frame, mir.basic_blocks.len() as nat);
                    &&& c is Ok
                    &&& relooper@ == c->Ok_0.blocks
                    &&& final(fcx).func.var_tys() == frame.tys + Seq::new(
                        c->Ok_0.created,
                        |k: int| ReprType::Int32,
                    )
                },
                Err(e) => (e.did == old(fcx).did && e.sig == old(fcx).sig && spec_collect(
                    program,
                    mir,
                    spec_frame(program, mir, old(fcx).sig)->Ok_0,
                    mir.basic_blocks.len() as nat,
                ) == Err::<Collected, ErrorKind>(e.kind)) || genuine(
                    program,
                    old(self).entry_fn,
                    e,
                ),
            },
            match r {
                Ok(_) => spec_blocks_state(
                    program,
                    old(self).entry_fn,
                    old(self)@,
                    (old(fcx).did, old(fcx).sig),
                    mir,
                    spec_frame(program, mir, old(fcx).sig)->Ok_0,
                    mir.basic_blocks.len() as nat,
                ) == Ok::<Lowering, TransError>(final(self)@),
                Err(e) => spec_blocks_state(
                    program,
                    old(self).entry_fn,
                    old(self)@,
                    (old(fcx).did, old(fcx).sig),
                    mir,
                    spec_frame(program, mir, old(fcx).sig)->Ok_0,
                    mir.basic_blocks.len() as nat,
                ) == Err::<Lowering, TransError>(e),
            },
        decreases missing_keys(program, old(self).met@), 5nat,
    {
        let ghost frame = spec_frame(program, mir, fcx.sig)->Ok_0;
        let mut relooper = Relooper::new();
        let mut i: usize = 0;
        proof {
            assert(fcx.func.var_tys() =~= frame.tys + Seq::new(0, |k: int| ReprType::Int32));
        }
        while i < mir.basic_blocks.len()
            invariant
                i <= mir.basic_blocks.len(),
                self.inv(program),
                self.extends(old(self)),
                self.fresh(old(self)),
                missing_keys(program, self.met@) <= missing_keys(program, old(self).met@),
                spec_blocks_state(
                    program,
                    old(self).entry_fn,
                    old(self)@,
                    (old(fcx).did, old(fcx).sig),
                    mir,
                    frame,
                    i as nat,
                ) == Ok::<Lowering, TransError>(self@),
                frame == spec_frame(program, mir, old(fcx).sig)->Ok_0,
                fcx@ == frame.slots,
                fcx@ == old(fcx)@,
                fcx.did == old(fcx).did,
                fcx.sig == old(fcx).sig,
                info == frame.info(),
                fcx.func.wf(),
                fcx.func.arg_count() == old(fcx).func.arg_count(),
                spec_collect(program, mir, frame, i as nat) is Ok,
                relooper@ == spec_collect(program, mir, frame, i as nat)->Ok_0.blocks,
                fcx.func.var_tys() == frame.tys + Seq::new(
                    spec_collect(program, mir, frame, i as nat)->Ok_0.created,
                    |k: int| ReprType::Int32,
                ),
            ensures
                i == mir.basic_blocks.len(),
            decreases mir.basic_blocks.len() - i,
        {
            let ghost before = *self;
            let ghost c = spec_collect(program, mir, frame, i as nat)->Ok_0;
            let ghost tys = fcx.func.var_tys();
            let r = self.trans_block(program, fcx, mir, info, i, &mut relooper);
            proof {
                lemma_missing_keys_mono(program, before.met@, self.met@);
                lemma_fresh_trans(old(self), &before, self);
            }
            match r {
                Ok(()) => {
                    proof {
                        let b = spec_block(
                            program,
                            mir,
                            frame.slots,
                            info,
                            tys.len(),
                            i as nat,
                        )->Ok_0;
                        assert(fcx.func.var_tys() =~= frame.tys + Seq::new(
                            c.created + b.created,
                            |k: int| ReprType::Int32,
                        ));
                    }
                },
                Err(e) => {
                    proof {
                        if !genuine(program, before.entry_fn, e) {
                            assert(spec_collect(program, mir, frame, (i + 1) as nat) is Err);
                            lemma_collect_fails(
                                program,
                                mir,
                                frame,
                                (i + 1) as nat,
                                mir.basic_blocks.len() as nat,
                            );
                        }
                        lemma_blocks_state_fails(
                            program,
                            old(self).entry_fn,
                            old(self)@,
                            (old(fcx).did, old(fcx).sig),
                            mir,
                            frame,
                            (i + 1) as nat,
                            mir.basic_blocks.len() as nat,
                        );
                    }
                    return Err(e);
                },
            }
            i += 1;
        }
        Ok(relooper)
    }
}

/// The cache of names keeps to the keys met when a key that was not met
/// gets its entry: the entries are those of the keys met, each with the
/// name of its definition.
pub proof fn lemma_names_insert(
    program: &Program,
    names: Map<u128, String>,
    met: Seq<Key>,
    key: Key,
    name: String,
)
    requires
        keys_in_range(program, met),
        key.0 < program.defs.len(),
        key.1 < program.sigs.len(),
        !has_key(met, key),
        name@ == spec_symbol(program, key.0),
        forall|c: u128| #[trigger] names.contains_key(c) <==> key_codes(program, met).contains(
            c as int,
        ),
        forall|i: int|
            0 <= i < met.len() ==> {
                let c = key_code(program, #[trigger] met[i]) as u128;
                &&& names.contains_key(c)
                &&& names[c]@ == spec_symbol(program, met[i].0)
            },
    ensures
        ({
            let code = key_code(program, key) as u128;
            let after = names.insert(code, name);
            let all = met.push(key);
            &&& keys_in_range(program, all)
            &&& is_prefix(met, all)
            &&& forall|c: u128| #[trigger]
                after.contains_key(c) <==> key_codes(program, all).contains(c as int)
            &&& forall|i: int|
                0 <= i < all.len() ==> {
                    let c = key_code(program, #[trigger] all[i]) as u128;
                    &&& after.contains_key(c)
                    &&& after[c]@ == spec_symbol(program, all[i].0)
                }
        }),
{
    let code = key_code(program, key) as u128;
    let after = names.insert(code, name);
    let all = met.push(key);
    lemma_code_has_key(program, met, key);
    assert forall|i: int| 0 <= i < all.len() implies (#[trigger] all[i]).0 < program.defs.len()
        && all[i].1 < program.sigs.len() by {
        if i < met.len() {
            assert(all[i] == met[i]);
        }
    }
    assert forall|c: u128| #[trigger]
        after.contains_key(c) <==> key_codes(program, all).contains(c as int) by {
        if key_codes(program, met).contains(c as int) {
            let i = choose|i: int|
                0 <= i < met.len() && key_code(program, #[trigger] met[i]) == c as int;
            assert(all[i] == met[i]);
            assert(key_codes(program, all).contains(c as int));
        }
        if c == code {
            assert(all[met.len() as int] == key);
            assert(key_codes(program, all).contains(c as int));
        }
        if key_codes(program, all).contains(c as int) {
            let i = choose|i: int|
                0 <= i < all.len() && key_code(program, #[trigger] all[i]) == c as int;
            if i < met.len() {
                assert(all[i] == met[i]);
                assert(key_codes(program, met).contains(c as int));
            }
        }
    }
    assert forall|i: int| 0 <= i < all.len() implies {
        let c = key_code(program, #[trigger] all[i]) as u128;
        &&& after.contains_key(c)
        &&& after[c]@ == spec_symbol(program, all[i].0)
    } by {
        if i < met.len() {
            assert(all[i] == met[i]);
            lemma_code_has_key(program, met, met[i]);
            assert(key_codes(program, met).contains(key_code(program, met[i])));
            assert(key_code(program, met[i]) != key_code(program, key));
        }
    }
}

/// A state that extends one that extends another extends the other.
pub proof fn lemma_extends_trans(
    a: &BinaryenModuleCtxt,
    b: &BinaryenModuleCtxt,
    c: &BinaryenModuleCtxt,
)
    requires
        b.extends(a),
        c.extends(b),
    ensures
        c.extends(a),
{
    assert forall|sig: SigId| #[trigger] a.fun_types@.contains_key(sig) implies c.fun_types@.contains_key(
        sig,
    ) && c.fun_types@[sig] == a.fun_types@[sig] by {
        assert(b.fun_types@.contains_key(sig));
    }
}

/// Freshness carries over steps: what is fresh for a later state is fresh
/// for an earlier one.
pub proof fn lemma_fresh_trans(
    a: &BinaryenModuleCtxt,
    b: &BinaryenModuleCtxt,
    c: &BinaryenModuleCtxt,
)
    requires
        b.extends(a),
        b.fresh(a),
        c.extends(b),
        c.fresh(b),
    ensures
        c.fresh(a),
        c.extends(a),
{
    lemma_extends_trans(a, b, c);
    assert forall|j: int| a.translated@.len() <= j < c.translated@.len() implies match #[trigger] c.translated@[j] {
        Some((d, s)) => !has_key(a.met@, (d, s)),
        None => true,
    } by {
        match c.translated@[j] {
            Some((d, s)) => {
                if has_key(a.met@, (d, s)) {
                    lemma_has_key_mono(a.met@, b.met@, (d, s));
                }
                if j < b.translated@.len() {
                    assert(b.translated@[j] == c.translated@[j]);
                }
            },
            None => {},
        }
    }
}

} // verus!
