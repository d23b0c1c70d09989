//! The lowering of a program as a mathematical function: from the state
//! before a step to the state after it, or to the failure that ends it.
//!
//! Functions are lowered depth first. The function that a call reaches is
//! lowered before the block that holds the call is finished, unless its key
//! is among the keys met; a key is met before its body is lowered.

use vstd::prelude::*;
use super::block::{spec_block, spec_statements};
use super::cache::{
    has_key, keys_in_range, lemma_missing_keys_insert, lemma_missing_keys_mono, missing_keys,
    Key,
};
use super::calls::{spec_callee, spec_fn_ref, BinaryenCallKind, CalleeView};
use super::context::Slots;
use super::emit::spec_with_start;
use super::frame::{spec_args, spec_frame, Frame, FrameInfo};
use super::function::{spec_collect, spec_function};
use super::names::spec_sig_type_name;
use crate::binaryen::builder::{
    ExportView, FunctionTypeView, FunctionView, ImportView, ModuleView, ReprType, Type,
};
use crate::error::{ErrorKind, TransError};
use crate::mir::{DefId, FnRef, Mir, Program, SigId, TerminatorKind};

verus! {

/// The state of the lowering of a program: the keys met so far, in the
/// order in which they were met; the signatures whose type descriptor is in
/// the module, each with the position of the descriptor; and the module.
pub ghost struct Lowering {
    pub names: Seq<Key>,
    pub types: Map<SigId, usize>,
    pub module: ModuleView,
}

/// The failure of kind `kind` of the lowering of the function `key`.
pub open spec fn spec_failure(kind: ErrorKind, key: Key) -> TransError {
    TransError { kind, did: key.0, sig: key.1 }
}

/// The state after the imported function `callee` was registered: unless
/// its key was met, the key is met, and the module has the type of the
/// function and the import.
pub open spec fn spec_import(program: &Program, st: Lowering, callee: CalleeView) -> Lowering {
    if has_key(st.names, (callee.did, callee.sig)) {
        st
    } else {
        let link = program.defs[callee.did as int].link->0;
        Lowering {
            names: st.names.push((callee.did, callee.sig)),
            types: st.types,
            module: ModuleView {
                function_types: st.module.function_types.push(
                    FunctionTypeView {
                        name: link.name@,
                        params: spec_args(
                            program,
                            program.sigs[callee.sig as int].inputs@,
                            program.sigs[callee.sig as int].inputs.len() as nat,
                        )->Ok_0,
                        result: callee.ret_ty,
                    },
                ),
                imports: st.module.imports.push(
                    ImportView {
                        name: link.name@,
                        module: link.module@,
                        base: link.base@,
                        ty: st.module.function_types.len() as usize,
                    },
                ),
                ..st.module
            },
        }
    }
}

/// The state after the declared signature of the function `callee` was
/// marked as met: it is, where the function is called at another signature
/// and the key of the declared one was not met. A key that is marked is not
/// lowered.
pub open spec fn spec_mark(program: &Program, st: Lowering, callee: CalleeView) -> Lowering {
    let declared = program.defs[callee.did as int].sig;
    if declared != callee.sig && !has_key(st.names, (callee.did, declared)) {
        Lowering { names: st.names.push((callee.did, declared)), ..st }
    } else {
        st
    }
}

/// The state after the type descriptor of the signature `sig` was looked
/// up, and the position of the descriptor: a signature with an entry keeps
/// its descriptor; for any other a descriptor is added to the module, named
/// after the definition `did`, and the signature gets its entry.
pub open spec fn spec_sig_type(
    program: &Program,
    st: Lowering,
    did: DefId,
    sig: SigId,
    params: Seq<ReprType>,
    result: Type,
) -> (Lowering, usize) {
    if st.types.contains_key(sig) {
        (st, st.types[sig])
    } else {
        let ty = st.module.function_types.len() as usize;
        (
            Lowering {
                names: st.names,
                types: st.types.insert(sig, ty),
                module: ModuleView {
                    function_types: st.module.function_types.push(
                        FunctionTypeView {
                            name: spec_sig_type_name(
                                program.defs[did as int].krate,
                                program.defs[did as int].index,
                            ),
                            params,
                            result,
                        },
                    ),
                    ..st.module
                },
            },
            ty,
        )
    }
}

/// The state after the function of the key `(did, sig)`, whose blocks are
/// lowered, was added to the module: the type of its signature is looked
/// up; the function is added, and exported under its own name unless it
/// stands for a panic; and for the entry point of the program the start
/// routine is added and made the function the module starts with.
pub open spec fn spec_emit(
    program: &Program,
    entry_fn: Option<DefId>,
    st: Lowering,
    did: DefId,
    sig: SigId,
) -> Result<Lowering, ErrorKind> {
    match spec_function(program, entry_fn, did, sig) {
        Err(kind) => Err(kind),
        Ok(f) => {
            let (typed, ty) = spec_sig_type(program, st, did, sig, f.params, f.result);
            let added = ModuleView {
                functions: typed.module.functions.push(
                    FunctionView { name: f.name, ty, var_types: f.var_types, body: f.body },
                ),
                exports: if f.exported {
                    typed.module.exports.push(ExportView { internal: f.name, external: f.name })
                } else {
                    typed.module.exports
                },
                ..typed.module
            };
            Ok(
                Lowering {
                    module: if entry_fn == Some(did) {
                        ModuleView {
                            start: Some(added.functions.len() as usize),
                            ..spec_with_start(
                                added,
                                f.name,
                                program.sigs[sig as int].inputs.len() == 2,
                            )
                        }
                    } else {
                        added
                    },
                    ..typed
                },
            )
        },
    }
}

/// The state after the function of the key `(did, sig)` was lowered.
///
/// Nothing is done for a key that was met. For any other, the definition
/// must have a body and no link metadata. The key is met first; then the
/// blocks of the body are lowered in order, and with them the functions they
/// call; then the function is added to the module.
#[verifier::opaque]
pub open spec fn spec_trans(
    program: &Program,
    entry_fn: Option<DefId>,
    st: Lowering,
    did: DefId,
    sig: SigId,
) -> Result<Lowering, TransError>
    decreases missing_keys(program, st.names), 0nat, 0nat,
    when keys_in_range(program, st.names)
{
    if has_key(st.names, (did, sig)) {
        Ok(st)
    } else if did >= program.defs.len() || sig >= program.sigs.len()
        || program.defs[did as int].link is Some || program.defs[did as int].mir is None {
        Err(spec_failure(ErrorKind::UnsupportedCallee, (did, sig)))
    } else {
        proof {
            lemma_missing_keys_insert(program, st.names, (did, sig));
        }
        spec_body(program, entry_fn, Lowering { names: st.names.push((did, sig)), ..st }, did, sig)
    }
}

/// The state after the body of the function of the key `(did, sig)`,
/// which is met, was lowered and the function added to the module: the
/// slots of the function are laid out; its blocks are lowered in order, and
/// with them the functions they call; then the function is added.
pub open spec fn spec_body(
    program: &Program,
    entry_fn: Option<DefId>,
    st: Lowering,
    did: DefId,
    sig: SigId,
) -> Result<Lowering, TransError>
    decreases missing_keys(program, st.names), 5nat, 0nat,
{
    let mir = &program.defs[did as int].mir->0;
    match spec_frame(program, mir, sig) {
        Err(kind) => Err(spec_failure(kind, (did, sig))),
        Ok(frame) => match spec_blocks_state(
            program,
            entry_fn,
            st,
            (did, sig),
            mir,
            frame,
            mir.basic_blocks.len() as nat,
        ) {
            Err(e) => Err(e),
            Ok(collected) => match spec_emit(program, entry_fn, collected, did, sig) {
                Err(kind) => Err(spec_failure(kind, (did, sig))),
                Ok(emitted) => Ok(emitted),
            },
        },
    }
}

/// The state after the function `callee` was made part of the module: an
/// imported function is registered; of any other the declared signature is
/// marked, and the function is lowered at the signature it is called at.
pub open spec fn spec_ensure(
    program: &Program,
    entry_fn: Option<DefId>,
    st: Lowering,
    callee: CalleeView,
) -> Result<Lowering, TransError>
    decreases missing_keys(program, st.names), 1nat, 0nat,
{
    match callee.kind {
        BinaryenCallKind::Import => Ok(spec_import(program, st, callee)),
        BinaryenCallKind::Direct => {
            proof {
                lemma_missing_keys_mono(program, st.names, spec_mark(program, st, callee).names);
            }
            spec_trans(program, entry_fn, spec_mark(program, st, callee), callee.did, callee.sig)
        },
    }
}

/// The state after the function that a call of `f` in the function
/// `caller` reaches was made part of the module.
pub open spec fn spec_callee_state(
    program: &Program,
    entry_fn: Option<DefId>,
    st: Lowering,
    caller: Key,
    f: FnRef,
) -> Result<Lowering, TransError>
    decreases missing_keys(program, st.names), 2nat, 0nat,
{
    match spec_callee(program, f) {
        Err(kind) => Err(spec_failure(kind, caller)),
        Ok(callee) => spec_ensure(program, entry_fn, st, callee),
    }
}

/// The state after the basic block with index `i` of the function
/// `caller` was lowered, where `n_vars` slots exist: if the block ends in a
/// call, the function it reaches is made part of the module, once the
/// statements of the block are lowered and before the call is.
pub open spec fn spec_block_state(
    program: &Program,
    entry_fn: Option<DefId>,
    st: Lowering,
    caller: Key,
    mir: &Mir,
    slots: Slots,
    info: FrameInfo,
    n_vars: nat,
    i: nat,
) -> Result<Lowering, TransError>
    decreases missing_keys(program, st.names), 3nat, 0nat,
{
    let bb = mir.basic_blocks[i as int];
    match spec_statements(program, mir, slots, bb.statements@, bb.statements.len() as nat) {
        Err(kind) => Err(spec_failure(kind, caller)),
        Ok(_) => {
            let reached = match bb.terminator.kind {
                TerminatorKind::Call { func, args, destination } => match spec_fn_ref(&func) {
                    Err(kind) => Err(spec_failure(kind, caller)),
                    Ok(f) => spec_callee_state(program, entry_fn, st, caller, f),
                },
                _ => Ok(st),
            };
            match reached {
                Err(e) => Err(e),
                Ok(after) => match spec_block(program, mir, slots, info, n_vars, i) {
                    Err(kind) => Err(spec_failure(kind, caller)),
                    Ok(_) => Ok(after),
                },
            }
        },
    }
}

/// The state after the first `n` basic blocks of the function `caller`
/// were lowered, in order.
///
/// A block is lowered from the state that the blocks before it leave. That
/// state has no fewer keys than the one the lowering of the blocks started
/// from; the definition says so where it goes on from it, so that it is
/// well founded.
pub open spec fn spec_blocks_state(
    program: &Program,
    entry_fn: Option<DefId>,
    st: Lowering,
    caller: Key,
    mir: &Mir,
    frame: Frame,
    n: nat,
) -> Result<Lowering, TransError>
    decreases missing_keys(program, st.names), 4nat, n,
{
    if n == 0 {
        Ok(st)
    } else {
        match spec_blocks_state(program, entry_fn, st, caller, mir, frame, (n - 1) as nat) {
            Err(e) => Err(e),
            Ok(before) => if missing_keys(program, before.names) <= missing_keys(
                program,
                st.names,
            ) {
                spec_block_state(
                    program,
                    entry_fn,
                    before,
                    caller,
                    mir,
                    frame.slots,
                    frame.info(),
                    frame.tys.len() + spec_collect(
                        program,
                        mir,
                        frame,
                        (n - 1) as nat,
                    )->Ok_0.created,
                    (n - 1) as nat,
                )
            } else {
                Ok(before)
            },
        }
    }
}

/// Once the first `n` basic blocks fail, the first `m` fail in the same
/// way, for every `m` from `n` on.
pub proof fn lemma_blocks_state_fails(
    program: &Program,
    entry_fn: Option<DefId>,
    st: Lowering,
    caller: Key,
    mir: &Mir,
    frame: Frame,
    n: nat,
    m: nat,
)
    requires
        n <= m,
        spec_blocks_state(program, entry_fn, st, caller, mir, frame, n) is Err,
    ensures
        spec_blocks_state(program, entry_fn, st, caller, mir, frame, m) == spec_blocks_state(
            program,
            entry_fn,
            st,
            caller,
            mir,
            frame,
            n,
        ),
    decreases m,
{
    if n < m {
        lemma_blocks_state_fails(program, entry_fn, st, caller, mir, frame, n, (m - 1) as nat);
    }
}

} // verus!
