//! Laws of the lowering of a program: the keys met only grow in number,
//! and a function is lowered once.

use vstd::prelude::*;
use super::cache::{
    has_key, is_prefix, keys_in_range, lemma_has_key_mono, lemma_missing_keys_insert,
    lemma_missing_keys_mono, missing_keys, Key,
};
use super::calls::{spec_callee, BinaryenCallKind, CalleeView};
use super::context::Slots;
use super::frame::{spec_frame, Frame, FrameInfo};
use super::function::spec_collect;
use super::lowering::{
    spec_block_state, spec_blocks_state, spec_body, spec_callee_state, spec_ensure, spec_import,
    spec_mark, spec_trans, Lowering,
};
use crate::error::TransError;
use crate::mir::{DefId, FnRef, Mir, Program, SigId, TerminatorKind};

verus! {

/// Whether the function a call reaches is one of the program, declared
/// and called at signatures of the program.
pub open spec fn callee_in_range(program: &Program, callee: CalleeView) -> bool {
    &&& callee.did < program.defs.len()
    &&& callee.sig < program.sigs.len()
    &&& program.defs[callee.did as int].sig < program.sigs.len()
}

/// What a call calls is a function of the program.
pub proof fn lemma_callee_in_range(program: &Program, f: FnRef)
    requires
        spec_callee(program, f) is Ok,
    ensures
        callee_in_range(program, spec_callee(program, f)->Ok_0),
{
}

/// A key of the program that is added leaves keys of the program.
pub proof fn lemma_push_in_range(program: &Program, ks: Seq<Key>, key: Key)
    requires
        keys_in_range(program, ks),
        key.0 < program.defs.len(),
        key.1 < program.sigs.len(),
    ensures
        is_prefix(ks, ks.push(key)),
        keys_in_range(program, ks.push(key)),
{
    assert forall|i: int| 0 <= i < ks.push(key).len() implies (#[trigger] ks.push(key)[i]).0
        < program.defs.len() && ks.push(key)[i].1 < program.sigs.len() by {
        if i < ks.len() {
            assert(ks.push(key)[i] == ks[i]);
        }
    }
}

/// Registering an import and marking a signature keep the keys met.
pub proof fn lemma_import_mark_grow(program: &Program, st: Lowering, callee: CalleeView)
    requires
        keys_in_range(program, st.names),
        callee_in_range(program, callee),
    ensures
        is_prefix(st.names, spec_import(program, st, callee).names),
        keys_in_range(program, spec_import(program, st, callee).names),
        is_prefix(st.names, spec_mark(program, st, callee).names),
        keys_in_range(program, spec_mark(program, st, callee).names),
{
    lemma_push_in_range(program, st.names, (callee.did, callee.sig));
    lemma_push_in_range(program, st.names, (callee.did, program.defs[callee.did as int].sig));
}

/// The lowering of a function keeps the keys met and meets the key of the
/// function.
pub proof fn lemma_trans_grows(
    program: &Program,
    entry_fn: Option<DefId>,
    st: Lowering,
    did: DefId,
    sig: SigId,
)
    requires
        keys_in_range(program, st.names),
        spec_trans(program, entry_fn, st, did, sig) is Ok,
    ensures
        is_prefix(st.names, spec_trans(program, entry_fn, st, did, sig)->Ok_0.names),
        keys_in_range(program, spec_trans(program, entry_fn, st, did, sig)->Ok_0.names),
        has_key(spec_trans(program, entry_fn, st, did, sig)->Ok_0.names, (did, sig)),
    decreases missing_keys(program, st.names), 0nat, 0nat,
{
    reveal(spec_trans);
    if !has_key(st.names, (did, sig)) {
        let entered = Lowering { names: st.names.push((did, sig)), ..st };
        lemma_missing_keys_insert(program, st.names, (did, sig));
        lemma_body_grows(program, entry_fn, entered, did, sig);
        let after = spec_body(program, entry_fn, entered, did, sig)->Ok_0;
        assert(entered.names[st.names.len() as int] == (did, sig));
        assert(has_key(entered.names, (did, sig)));
        lemma_has_key_mono(entered.names, after.names, (did, sig));
        assert forall|i: int| 0 <= i < st.names.len() implies #[trigger] after.names[i]
            == st.names[i] by {
            assert(entered.names[i] == st.names[i]);
        }
    }
}

/// The lowering of the body of a function keeps the keys met.
pub proof fn lemma_body_grows(
    program: &Program,
    entry_fn: Option<DefId>,
    st: Lowering,
    did: DefId,
    sig: SigId,
)
    requires
        keys_in_range(program, st.names),
        spec_body(program, entry_fn, st, did, sig) is Ok,
    ensures
        is_prefix(st.names, spec_body(program, entry_fn, st, did, sig)->Ok_0.names),
        keys_in_range(program, spec_body(program, entry_fn, st, did, sig)->Ok_0.names),
    decreases missing_keys(program, st.names), 5nat, 0nat,
{
    let mir = &program.defs[did as int].mir->0;
    let frame = spec_frame(program, mir, sig)->Ok_0;
    lemma_blocks_grows(
        program,
        entry_fn,
        st,
        (did, sig),
        mir,
        frame,
        mir.basic_blocks.len() as nat,
    );
}

/// The lowering of the blocks of a function keeps the keys met: the state
/// that the blocks before a block leave has no fewer keys than the one the
/// lowering of the blocks started from.
pub proof fn lemma_blocks_grows(
    program: &Program,
    entry_fn: Option<DefId>,
    st: Lowering,
    caller: Key,
    mir: &Mir,
    frame: Frame,
    n: nat,
)
    requires
        keys_in_range(program, st.names),
        spec_blocks_state(program, entry_fn, st, caller, mir, frame, n) is Ok,
    ensures
        is_prefix(
            st.names,
            spec_blocks_state(program, entry_fn, st, caller, mir, frame, n)->Ok_0.names,
        ),
        keys_in_range(
            program,
            spec_blocks_state(program, entry_fn, st, caller, mir, frame, n)->Ok_0.names,
        ),
        missing_keys(
            program,
            spec_blocks_state(program, entry_fn, st, caller, mir, frame, n)->Ok_0.names,
        ) <= missing_keys(program, st.names),
    decreases missing_keys(program, st.names), 4nat, n,
{
    if n > 0 {
        lemma_blocks_grows(program, entry_fn, st, caller, mir, frame, (n - 1) as nat);
        let before = spec_blocks_state(
            program,
            entry_fn,
            st,
            caller,
            mir,
            frame,
            (n - 1) as nat,
        )->Ok_0;
        let n_vars = frame.tys.len() + spec_collect(program, mir, frame, (n - 1) as nat)->Ok_0.created;
        lemma_block_grows(
            program,
            entry_fn,
            before,
            caller,
            mir,
            frame.slots,
            frame.info(),
            n_vars,
            (n - 1) as nat,
        );
        let after = spec_blocks_state(program, entry_fn, st, caller, mir, frame, n)->Ok_0;
        assert forall|i: int| 0 <= i < st.names.len() implies #[trigger] after.names[i]
            == st.names[i] by {
            assert(before.names[i] == st.names[i]);
        }
        lemma_missing_keys_mono(program, st.names, after.names);
    } else {
        lemma_missing_keys_mono(program, st.names, st.names);
    }
}

/// The lowering of a block keeps the keys met.
pub proof fn lemma_block_grows(
    program: &Program,
    entry_fn: Option<DefId>,
    st: Lowering,
    caller: Key,
    mir: &Mir,
    slots: Slots,
    info: FrameInfo,
    n_vars: nat,
    i: nat,
)
    requires
        keys_in_range(program, st.names),
        spec_block_state(program, entry_fn, st, caller, mir, slots, info, n_vars, i) is Ok,
    ensures
        is_prefix(
            st.names,
            spec_block_state(
                program,
                entry_fn,
                st,
                caller,
                mir,
                slots,
                info,
                n_vars,
                i,
            )->Ok_0.names,
        ),
        keys_in_range(
            program,
            spec_block_state(
                program,
                entry_fn,
                st,
                caller,
                mir,
                slots,
                info,
                n_vars,
                i,
            )->Ok_0.names,
        ),
    decreases missing_keys(program, st.names), 3nat, 0nat,
{
    match mir.basic_blocks[i as int].terminator.kind {
        TerminatorKind::Call { func, args, destination } => {
            let f = super::calls::spec_fn_ref(&func)->Ok_0;
            lemma_callee_grows(program, entry_fn, st, caller, f);
        },
        _ => {},
    }
}

/// Making the function a call reaches part of the module keeps the keys
/// met.
pub proof fn lemma_callee_grows(
    program: &Program,
    entry_fn: Option<DefId>,
    st: Lowering,
    caller: Key,
    f: FnRef,
)
    requires
        keys_in_range(program, st.names),
        spec_callee_state(program, entry_fn, st, caller, f) is Ok,
    ensures
        is_prefix(st.names, spec_callee_state(program, entry_fn, st, caller, f)->Ok_0.names),
        keys_in_range(program, spec_callee_state(program, entry_fn, st, caller, f)->Ok_0.names),
    decreases missing_keys(program, st.names), 2nat, 0nat,
{
    lemma_callee_in_range(program, f);
    lemma_ensure_grows(program, entry_fn, st, spec_callee(program, f)->Ok_0);
}

/// See [`lemma_callee_grows`].
pub proof fn lemma_ensure_grows(
    program: &Program,
    entry_fn: Option<DefId>,
    st: Lowering,
    callee: CalleeView,
)
    requires
        keys_in_range(program, st.names),
        callee_in_range(program, callee),
        spec_ensure(program, entry_fn, st, callee) is Ok,
    ensures
        is_prefix(st.names, spec_ensure(program, entry_fn, st, callee)->Ok_0.names),
        keys_in_range(program, spec_ensure(program, entry_fn, st, callee)->Ok_0.names),
    decreases missing_keys(program, st.names), 1nat, 0nat,
{
    lemma_import_mark_grow(program, st, callee);
    let marked = spec_mark(program, st, callee);
    lemma_missing_keys_mono(program, st.names, marked.names);
    if callee.kind == BinaryenCallKind::Direct {
        lemma_ensure_direct(program, entry_fn, st, callee);
        lemma_trans_grows(program, entry_fn, marked, callee.did, callee.sig);
        let after = spec_trans(program, entry_fn, marked, callee.did, callee.sig)->Ok_0;
        lemma_prefix_trans(st.names, marked.names, after.names);
    } else {
        lemma_ensure_import(program, entry_fn, st, callee);
    }
}

proof fn lemma_ensure_direct(
    program: &Program,
    entry_fn: Option<DefId>,
    st: Lowering,
    callee: CalleeView,
)
    requires
        callee.kind == BinaryenCallKind::Direct,
        keys_in_range(program, spec_mark(program, st, callee).names),
    ensures
        spec_ensure(program, entry_fn, st, callee) == spec_trans(
            program,
            entry_fn,
            spec_mark(program, st, callee),
            callee.did,
            callee.sig,
        ),
{
    reveal(spec_trans);
}

proof fn lemma_ensure_import(
    program: &Program,
    entry_fn: Option<DefId>,
    st: Lowering,
    callee: CalleeView,
)
    requires
        callee.kind == BinaryenCallKind::Import,
    ensures
        spec_ensure(program, entry_fn, st, callee) == Ok::<Lowering, TransError>(
            spec_import(program, st, callee),
        ),
{
}

/// The first keys of the first keys are first keys.
pub proof fn lemma_prefix_trans(a: Seq<Key>, b: Seq<Key>, c: Seq<Key>)
    requires
        is_prefix(a, b),
        is_prefix(b, c),
    ensures
        is_prefix(a, c),
{
    assert forall|i: int| 0 <= i < a.len() implies #[trigger] c[i] == a[i] by {
        assert(b[i] == a[i]);
    }
}

/// Idempotence.
///
/// Once a function is lowered, lowering it again changes nothing: the
/// state stays as it is, with the one function in the module.
pub proof fn lemma_trans_idempotent(
    program: &Program,
    entry_fn: Option<DefId>,
    st: Lowering,
    did: DefId,
    sig: SigId,
)
    requires
        keys_in_range(program, st.names),
        spec_trans(program, entry_fn, st, did, sig) is Ok,
    ensures
        spec_trans(
            program,
            entry_fn,
            spec_trans(program, entry_fn, st, did, sig)->Ok_0,
            did,
            sig,
        ) == spec_trans(program, entry_fn, st, did, sig),
{
    lemma_trans_grows(program, entry_fn, st, did, sig);
    reveal(spec_trans);
}

/// A key that is met is not entered again: the lowering of its function
/// leaves the state as it is.
pub proof fn lemma_trans_cached(
    program: &Program,
    entry_fn: Option<DefId>,
    st: Lowering,
    did: DefId,
    sig: SigId,
)
    requires
        keys_in_range(program, st.names),
        has_key(st.names, (did, sig)),
    ensures
        spec_trans(program, entry_fn, st, did, sig) == Ok::<Lowering, TransError>(st),
{
    reveal(spec_trans);
}

} // verus!
