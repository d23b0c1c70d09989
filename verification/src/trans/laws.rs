//! Laws of the lowering: statements about the slots of a function, the
//! offsets of resolved locations and the edges of terminators, each proved
//! from the definitions of the pass.

use vstd::prelude::*;
use super::context::{spec_local_index, Slots};
use super::edges::{
    branches_of, spec_block_edges, spec_branch, spec_case_edges, spec_edges, with_edges,
    EdgeKindView, PendingEdgeView,
};
use super::function::{spec_cfg, spec_collect, spec_has_assert, spec_prologue, spec_trap_block};
use super::frame::{spec_args, spec_frame, spec_locals, Frame};
use super::place::{spec_lval, spec_lval_ty, LvalueExtra};
use super::types::{is_never, is_nil, layout_of, spec_rust_ty_to_builder, spec_type_kind};
use crate::binaryen::builder::ReprType;
use crate::binaryen::relooper::BranchView;
use crate::error::ErrorKind;
use crate::mir::{
    Layout, LocalDecl, Lvalue, Mir, Program, ProjectionElem, SigId, SwitchCase, TerminatorKind,
    TypeId,
};

verus! {

/// The slots of a run of locals are given out in declaration order: a
/// local with a slot has the slot after those of the locals before it.
pub proof fn lemma_locals_in_order(program: &Program, decls: Seq<LocalDecl>, base: nat, n: nat)
    requires
        spec_locals(program, decls, base, n) is Ok,
        base + n <= usize::MAX,
    ensures
        spec_locals(program, decls, base, n)->Ok_0.map.len() == n,
        spec_locals(program, decls, base, n)->Ok_0.tys.len() <= n,
        forall|p: int|
            0 <= p < n ==> match #[trigger] spec_locals(program, decls, base, n)->Ok_0.map[p] {
                Some(slot) => {
                    &&& spec_type_kind(program, decls[p].ty) is Ok
                    &&& spec_rust_ty_to_builder(spec_type_kind(program, decls[p].ty)->Ok_0) is Some
                    &&& base <= slot < base + spec_locals(program, decls, base, n)->Ok_0.tys.len()
                    &&& spec_locals(program, decls, base, n)->Ok_0.tys[slot - base] == spec_rust_ty_to_builder(
                        spec_type_kind(program, decls[p].ty)->Ok_0,
                    )->0
                },
                None => {
                    &&& spec_type_kind(program, decls[p].ty) is Ok
                    &&& spec_rust_ty_to_builder(spec_type_kind(program, decls[p].ty)->Ok_0) is None
                },
            },
        forall|p: int, q: int|
            0 <= p < q < n && (#[trigger] spec_locals(program, decls, base, n)->Ok_0.map[p]) is Some
                && (#[trigger] spec_locals(program, decls, base, n)->Ok_0.map[q]) is Some
                ==> spec_locals(program, decls, base, n)->Ok_0.map[p]->0 < spec_locals(
                program,
                decls,
                base,
                n,
            )->Ok_0.map[q]->0,
    decreases n,
{
    if n > 0 {
        lemma_locals_in_order(program, decls, base, (n - 1) as nat);
        let prev = spec_locals(program, decls, base, (n - 1) as nat)->Ok_0;
        let cur = spec_locals(program, decls, base, n)->Ok_0;
        assert forall|p: int| 0 <= p < n implies match #[trigger] cur.map[p] {
            Some(slot) => {
                &&& spec_type_kind(program, decls[p].ty) is Ok
                &&& spec_rust_ty_to_builder(spec_type_kind(program, decls[p].ty)->Ok_0) is Some
                &&& base <= slot < base + cur.tys.len()
                &&& cur.tys[slot - base] == spec_rust_ty_to_builder(
                    spec_type_kind(program, decls[p].ty)->Ok_0,
                )->0
            },
            None => {
                &&& spec_type_kind(program, decls[p].ty) is Ok
                &&& spec_rust_ty_to_builder(spec_type_kind(program, decls[p].ty)->Ok_0) is None
            },
        } by {
            if p < n - 1 {
                assert(cur.map[p] == prev.map[p]);
            }
        }
        assert forall|p: int, q: int|
            0 <= p < q < n && (#[trigger] cur.map[p]) is Some && (#[trigger] cur.map[q]) is Some implies cur.map[p]->0
            < cur.map[q]->0 by {
            assert(cur.map[p] == prev.map[p]);
            if q < n - 1 {
                assert(cur.map[q] == prev.map[q]);
            }
        }
    }
}

/// Whether `ty` is the representable type of values of the type `t`.
pub open spec fn slot_type_of(program: &Program, t: TypeId, ty: ReprType) -> bool {
    &&& spec_type_kind(program, t) is Ok
    &&& Some(ty) == spec_rust_ty_to_builder(spec_type_kind(program, t)->Ok_0)
}

/// The types of the parameter slots are as many as the parameters, and
/// the slot of each parameter has the representable type of the parameter.
pub proof fn lemma_args_types(program: &Program, inputs: Seq<TypeId>, n: nat)
    requires
        spec_args(program, inputs, n) is Ok,
    ensures
        spec_args(program, inputs, n)->Ok_0.len() == n,
        forall|p: int|
            0 <= p < n ==> slot_type_of(
                program,
                inputs[p],
                #[trigger] spec_args(program, inputs, n)->Ok_0[p],
            ),
    decreases n,
{
    if n > 0 {
        lemma_args_types(program, inputs, (n - 1) as nat);
        let prev = spec_args(program, inputs, (n - 1) as nat)->Ok_0;
        let cur = spec_args(program, inputs, n)->Ok_0;
        assert forall|p: int| 0 <= p < n implies slot_type_of(
            program,
            inputs[p],
            #[trigger] spec_args(program, inputs, n)->Ok_0[p],
        ) by {
            if p < n - 1 {
                assert(cur[p] == prev[p]);
            }
        }
    }
}

/// Slot indexing.
///
/// In the frame of a function, local 0 resolves to the slot of the return
/// value, which exists exactly if the result is neither of unit nor of
/// never type. The locals `1..=num_args` resolve to the parameter slots
/// `0..num_args`, in declaration order, each of the representable type of
/// its parameter. The locals after them resolve as their maps say, user
/// variables first and temporaries after them; the slots of those that have
/// one come after the parameter slots and before the slot of the return
/// value, in declaration order.
pub proof fn lemma_slot_indexing(program: &Program, mir: &Mir, sig: SigId)
    requires
        sig < program.sigs.len(),
        spec_frame(program, mir, sig) is Ok,
        mir.local_decls.len() + 4 <= usize::MAX,
    ensures
        ({
            let frame = spec_frame(program, mir, sig)->Ok_0;
            let s = frame.slots;
            let inputs = program.sigs[sig as int].inputs@;
            let ret_kind = spec_type_kind(program, program.sigs[sig as int].output)->Ok_0;
            let locals = mir.local_decls.len();
            &&& s.num_args == inputs.len()
            &&& spec_local_index(s, 0) == Ok::<Option<usize>, ErrorKind>(s.ret_var)
            &&& s.ret_var is Some <==> !is_nil(ret_kind) && !is_never(ret_kind)
            &&& s.ret_var is Some ==> s.ret_var->0 < frame.tys.len() && Some(
                frame.tys[s.ret_var->0 as int],
            ) == spec_rust_ty_to_builder(ret_kind)
            &&& forall|i: nat|
                1 <= i <= s.num_args ==> #[trigger] spec_local_index(s, i) == Ok::<
                    Option<usize>,
                    ErrorKind,
                >(Some((i - 1) as usize)) && Some(frame.tys[i - 1]) == spec_rust_ty_to_builder(
                    spec_type_kind(program, inputs[i - 1])->Ok_0,
                )
            &&& forall|i: nat|
                s.num_args < i < locals ==> match #[trigger] spec_local_index(s, i) {
                    Ok(Some(slot)) => {
                        &&& s.num_args <= slot < frame.tys.len() - 3
                        &&& s.ret_var is Some ==> slot < s.ret_var->0
                        &&& Some(frame.tys[slot as int]) == spec_rust_ty_to_builder(
                            spec_type_kind(program, mir.local_decls[i as int].ty)->Ok_0,
                        )
                    },
                    Ok(None) => spec_rust_ty_to_builder(
                        spec_type_kind(program, mir.local_decls[i as int].ty)->Ok_0,
                    ) is None,
                    Err(_) => false,
                }
            &&& forall|i: nat, j: nat|
                s.num_args < i < j < locals ==> match (
                    #[trigger] spec_local_index(s, i),
                    #[trigger] spec_local_index(s, j),
                ) {
                    (Ok(Some(a)), Ok(Some(b))) => a < b,
                    _ => true,
                }
        }),
{
    let frame = spec_frame(program, mir, sig)->Ok_0;
    let s = frame.slots;
    let inputs = program.sigs[sig as int].inputs@;
    let nargs = inputs.len();
    let vars = mir.local_decls@.subrange(1 + nargs as int, 1 + nargs as int + mir.var_count);
    let temps = mir.local_decls@.subrange(
        1 + nargs as int + mir.var_count,
        mir.local_decls.len() as int,
    );
    let arg_tys = spec_args(program, inputs, nargs)->Ok_0;
    let v = spec_locals(program, vars, nargs, vars.len())->Ok_0;
    let t = spec_locals(program, temps, nargs + v.tys.len(), temps.len())->Ok_0;
    lemma_args_types(program, inputs, nargs);
    lemma_locals_in_order(program, vars, nargs, vars.len());
    lemma_locals_in_order(program, temps, nargs + v.tys.len(), temps.len());
    let locals = arg_tys + v.tys + t.tys;
    assert forall|i: nat| 1 <= i <= s.num_args implies #[trigger] spec_local_index(s, i) == Ok::<
        Option<usize>,
        ErrorKind,
    >(Some((i - 1) as usize)) && Some(frame.tys[i - 1]) == spec_rust_ty_to_builder(
        spec_type_kind(program, inputs[i - 1])->Ok_0,
    ) by {
        assert(frame.tys[i - 1] == arg_tys[i - 1]);
    }
    assert forall|i: nat| s.num_args < i < mir.local_decls.len() implies match #[trigger] spec_local_index(
        s,
        i,
    ) {
        Ok(Some(slot)) => {
            &&& s.num_args <= slot < frame.tys.len() - 3
            &&& s.ret_var is Some ==> slot < s.ret_var->0
            &&& Some(frame.tys[slot as int]) == spec_rust_ty_to_builder(
                spec_type_kind(program, mir.local_decls[i as int].ty)->Ok_0,
            )
        },
        Ok(None) => spec_rust_ty_to_builder(
            spec_type_kind(program, mir.local_decls[i as int].ty)->Ok_0,
        ) is None,
        Err(_) => false,
    } by {
        let k = i - 1 - nargs;
        if k < vars.len() {
            assert(vars[k] == mir.local_decls[i as int]);
            match v.map[k] {
                Some(slot) => {
                    assert(frame.tys[slot as int] == v.tys[slot - nargs]);
                },
                None => {},
            }
        } else {
            let m = k - vars.len();
            assert(temps[m] == mir.local_decls[i as int]);
            match t.map[m] {
                Some(slot) => {
                    assert(frame.tys[slot as int] == t.tys[slot - nargs - v.tys.len()]);
                },
                None => {},
            }
        }
    }
    assert forall|i: nat, j: nat| s.num_args < i < j < mir.local_decls.len() implies match (
        #[trigger] spec_local_index(s, i),
        #[trigger] spec_local_index(s, j),
    ) {
        (Ok(Some(a)), Ok(Some(b))) => a < b,
        _ => true,
    } by {
        let ki = i - 1 - nargs;
        let kj = j - 1 - nargs;
        if kj < vars.len() {
            assert(v.map[ki] == s.var_map[ki]);
            assert(v.map[kj] == s.var_map[kj]);
        } else if ki < vars.len() {
            assert(v.map[ki] == s.var_map[ki]);
            assert(t.map[kj - vars.len()] == s.temp_map[kj - vars.len()]);
        } else {
            assert(t.map[ki - vars.len()] == s.temp_map[ki - vars.len()]);
            assert(t.map[kj - vars.len()] == s.temp_map[kj - vars.len()]);
        }
    }
}

/// Whether a location is a local under field projections only.
pub open spec fn is_field_chain(lvalue: &Lvalue) -> bool
    decreases lvalue,
{
    match lvalue {
        Lvalue::Local(_) => true,
        Lvalue::Static => false,
        Lvalue::Projection(p) => p.elem is Field && is_field_chain(&p.base),
    }
}

/// The static byte offset of the field that a field projection of a
/// record selects: the offset of that field in the single variant of the
/// type of the base.
pub open spec fn spec_field_offset(program: &Program, mir: &Mir, lvalue: &Lvalue) -> int {
    match lvalue {
        Lvalue::Projection(p) => match p.elem {
            ProjectionElem::Field(f) => match layout_of(program, spec_lval_ty(mir, &p.base)->Ok_0) {
                Layout::Univariant { variant } => variant.offsets[f as int] as int,
                _ => 0,
            },
            _ => 0,
        },
        _ => 0,
    }
}

/// The sum of the static byte offsets of the fields along a chain of
/// field projections.
pub open spec fn spec_chain_offset(program: &Program, mir: &Mir, lvalue: &Lvalue) -> int
    decreases lvalue,
{
    match lvalue {
        Lvalue::Projection(p) => spec_chain_offset(program, mir, &p.base) + spec_field_offset(
            program,
            mir,
            lvalue,
        ),
        _ => 0,
    }
}

/// Place offsets.
///
/// Where a chain of field projections from a local resolves to a
/// location, the slot of the location is that of the local, its offset is
/// the sum of the static byte offsets of the fields, and it has an offset
/// exactly if the chain has a field.
pub proof fn lemma_field_chain_offset(program: &Program, mir: &Mir, s: Slots, lvalue: &Lvalue)
    requires
        is_field_chain(lvalue),
        spec_lval(program, mir, s, lvalue) is Ok,
        spec_lval(program, mir, s, lvalue)->Ok_0 is Some,
    ensures
        spec_lval(program, mir, s, lvalue)->Ok_0->0.offset_or_zero() == spec_chain_offset(
            program,
            mir,
            lvalue,
        ),
        spec_lval(program, mir, s, lvalue)->Ok_0->0.offset is Some <==> lvalue is Projection,
        spec_lval(program, mir, s, lvalue)->Ok_0->0.extra == LvalueExtra::Nothing,
        0 <= spec_chain_offset(program, mir, lvalue) <= u32::MAX,
    decreases lvalue,
{
    match lvalue {
        Lvalue::Projection(p) => {
            lemma_field_chain_offset(program, mir, s, &p.base);
        },
        _ => {},
    }
}

/// Place offsets never shrink.
///
/// Where a field projection resolves to a location, its base resolves to
/// a location in the same slot, and the offset of the projection is that of
/// the base plus the static byte offset of the field: it is not less.
pub proof fn lemma_field_offset_grows(program: &Program, mir: &Mir, s: Slots, lvalue: &Lvalue)
    requires
        is_field_chain(lvalue),
        lvalue is Projection,
        spec_lval(program, mir, s, lvalue) is Ok,
        spec_lval(program, mir, s, lvalue)->Ok_0 is Some,
    ensures
        ({
            let base = &lvalue->Projection_0.base;
            let here = spec_lval(program, mir, s, lvalue)->Ok_0->0;
            &&& spec_lval(program, mir, s, base) is Ok
            &&& spec_lval(program, mir, s, base)->Ok_0 is Some
            &&& spec_lval(program, mir, s, base)->Ok_0->0.index == here.index
            &&& here.offset_or_zero() == spec_lval(program, mir, s, base)->Ok_0->0.offset_or_zero()
                + spec_field_offset(program, mir, lvalue)
            &&& spec_field_offset(program, mir, lvalue) >= 0
        }),
{
    match lvalue {
        Lvalue::Projection(p) => {
            lemma_field_chain_offset(program, mir, s, &p.base);
        },
        _ => {},
    }
}

/// The edges of the cases of a switch are one for each case, in order,
/// each from the block to the target of its case on the value of its case,
/// and no two of them are on the same value.
pub proof fn lemma_case_edges(cases: Seq<SwitchCase>, from: usize, n_blocks: nat, k: nat)
    requires
        spec_case_edges(cases, from, n_blocks, k) is Ok,
    ensures
        spec_case_edges(cases, from, n_blocks, k)->Ok_0.len() == k,
        forall|a: int|
            0 <= a < k ==> #[trigger] spec_case_edges(cases, from, n_blocks, k)->Ok_0[a] == (
            PendingEdgeView {
                from,
                to: cases[a].target,
                kind: EdgeKindView::Case { value: cases[a].value as u32 },
            }) && cases[a].value <= u32::MAX && cases[a].target < n_blocks,
        forall|a: int, b: int|
            0 <= a < b < k ==> (#[trigger] cases[a]).value != (#[trigger] cases[b]).value,
    decreases k,
{
    if k > 0 {
        lemma_case_edges(cases, from, n_blocks, (k - 1) as nat);
        let prev = spec_case_edges(cases, from, n_blocks, (k - 1) as nat)->Ok_0;
        let cur = spec_case_edges(cases, from, n_blocks, k)->Ok_0;
        assert forall|a: int| 0 <= a < k implies #[trigger] cur[a] == (PendingEdgeView {
            from,
            to: cases[a].target,
            kind: EdgeKindView::Case { value: cases[a].value as u32 },
        }) && cases[a].value <= u32::MAX && cases[a].target < n_blocks by {
            if a < k - 1 {
                assert(cur[a] == prev[a]);
            }
        }
    }
}

/// Switch completeness.
///
/// A switch with `k` cases has exactly `k + 1` edges, all from its block:
/// one on the value of each case, to the target of that case, no two on
/// the same value; and last the one for every other value.
pub proof fn lemma_switch_complete(
    program: &Program,
    mir: &Mir,
    s: Slots,
    n_blocks: nat,
    trap: usize,
    from: usize,
    kind: &TerminatorKind,
)
    requires
        kind is SwitchInt,
        spec_block_edges(program, mir, s, n_blocks, trap, from, kind) is Ok,
    ensures
        ({
            let edges = spec_block_edges(program, mir, s, n_blocks, trap, from, kind)->Ok_0;
            let cases = kind->SwitchInt_cases@;
            let k = cases.len() as int;
            &&& edges.len() == k + 1
            &&& forall|a: int| 0 <= a <= k ==> (#[trigger] edges[a]).from == from
            &&& forall|a: int|
                0 <= a < k ==> (#[trigger] edges[a]).to == cases[a].target && edges[a].kind == (
                EdgeKindView::Case { value: cases[a].value as u32 })
            &&& forall|a: int, b: int|
                0 <= a < b < k ==> (#[trigger] edges[a]).kind != (#[trigger] edges[b]).kind
            &&& edges[k].kind == EdgeKindView::Otherwise
            &&& edges[k].to == kind->SwitchInt_otherwise
        }),
{
    let cases = kind->SwitchInt_cases@;
    let k = cases.len();
    lemma_case_edges(cases, from, n_blocks, k);
    let case_edges = spec_case_edges(cases, from, n_blocks, k)->Ok_0;
    let edges = spec_block_edges(program, mir, s, n_blocks, trap, from, kind)->Ok_0;
    assert forall|a: int| 0 <= a < k implies (#[trigger] edges[a]).to == cases[a].target
        && edges[a].kind == (EdgeKindView::Case { value: cases[a].value as u32 }) && edges[a].from
        == from by {
        assert(edges[a] == case_edges[a]);
    }
    assert forall|a: int, b: int| 0 <= a < b < k implies (#[trigger] edges[a]).kind != (
    #[trigger] edges[b]).kind by {
        assert(edges[a] == case_edges[a]);
        assert(edges[b] == case_edges[b]);
        assert(cases[a].value != cases[b].value);
        assert(cases[a].value as u32 != cases[b].value as u32);
    }
}

/// Whether an edge of the given kind is taken where the condition of the
/// block is nonzero (`truthy`) or zero. An unconditional edge is taken
/// when no edge before it is.
pub open spec fn spec_taken(kind: EdgeKindView, truthy: bool) -> bool {
    match kind {
        EdgeKindView::Unconditional => true,
        EdgeKindView::Conditional { cond, taken_on_true } => truthy == taken_on_true,
        _ => false,
    }
}

/// The block that the first of the edges `edges` that is taken leads to.
pub open spec fn spec_successor(edges: Seq<PendingEdgeView>, truthy: bool) -> Option<usize>
    decreases edges.len(),
{
    if edges.len() == 0 {
        None
    } else if spec_taken(edges[0].kind, truthy) {
        Some(edges[0].to)
    } else {
        spec_successor(edges.subrange(1, edges.len() as int), truthy)
    }
}

/// Assert polarity.
///
/// From a block that ends in an assertion, the target of the assertion is
/// reached where the condition is as expected: nonzero for `expected ==
/// true`, zero for `expected == false`. Otherwise the block that traps is
/// reached.
pub proof fn lemma_assert_polarity(
    program: &Program,
    mir: &Mir,
    s: Slots,
    n_blocks: nat,
    trap: usize,
    from: usize,
    kind: &TerminatorKind,
    truthy: bool,
)
    requires
        kind is Assert,
        spec_block_edges(program, mir, s, n_blocks, trap, from, kind) is Ok,
    ensures
        spec_successor(
            spec_block_edges(program, mir, s, n_blocks, trap, from, kind)->Ok_0,
            truthy,
        ) == Some(
            if truthy == kind->Assert_expected {
                kind->Assert_target
            } else {
                trap
            },
        ),
{
    let edges = spec_block_edges(program, mir, s, n_blocks, trap, from, kind)->Ok_0;
    assert(edges.len() == 2);
    reveal_with_fuel(spec_successor, 3);
    if truthy != kind->Assert_expected {
        let rest = edges.subrange(1, 2);
        assert(rest[0] == edges[1]);
    }
}

/// The edges of the first `n` blocks give a block `j` among them the
/// branches of its own edges, and a block after them none.
pub proof fn lemma_branches_of_block(
    program: &Program,
    mir: &Mir,
    s: Slots,
    trap: usize,
    n: nat,
    j: int,
)
    requires
        n <= mir.basic_blocks.len(),
        spec_edges(program, mir, s, trap, n) is Ok,
        0 <= j < mir.basic_blocks.len(),
    ensures
        j < n ==> spec_block_edges(
            program,
            mir,
            s,
            mir.basic_blocks.len() as nat,
            trap,
            j as usize,
            &mir.basic_blocks[j].terminator.kind,
        ) is Ok,
        branches_of(
            spec_edges(program, mir, s, trap, n)->Ok_0,
            j,
            spec_edges(program, mir, s, trap, n)->Ok_0.len(),
        ) == if j < n {
            spec_block_edges(
                program,
                mir,
                s,
                mir.basic_blocks.len() as nat,
                trap,
                j as usize,
                &mir.basic_blocks[j].terminator.kind,
            )->Ok_0.map_values(|e: PendingEdgeView| spec_branch(e))
        } else {
            Seq::empty()
        },
    decreases n,
{
    if n > 0 {
        lemma_branches_of_block(program, mir, s, trap, (n - 1) as nat, j);
        let prev = spec_edges(program, mir, s, trap, (n - 1) as nat)->Ok_0;
        let own = spec_block_edges(
            program,
            mir,
            s,
            mir.basic_blocks.len() as nat,
            trap,
            (n - 1) as usize,
            &mir.basic_blocks[n - 1].terminator.kind,
        )->Ok_0;
        lemma_edges_from(
            program,
            mir,
            s,
            mir.basic_blocks.len() as nat,
            trap,
            (n - 1) as usize,
            &mir.basic_blocks[n - 1].terminator.kind,
        );
        lemma_branches_of_add(prev, own, j, (n - 1) as int, own.len());
    }
}

/// The blocks of a function and their edges.
///
/// In the blocks and edges of a function, the block with the index of a
/// basic block has the body, the condition and the kind of the block built
/// from it, and as branches those of the edges of its terminator, in
/// order. The block the function starts in is the last one.
pub proof fn lemma_cfg_blocks(program: &Program, mir: &Mir, frame: Frame, j: int)
    requires
        spec_collect(program, mir, frame, mir.basic_blocks.len() as nat) is Ok,
        spec_cfg(
            program,
            mir,
            frame,
            spec_collect(program, mir, frame, mir.basic_blocks.len() as nat)->Ok_0,
        ) is Ok,
        0 <= j < mir.basic_blocks.len(),
    ensures
        ({
            let n = mir.basic_blocks.len();
            let c = spec_collect(program, mir, frame, n as nat)->Ok_0;
            let cfg = spec_cfg(program, mir, frame, c)->Ok_0;
            let edges = spec_block_edges(
                program,
                mir,
                frame.slots,
                n as nat,
                n,
                j as usize,
                &mir.basic_blocks[j].terminator.kind,
            );
            &&& cfg.blocks.len() == n + 1 + if spec_has_assert(mir) {
                1int
            } else {
                0
            }
            &&& cfg.entry == (cfg.blocks.len() - 1) as usize
            &&& cfg.blocks.last() == spec_prologue(frame.sp_local, n as nat)
            &&& spec_has_assert(mir) ==> cfg.blocks[n as int] == spec_trap_block()
            &&& cfg.blocks[j].body == c.blocks[j].body
            &&& cfg.blocks[j].cond == c.blocks[j].cond
            &&& cfg.blocks[j].kind == c.blocks[j].kind
            &&& edges is Ok
            &&& cfg.blocks[j].branches == edges->Ok_0.map_values(
                |e: PendingEdgeView| spec_branch(e),
            )
        }),
{
    let n = mir.basic_blocks.len();
    let c = spec_collect(program, mir, frame, n as nat)->Ok_0;
    let edges = spec_edges(program, mir, frame.slots, n, n as nat)->Ok_0;
    super::emit::lemma_collect_blocks(program, mir, frame, n as nat);
    lemma_branches_of_block(program, mir, frame.slots, n, n as nat, j);
    let linked = with_edges(c.blocks, edges, edges.len());
    let cfg = spec_cfg(program, mir, frame, c)->Ok_0;
    assert(c.blocks.len() == n);
    assert(linked.len() == n);
    assert(c.blocks[j].branches == Seq::<BranchView>::empty());
    assert(linked[j].branches == c.blocks[j].branches + branches_of(edges, j, edges.len()));
    assert(Seq::<BranchView>::empty() + branches_of(edges, j, edges.len()) =~= branches_of(
        edges,
        j,
        edges.len(),
    ));
    let with_trap = if spec_has_assert(mir) {
        linked.push(spec_trap_block())
    } else {
        linked
    };
    assert(cfg.blocks == with_trap.push(spec_prologue(frame.sp_local, n as nat)));
    assert(with_trap[j] == linked[j]);
    assert(cfg.blocks[j] == linked[j]);
}

/// Every edge of a block leaves that block.
pub proof fn lemma_edges_from(
    program: &Program,
    mir: &Mir,
    s: Slots,
    n_blocks: nat,
    trap: usize,
    from: usize,
    kind: &TerminatorKind,
)
    requires
        spec_block_edges(program, mir, s, n_blocks, trap, from, kind) is Ok,
    ensures
        forall|a: int|
            0 <= a < spec_block_edges(program, mir, s, n_blocks, trap, from, kind)->Ok_0.len() ==> (
            #[trigger] spec_block_edges(program, mir, s, n_blocks, trap, from, kind)->Ok_0[a]).from
                == from,
{
    match kind {
        TerminatorKind::SwitchInt { discr, cases, otherwise } => {
            lemma_switch_complete(program, mir, s, n_blocks, trap, from, kind);
        },
        _ => {},
    }
}

proof fn lemma_branches_of_add(
    prev: Seq<PendingEdgeView>,
    own: Seq<PendingEdgeView>,
    j: int,
    from: int,
    m: nat,
)
    requires
        m <= own.len(),
        forall|a: int| 0 <= a < own.len() ==> (#[trigger] own[a]).from == from,
    ensures
        branches_of(prev + own, j, prev.len() + m) == if j == from {
            branches_of(prev, j, prev.len()) + own.subrange(0, m as int).map_values(
                |e: PendingEdgeView| spec_branch(e),
            )
        } else {
            branches_of(prev, j, prev.len())
        },
    decreases m,
{
    if m == 0 {
        lemma_branches_of_prefix(prev, own, j, prev.len());
        assert(own.subrange(0, 0).map_values(|e: PendingEdgeView| spec_branch(e)) =~= Seq::<
            BranchView,
        >::empty());
        assert(branches_of(prev, j, prev.len()) + Seq::<BranchView>::empty() =~= branches_of(
            prev,
            j,
            prev.len(),
        ));
    } else {
        lemma_branches_of_add(prev, own, j, from, (m - 1) as nat);
        assert((prev + own)[prev.len() + m - 1] == own[m - 1]);
        if j == from {
            assert(own.subrange(0, m as int).map_values(|e: PendingEdgeView| spec_branch(e))
                =~= own.subrange(0, m - 1).map_values(|e: PendingEdgeView| spec_branch(e)).push(
                spec_branch(own[m - 1]),
            ));
            assert(branches_of(prev, j, prev.len()) + own.subrange(0, m as int).map_values(
                |e: PendingEdgeView| spec_branch(e),
            ) =~= (branches_of(prev, j, prev.len()) + own.subrange(0, m - 1).map_values(
                |e: PendingEdgeView| spec_branch(e),
            )).push(spec_branch(own[m - 1])));
        }
    }
}

proof fn lemma_branches_of_prefix(
    prev: Seq<PendingEdgeView>,
    own: Seq<PendingEdgeView>,
    j: int,
    n: nat,
)
    requires
        n <= prev.len(),
    ensures
        branches_of(prev + own, j, n) == branches_of(prev, j, n),
    decreases n,
{
    if n > 0 {
        lemma_branches_of_prefix(prev, own, j, (n - 1) as nat);
        assert((prev + own)[n - 1] == prev[n - 1]);
    }
}

} // verus!
