//! Control edges: from the terminators of the basic blocks to the edges
//! between the blocks built from them.

use vstd::prelude::*;
use super::context::{BinaryenFnCtxt, Slots};
use super::operand::spec_operand;
use crate::binaryen::ir::{lemma_views_push, unary, views, Expr, ExprView, UnaryOp};
use crate::binaryen::relooper::{BlockKind, BlockView, BranchView, Relooper};
use crate::error::ErrorKind;
use crate::mir::{Mir, Program, SwitchCase, TerminatorKind};

verus! {

/// When an edge is taken.
#[derive(Debug, PartialEq, Eq)]
pub enum EdgeKind {
    /// When no other edge of the block is.
    Unconditional,
    /// When `cond` is nonzero, if `taken_on_true`; when it is zero, if not.
    Conditional { cond: Expr, taken_on_true: bool },
    /// When the condition the block switches on equals `value`.
    Case { value: u32 },
    /// When the condition the block switches on equals the value of no case.
    Otherwise,
}

pub ghost enum EdgeKindView {
    Unconditional,
    Conditional { cond: ExprView, taken_on_true: bool },
    Case { value: u32 },
    Otherwise,
}

impl View for EdgeKind {
    type V = EdgeKindView;

    open spec fn view(&self) -> EdgeKindView {
        match self {
            EdgeKind::Unconditional => EdgeKindView::Unconditional,
            EdgeKind::Conditional { cond, taken_on_true } => EdgeKindView::Conditional {
                cond: cond@,
                taken_on_true: *taken_on_true,
            },
            EdgeKind::Case { value } => EdgeKindView::Case { value: *value },
            EdgeKind::Otherwise => EdgeKindView::Otherwise,
        }
    }
}

/// A control edge between two blocks, named by their indices, that is
/// known but not yet part of the block it leaves.
#[derive(Debug, PartialEq, Eq)]
pub struct PendingEdge {
    pub from: usize,
    pub to: usize,
    pub kind: EdgeKind,
}

pub ghost struct PendingEdgeView {
    pub from: usize,
    pub to: usize,
    pub kind: EdgeKindView,
}

impl View for PendingEdge {
    type V = PendingEdgeView;

    open spec fn view(&self) -> PendingEdgeView {
        PendingEdgeView { from: self.from, to: self.to, kind: self.kind@ }
    }
}

/// Whether one of the first `k` cases selects on `value`.
pub open spec fn value_among(cases: Seq<SwitchCase>, k: nat, value: u64) -> bool {
    exists|j: int| 0 <= j < k && (#[trigger] cases[j]).value == value
}

/// The edges of the first `k` cases of a switch that ends the block
/// `from`: one for each case. The value of a case must fit in 32 bits and
/// differ from the values of the cases before it; its target must be one of
/// the `n_blocks` blocks.
pub open spec fn spec_case_edges(cases: Seq<SwitchCase>, from: usize, n_blocks: nat, k: nat)
    -> Result<Seq<PendingEdgeView>, ErrorKind>
    decreases k,
{
    if k == 0 {
        Ok(Seq::empty())
    } else {
        match spec_case_edges(cases, from, n_blocks, (k - 1) as nat) {
            Err(e) => Err(e),
            Ok(prev) => {
                let c = cases[k - 1];
                if c.value <= u32::MAX && c.target < n_blocks && !value_among(
                    cases,
                    (k - 1) as nat,
                    c.value,
                ) {
                    Ok(
                        prev.push(
                            PendingEdgeView {
                                from,
                                to: c.target,
                                kind: EdgeKindView::Case { value: c.value as u32 },
                            },
                        ),
                    )
                } else {
                    Err(ErrorKind::UnsupportedTerminator)
                }
            },
        }
    }
}

/// The edges that leave the block `from`, whose terminator is `kind`.
///
/// - A goto has one unconditional edge.
/// - A switch has an edge for each case and one for every other value.
/// - A return has none.
/// - A call has an unconditional edge to where it continues, if it does.
/// - An assertion has a conditional edge to its target, taken when the
///   condition is as expected, and an unconditional edge to the block
///   `trap`.
///
/// Every target must be one of the `n_blocks` blocks. No other terminator
/// is supported.
pub open spec fn spec_block_edges(
    program: &Program,
    mir: &Mir,
    s: Slots,
    n_blocks: nat,
    trap: usize,
    from: usize,
    kind: &TerminatorKind,
) -> Result<Seq<PendingEdgeView>, ErrorKind> {
    match kind {
        TerminatorKind::Goto { target } => if *target < n_blocks {
            Ok(seq![PendingEdgeView { from, to: *target, kind: EdgeKindView::Unconditional }])
        } else {
            Err(ErrorKind::UnsupportedTerminator)
        },
        TerminatorKind::SwitchInt { discr, cases, otherwise } => match spec_case_edges(
            cases@,
            from,
            n_blocks,
            cases.len() as nat,
        ) {
            Err(e) => Err(e),
            Ok(edges) => if *otherwise < n_blocks {
                Ok(
                    edges.push(
                        PendingEdgeView { from, to: *otherwise, kind: EdgeKindView::Otherwise },
                    ),
                )
            } else {
                Err(ErrorKind::UnsupportedTerminator)
            },
        },
        TerminatorKind::Return => Ok(Seq::empty()),
        TerminatorKind::Assert { cond, expected, target } => if *target < n_blocks {
            match spec_operand(program, mir, s, cond) {
                Err(e) => Err(e),
                Ok(c) => Ok(
                    seq![
                        PendingEdgeView {
                            from,
                            to: *target,
                            kind: EdgeKindView::Conditional { cond: c, taken_on_true: *expected },
                        },
                        PendingEdgeView { from, to: trap, kind: EdgeKindView::Unconditional },
                    ],
                ),
            }
        } else {
            Err(ErrorKind::UnsupportedTerminator)
        },
        TerminatorKind::Call { func, args, destination } => match destination {
            Some((_, target)) => if *target < n_blocks {
                Ok(
                    seq![
                        PendingEdgeView { from, to: *target, kind: EdgeKindView::Unconditional },
                    ],
                )
            } else {
                Err(ErrorKind::UnsupportedTerminator)
            },
            None => Ok(Seq::empty()),
        },
        TerminatorKind::Other => Err(ErrorKind::UnsupportedTerminator),
    }
}

/// The edges that leave the first `n` blocks of the body, block by block.
pub open spec fn spec_edges(program: &Program, mir: &Mir, s: Slots, trap: usize, n: nat) -> Result<
    Seq<PendingEdgeView>,
    ErrorKind,
>
    decreases n,
{
    if n == 0 {
        Ok(Seq::empty())
    } else {
        match spec_edges(program, mir, s, trap, (n - 1) as nat) {
            Err(e) => Err(e),
            Ok(prev) => match spec_block_edges(
                program,
                mir,
                s,
                mir.basic_blocks.len() as nat,
                trap,
                (n - 1) as usize,
                &mir.basic_blocks[n - 1].terminator.kind,
            ) {
                Err(e) => Err(e),
                Ok(edges) => Ok(prev + edges),
            },
        }
    }
}

/// Whether a block with the terminator `kind` is left by a switch.
pub open spec fn is_switch(kind: &TerminatorKind) -> bool {
    kind is SwitchInt
}

/// Whether the edge is of a kind that the block it leaves can have: case
/// edges leave blocks that switch, the other edges leave the other blocks.
pub open spec fn edge_fits(e: PendingEdgeView, mir: &Mir) -> bool {
    &&& e.from < mir.basic_blocks.len()
    &&& (e.kind is Case || e.kind is Otherwise) <==> is_switch(
        &mir.basic_blocks[e.from as int].terminator.kind,
    )
}

/// The branch an edge becomes in the block it leaves. An edge taken when
/// its condition is zero becomes a branch on the condition being zero.
pub open spec fn spec_branch(e: PendingEdgeView) -> BranchView {
    match e.kind {
        EdgeKindView::Unconditional => BranchView::Goto { target: e.to },
        EdgeKindView::Conditional { cond, taken_on_true } => BranchView::Cond {
            cond: if taken_on_true {
                cond
            } else {
                ExprView::Unary { op: UnaryOp::EqZInt32, value: Box::new(cond) }
            },
            target: e.to,
        },
        EdgeKindView::Case { value } => BranchView::Case { key: value, target: e.to },
        EdgeKindView::Otherwise => BranchView::Default { target: e.to },
    }
}

/// The branches that the first `n` of the edges `edges` give the block
/// `from`, in the order of the edges.
pub open spec fn branches_of(edges: Seq<PendingEdgeView>, from: int, n: nat) -> Seq<BranchView>
    decreases n,
{
    if n == 0 {
        Seq::empty()
    } else {
        let prev = branches_of(edges, from, (n - 1) as nat);
        if edges[n - 1].from == from {
            prev.push(spec_branch(edges[n - 1]))
        } else {
            prev
        }
    }
}

/// The blocks `blocks` after the first `n` of the edges `edges` were added
/// to the blocks they leave.
pub open spec fn with_edges(blocks: Seq<BlockView>, edges: Seq<PendingEdgeView>, n: nat) -> Seq<
    BlockView,
> {
    Seq::new(
        blocks.len(),
        |j: int|
            BlockView {
                branches: blocks[j].branches + branches_of(edges, j, n),
                ..blocks[j]
            },
    )
}

proof fn lemma_case_edges_fails(cases: Seq<SwitchCase>, from: usize, n_blocks: nat, n: nat, m: nat)
    requires
        n <= m,
        spec_case_edges(cases, from, n_blocks, n) is Err,
    ensures
        spec_case_edges(cases, from, n_blocks, m) == spec_case_edges(cases, from, n_blocks, n),
    decreases m,
{
    if n < m {
        lemma_case_edges_fails(cases, from, n_blocks, n, (m - 1) as nat);
    }
}

/// Once the edges of the first `n` blocks fail, those of the first `m`
/// blocks fail in the same way, for every `m` from `n` on.
pub proof fn lemma_edges_fails(program: &Program, mir: &Mir, s: Slots, trap: usize, n: nat, m: nat)
    requires
        n <= m,
        spec_edges(program, mir, s, trap, n) is Err,
    ensures
        spec_edges(program, mir, s, trap, m) == spec_edges(program, mir, s, trap, n),
    decreases m,
{
    if n < m {
        lemma_edges_fails(program, mir, s, trap, n, (m - 1) as nat);
    }
}

fn push_edge(edges: &mut Vec<PendingEdge>, e: PendingEdge)
    ensures
        views(final(edges)@) == views(old(edges)@).push(e@),
        final(edges)@.len() == old(edges)@.len() + 1,
{
    proof {
        lemma_views_push(edges@, e);
    }
    edges.push(e);
}

/// Whether one of the first `k` cases selects on `value`.
fn seen(cases: &Vec<SwitchCase>, k: usize, value: u64) -> (r: bool)
    requires
        k <= cases.len(),
    ensures
        r == value_among(cases@, k as nat, value),
{
    let mut j: usize = 0;
    while j < k
        invariant
            j <= k <= cases.len(),
            !value_among(cases@, j as nat, value),
        decreases k - j,
    {
        if cases[j].value == value {
            return true;
        }
        j += 1;
    }
    false
}

/// Whether every one of the edges `edges` leaves the block `from` and
/// fits it.
pub open spec fn all_fit(edges: Seq<PendingEdgeView>, mir: &Mir) -> bool {
    forall|i: int| 0 <= i < edges.len() ==> edge_fits(#[trigger] edges[i], mir)
}

impl BinaryenFnCtxt {
    /// Appends to `edges` the edges that leave the block `from`; see
    /// [`spec_block_edges`].
    pub(crate) fn block_edges(
        &self,
        program: &Program,
        mir: &Mir,
        trap: usize,
        from: usize,
        edges: &mut Vec<PendingEdge>,
    ) -> (r: Result<(), ErrorKind>)
        requires
            from < mir.basic_blocks.len(),
            all_fit(views(old(edges)@), mir),
        ensures
            match r {
                Ok(()) => {
                    let spec = spec_block_edges(
                        program,
                        mir,
                        self@,
                        mir.basic_blocks.len() as nat,
                        trap,
                        from,
                        &mir.basic_blocks[from as int].terminator.kind,
                    );
                    &&& spec is Ok
                    &&& views(final(edges)@) == views(old(edges)@) + spec->Ok_0
                    &&& all_fit(views(final(edges)@), mir)
                },
                Err(e) => spec_block_edges(
                    program,
                    mir,
                    self@,
                    mir.basic_blocks.len() as nat,
                    trap,
                    from,
                    &mir.basic_blocks[from as int].terminator.kind,
                ) == Err::<Seq<PendingEdgeView>, ErrorKind>(e),
            },
    {
        let ghost before = views(edges@);
        let n_blocks = mir.basic_blocks.len();
        let ghost spec = spec_block_edges(
            program,
            mir,
            self@,
            n_blocks as nat,
            trap,
            from,
            &mir.basic_blocks[from as int].terminator.kind,
        );
        match &mir.basic_blocks[from].terminator.kind {
            TerminatorKind::Goto { target } => {
                if *target >= n_blocks {
                    return Err(ErrorKind::UnsupportedTerminator);
                }
                push_edge(edges, PendingEdge { from, to: *target, kind: EdgeKind::Unconditional });
                proof {
                    assert(views(edges@) =~= before + spec->Ok_0);
                }
            },
            TerminatorKind::SwitchInt { discr, cases, otherwise } => {
                let mut k: usize = 0;
                proof {
                    assert(views(edges@) =~= before + Seq::<PendingEdgeView>::empty());
                }
                while k < cases.len()
                    invariant
                        k <= cases.len(),
                        from < mir.basic_blocks.len(),
                        n_blocks == mir.basic_blocks.len(),
                        mir.basic_blocks[from as int].terminator.kind == (
                        TerminatorKind::SwitchInt {
                            discr: *discr,
                            cases: *cases,
                            otherwise: *otherwise,
                        }),
                        all_fit(views(edges@), mir),
                        spec_case_edges(cases@, from, n_blocks as nat, k as nat) is Ok,
                        views(edges@) == before + spec_case_edges(
                            cases@,
                            from,
                            n_blocks as nat,
                            k as nat,
                        )->Ok_0,
                    ensures
                        k == cases.len(),
                    decreases cases.len() - k,
                {
                    let c = cases[k];
                    if c.value > u32::MAX as u64 || c.target >= n_blocks || seen(cases, k, c.value) {
                        proof {
                            lemma_case_edges_fails(
                                cases@,
                                from,
                                n_blocks as nat,
                                (k + 1) as nat,
                                cases.len() as nat,
                            );
                        }
                        return Err(ErrorKind::UnsupportedTerminator);
                    }
                    push_edge(
                        edges,
                        PendingEdge {
                            from,
                            to: c.target,
                            kind: EdgeKind::Case { value: c.value as u32 },
                        },
                    );
                    proof {
                        assert(views(edges@) =~= before + spec_case_edges(
                            cases@,
                            from,
                            n_blocks as nat,
                            (k + 1) as nat,
                        )->Ok_0);
                    }
                    k += 1;
                }
                if *otherwise >= n_blocks {
                    return Err(ErrorKind::UnsupportedTerminator);
                }
                push_edge(edges, PendingEdge { from, to: *otherwise, kind: EdgeKind::Otherwise });
                proof {
                    assert(views(edges@) =~= before + spec->Ok_0);
                }
            },
            TerminatorKind::Return => {
                // handled during block creation
                proof {
                    assert(views(edges@) =~= before + spec->Ok_0);
                }
            },
            TerminatorKind::Assert { cond, expected, target } => {
                if *target >= n_blocks {
                    return Err(ErrorKind::UnsupportedTerminator);
                }
                let c = self.trans_operand(program, mir, cond)?;
                push_edge(
                    edges,
                    PendingEdge {
                        from,
                        to: *target,
                        kind: EdgeKind::Conditional { cond: c, taken_on_true: *expected },
                    },
                );
                push_edge(edges, PendingEdge { from, to: trap, kind: EdgeKind::Unconditional });
                proof {
                    assert(views(edges@) =~= before + spec->Ok_0);
                }
            },
            TerminatorKind::Call { func, args, destination } => {
                match destination {
                    Some((_, target)) => {
                        if *target >= n_blocks {
                            return Err(ErrorKind::UnsupportedTerminator);
                        }
                        push_edge(
                            edges,
                            PendingEdge { from, to: *target, kind: EdgeKind::Unconditional },
                        );
                        proof {
                            assert(views(edges@) =~= before + spec->Ok_0);
                        }
                    },
                    None => {
                        proof {
                            assert(views(edges@) =~= before + spec->Ok_0);
                        }
                    },
                }
            },
            TerminatorKind::Other => {
                return Err(ErrorKind::UnsupportedTerminator);
            },
        }
        Ok(())
    }

    /// The edges that leave the blocks of the body, block by block; see
    /// [`spec_edges`].
    pub fn pending_edges(&self, program: &Program, mir: &Mir, trap: usize) -> (r: Result<
        Vec<PendingEdge>,
        ErrorKind,
    >)
        ensures
            match r {
                Ok(edges) => {
                    &&& spec_edges(program, mir, self@, trap, mir.basic_blocks.len() as nat)
                        == Ok::<Seq<PendingEdgeView>, ErrorKind>(views(edges@))
                    &&& all_fit(views(edges@), mir)
                },
                Err(e) => spec_edges(program, mir, self@, trap, mir.basic_blocks.len() as nat)
                    == Err::<Seq<PendingEdgeView>, ErrorKind>(e),
            },
    {
        let mut edges: Vec<PendingEdge> = Vec::new();
        let mut i: usize = 0;
        proof {
            assert(views(edges@) =~= Seq::<PendingEdgeView>::empty());
        }
        while i < mir.basic_blocks.len()
            invariant
                i <= mir.basic_blocks.len(),
                all_fit(views(edges@), mir),
                spec_edges(program, mir, self@, trap, i as nat) == Ok::<
                    Seq<PendingEdgeView>,
                    ErrorKind,
                >(views(edges@)),
            ensures
                i == mir.basic_blocks.len(),
            decreases mir.basic_blocks.len() - i,
        {
            match self.block_edges(program, mir, trap, i, &mut edges) {
                Ok(()) => {},
                Err(e) => {
                    proof {
                        lemma_edges_fails(
                            program,
                            mir,
                            self@,
                            trap,
                            (i + 1) as nat,
                            mir.basic_blocks.len() as nat,
                        );
                    }
                    return Err(e);
                },
            }
            i += 1;
        }
        Ok(edges)
    }
}

/// The list `v` from its last item to its first.
pub fn reversed<T>(v: Vec<T>) -> (r: Vec<T>)
    ensures
        r@.len() == v@.len(),
        forall|i: int| 0 <= i < r@.len() ==> r@[i] == v@[v@.len() - 1 - i],
{
    let mut v = v;
    let ghost all = v@;
    let mut r: Vec<T> = Vec::new();
    while v.len() > 0
        invariant
            v@ == all.subrange(0, v.len() as int),
            v.len() + r.len() == all.len(),
            forall|i: int| 0 <= i < r.len() ==> r@[i] == all[all.len() - 1 - i],
        decreases v.len(),
    {
        let ghost before = v@;
        let x = v.pop().unwrap();
        assert(x == before[before.len() - 1]);
        assert(v@ =~= all.subrange(0, v.len() as int));
        r.push(x);
    }
    r
}

/// Adds each of the edges `edges`, in order, to the block it leaves.
pub(crate) fn submit(relooper: &mut Relooper, mir: &Mir, edges: Vec<PendingEdge>)
    requires
        all_fit(views(edges@), mir),
        old(relooper)@.len() >= mir.basic_blocks.len(),
        forall|j: int|
            0 <= j < mir.basic_blocks.len() ==> ((#[trigger] old(relooper)@[j]).kind
                == BlockKind::Switch <==> is_switch(&mir.basic_blocks[j].terminator.kind)),
        forall|j: int|
            0 <= j < mir.basic_blocks.len() ==> (#[trigger] old(relooper)@[j]).kind
                == BlockKind::Switch || old(relooper)@[j].kind == BlockKind::Basic,
    ensures
        final(relooper)@ == with_edges(old(relooper)@, views(edges@), edges.len() as nat),
{
    let ghost all = views(edges@);
    let ghost start = relooper@;
    let ghost n = edges.len();
    let mut rest = reversed(edges);
    let mut k: usize = 0;
    proof {
        assert(relooper@ =~= with_edges(start, all, 0));
    }
    while rest.len() > 0
        invariant
            n == all.len(),
            k + rest.len() == n,
            all_fit(all, mir),
            start.len() >= mir.basic_blocks.len(),
            forall|i: int| 0 <= i < rest.len() ==> (#[trigger] rest@[i])@ == all[n - 1 - i],
            relooper@ == with_edges(start, all, k as nat),
            forall|j: int|
                0 <= j < mir.basic_blocks.len() ==> ((#[trigger] start[j]).kind
                    == BlockKind::Switch <==> is_switch(&mir.basic_blocks[j].terminator.kind)),
            forall|j: int|
                0 <= j < mir.basic_blocks.len() ==> (#[trigger] start[j]).kind
                    == BlockKind::Switch || start[j].kind == BlockKind::Basic,
        decreases rest.len(),
    {
        let e = rest.pop().unwrap();
        assert(e@ == all[k as int]);
        assert(edge_fits(all[k as int], mir));
        let ghost before = relooper@;
        assert(before[e.from as int].kind == start[e.from as int].kind);
        let from = e.from;
        let to = e.to;
        let block = relooper.block_mut(from);
        match e.kind {
            EdgeKind::Unconditional => block.add_goto(to),
            EdgeKind::Conditional { cond, taken_on_true } => {
                let cond = if taken_on_true {
                    cond
                } else {
                    unary(UnaryOp::EqZInt32, cond)
                };
                block.add_cond_branch_raw(cond, to)
            },
            EdgeKind::Case { value } => block.add_switch_case(value, to),
            EdgeKind::Otherwise => block.add_switch_default(to),
        }
        proof {
            assert(relooper@[from as int].branches == before[from as int].branches.push(
                spec_branch(all[k as int]),
            ));
            assert forall|j: int| 0 <= j < start.len() implies relooper@[j] == with_edges(
                start,
                all,
                (k + 1) as nat,
            )[j] by {
                if j == from {
                    assert(start[j].branches + branches_of(all, j, (k + 1) as nat) =~= (
                    start[j].branches + branches_of(all, j, k as nat)).push(
                        spec_branch(all[k as int]),
                    ));
                }
            }
            assert(relooper@ =~= with_edges(start, all, (k + 1) as nat));
        }
        k += 1;
    }
}

} // verus!
