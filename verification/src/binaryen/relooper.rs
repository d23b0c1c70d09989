//! The set of blocks and control edges of one function, as it is handed to
//! structured-control synthesis.

use vstd::prelude::*;
use super::builder::{Expression, Fn, ReprType};
use super::ir::{views, Expr, ExprView};

verus! {

/// Whether a block leaves by plain branches or by a switch on a condition.
#[derive(Copy, Clone, Debug, PartialEq, Eq, Structural)]
pub enum BlockKind {
    Basic,
    Switch,
}

/// A control edge out of a block, to the block at index `target`.
#[derive(Debug, PartialEq, Eq)]
pub enum Branch {
    /// Taken when no conditional edge of the block is.
    Goto { target: usize },
    /// Taken when `cond` evaluates to a nonzero value.
    Cond { cond: Expr, target: usize },
    /// Taken when the switch condition of the block equals `key`.
    Case { key: u32, target: usize },
    /// Taken when the switch condition equals the key of no case.
    Default { target: usize },
}

pub ghost enum BranchView {
    Goto { target: usize },
    Cond { cond: ExprView, target: usize },
    Case { key: u32, target: usize },
    Default { target: usize },
}

impl BranchView {
    pub open spec fn target(self) -> usize {
        match self {
            BranchView::Goto { target } => target,
            BranchView::Cond { target, .. } => target,
            BranchView::Case { target, .. } => target,
            BranchView::Default { target } => target,
        }
    }
}

impl View for Branch {
    type V = BranchView;

    open spec fn view(&self) -> BranchView {
        match self {
            Branch::Goto { target } => BranchView::Goto { target: *target },
            Branch::Cond { cond, target } => BranchView::Cond { cond: cond@, target: *target },
            Branch::Case { key, target } => BranchView::Case { key: *key, target: *target },
            Branch::Default { target } => BranchView::Default { target: *target },
        }
    }
}

/// A block: the code it runs, then the edges by which it leaves, in the
/// order in which they were added.
#[derive(Debug, PartialEq, Eq)]
pub struct Block {
    body: Expr,
    cond: Option<Expr>,
    kind: BlockKind,
    branches: Vec<Branch>,
}

pub ghost struct BlockView {
    pub body: ExprView,
    pub cond: Option<ExprView>,
    pub kind: BlockKind,
    pub branches: Seq<BranchView>,
}

impl View for Block {
    type V = BlockView;

    closed spec fn view(&self) -> BlockView {
        BlockView {
            body: self.body@,
            cond: match self.cond {
                Some(c) => Some(c@),
                None => None,
            },
            kind: self.kind,
            branches: views(self.branches@),
        }
    }
}

impl Block {
    /// The code the block runs.
    pub fn body(&self) -> (r: &Expr)
        ensures
            r@ == self@.body,
    {
        &self.body
    }

    /// The condition the block switches on when it is left, if it does.
    pub fn cond(&self) -> (r: &Option<Expr>)
        ensures
            match *r {
                Some(c) => self@.cond == Some(c@),
                None => self@.cond is None,
            },
    {
        &self.cond
    }

    pub fn kind(&self) -> (r: BlockKind)
        ensures
            r == self@.kind,
    {
        match self.kind {
            BlockKind::Basic => BlockKind::Basic,
            BlockKind::Switch => BlockKind::Switch,
        }
    }

    /// The edges by which the block is left, in the order in which they
    /// were added.
    pub fn branches(&self) -> (r: &Vec<Branch>)
        ensures
            views(r@) == self@.branches,
    {
        &self.branches
    }

    fn push_branch(&mut self, b: Branch)
        ensures
            final(self)@ == (BlockView { branches: old(self)@.branches.push(b@), ..old(self)@ }),
    {
        proof {
            super::ir::lemma_views_push(self.branches@, b);
        }
        self.branches.push(b);
    }

    /// Adds the edge taken when no conditional edge is.
    pub fn add_goto(&mut self, to: usize)
        requires
            old(self)@.kind == BlockKind::Basic,
        ensures
            final(self)@ == (BlockView {
                branches: old(self)@.branches.push(BranchView::Goto { target: to }),
                ..old(self)@
            }),
    {
        self.push_branch(Branch::Goto { target: to });
    }

    /// Adds an edge taken when `cond` is nonzero.
    pub fn add_cond_branch_raw(&mut self, cond: Expr, target: usize)
        requires
            old(self)@.kind == BlockKind::Basic,
        ensures
            final(self)@ == (BlockView {
                branches: old(self)@.branches.push(BranchView::Cond { cond: cond@, target }),
                ..old(self)@
            }),
    {
        self.push_branch(Branch::Cond { cond, target });
    }

    /// Adds the edge taken when the switch condition equals `key`.
    pub fn add_switch_case(&mut self, key: u32, target: usize)
        requires
            old(self)@.kind == BlockKind::Switch,
        ensures
            final(self)@ == (BlockView {
                branches: old(self)@.branches.push(BranchView::Case { key, target }),
                ..old(self)@
            }),
    {
        self.push_branch(Branch::Case { key, target });
    }

    /// Adds the edge taken when the switch condition equals no case's key.
    pub fn add_switch_default(&mut self, target: usize)
        requires
            old(self)@.kind == BlockKind::Switch,
        ensures
            final(self)@ == (BlockView {
                branches: old(self)@.branches.push(BranchView::Default { target }),
                ..old(self)@
            }),
    {
        self.push_branch(Branch::Default { target });
    }
}

/// The blocks of one function, the block to start in, and the slot that
/// structured-control synthesis may use to encode irreducible control flow.
#[derive(Debug, PartialEq, Eq)]
pub struct Cfg {
    pub blocks: Vec<Block>,
    pub entry: usize,
    pub helper_local: usize,
}

pub ghost struct CfgView {
    pub blocks: Seq<BlockView>,
    pub entry: usize,
    pub helper_local: usize,
}

impl View for Cfg {
    type V = CfgView;

    open spec fn view(&self) -> CfgView {
        CfgView { blocks: views(self.blocks@), entry: self.entry, helper_local: self.helper_local }
    }
}

/// Collects the blocks of one function and the edges between them.
#[derive(Debug, PartialEq, Eq)]
pub struct Relooper {
    blocks: Vec<Block>,
}

impl View for Relooper {
    type V = Seq<BlockView>;

    closed spec fn view(&self) -> Seq<BlockView> {
        views(self.blocks@)
    }
}

impl Relooper {
    pub fn new() -> (r: Relooper)
        ensures
            r@ == Seq::<BlockView>::empty(),
    {
        let r = Relooper { blocks: Vec::new() };
        assert(r@ =~= Seq::<BlockView>::empty());
        r
    }

    pub fn num_blocks(&self) -> (n: usize)
        ensures
            n == self@.len(),
    {
        self.blocks.len()
    }

    /// Adds a basic block that runs `body` and returns its index.
    pub fn add_block(&mut self, body: Expression) -> (r: usize)
        ensures
            r == old(self)@.len(),
            final(self)@ == old(self)@.push(
                BlockView {
                    body: body.expr(),
                    cond: None,
                    kind: BlockKind::Basic,
                    branches: Seq::empty(),
                },
            ),
    {
        self.add_block_raw(body.into_expr())
    }

    /// Adds a basic block that runs `body` and returns its index.
    pub fn add_block_raw(&mut self, body: Expr) -> (r: usize)
        ensures
            r == old(self)@.len(),
            final(self)@ == old(self)@.push(
                BlockView {
                    body: body@,
                    cond: None,
                    kind: BlockKind::Basic,
                    branches: Seq::empty(),
                },
            ),
    {
        self.push_block_raw(body, None, BlockKind::Basic);
        self.blocks.len() - 1
    }

    /// Adds a block that runs `body` and then leaves by a switch on `cond`.
    pub fn add_block_raw_with_switch(&mut self, cond: Expr, body: Expr) -> (r: &Block)
        ensures
            r@ == (BlockView {
                body: body@,
                cond: Some(cond@),
                kind: BlockKind::Switch,
                branches: Seq::empty(),
            }),
            final(self)@ == old(self)@.push(r@),
    {
        self.push_block_raw(body, Some(cond), BlockKind::Switch)
    }

    fn push_block_raw(&mut self, body: Expr, cond: Option<Expr>, kind: BlockKind) -> (r: &Block)
        ensures
            r@ == (BlockView {
                body: body@,
                cond: match cond {
                    Some(c) => Some(c@),
                    None => None,
                },
                kind,
                branches: Seq::empty(),
            }),
            final(self)@ == old(self)@.push(r@),
            final(self).blocks.len() == old(self).blocks.len() + 1,
    {
        let block = Block { body: body, cond: cond, kind: kind, branches: Vec::new() };
        assert(block@.branches =~= Seq::empty());
        proof {
            super::ir::lemma_views_push(self.blocks@, block);
        }
        self.blocks.push(block);
        &self.blocks[self.blocks.len() - 1]
    }

    /// The block at `index`.
    pub fn block(&self, index: usize) -> (r: &Block)
        requires
            index < self@.len(),
        ensures
            r@ == self@[index as int],
    {
        &self.blocks[index]
    }

    /// The block at `index`, to add edges to.
    pub fn block_mut(&mut self, index: usize) -> (r: &mut Block)
        requires
            index < old(self)@.len(),
        ensures
            r@ == old(self)@[index as int],
            final(self)@ == old(self)@.update(index as int, final(r)@),
    {
        proof {
            assert forall|b: Block|
                views(self.blocks@.update(index as int, b)) == views(self.blocks@).update(
                    index as int,
                    b@,
                ) by {
                assert(views(self.blocks@.update(index as int, b)) =~= views(self.blocks@).update(
                    index as int,
                    b@,
                ));
            }
        }
        &mut self.blocks[index]
    }

    /// Closes the set: creates in `func` the helper slot for irreducible
    /// control flow and hands out the blocks with `start` as entry.
    pub fn render(self, func: &mut Fn, start: usize) -> (r: Cfg)
        requires
            old(func).wf(),
            start < self@.len(),
        ensures
            r@ == (CfgView {
                blocks: self@,
                entry: start,
                helper_local: old(func).vars().len() as usize,
            }),
            final(func).wf(),
            final(func).vars().len() == old(func).vars().len() + 1,
            final(func).vars().subrange(0, old(func).vars().len() as int) == old(func).vars(),
            final(func).vars().last().ty() == ReprType::Int32,
            final(func).arg_count() == old(func).arg_count(),
            final(func).sealed(),
    {
        let ghost before = func.vars();
        let local = func.create_local(ReprType::Int32).index();
        assert(func.vars().subrange(0, before.len() as int) =~= before);
        self.render_with(start, local)
    }

    /// Closes the set and hands out the blocks with `start` as entry and
    /// the slot `helper_local` as helper slot.
    pub fn render_with(self, start: usize, helper_local: usize) -> (r: Cfg)
        requires
            start < self@.len(),
        ensures
            r@ == (CfgView { blocks: self@, entry: start, helper_local }),
    {
        Cfg { blocks: self.blocks, entry: start, helper_local }
    }
}

} // verus!
