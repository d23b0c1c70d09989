//! What the lowering of one function yields: the function as a
//! mathematical value.

use vstd::prelude::*;
use super::block::{spec_block, LoweredBlock};
use super::calls::spec_symbol;
use super::edges::{spec_edges, with_edges};
use super::frame::{spec_args, spec_frame, Frame};
use super::stack::spec_read_sp;
use super::types::is_nil;
use crate::binaryen::builder::{BodyView, ReprType, Type};
use crate::binaryen::ir::ExprView;
use crate::binaryen::relooper::{BlockKind, BlockView, BranchView, CfgView};
use crate::error::{ErrorKind, TransError};
use crate::mir::{DefId, Mir, Program, SigId};

verus! {

/// The blocks built from basic blocks, before any edge is added.
pub ghost struct Collected {
    pub blocks: Seq<BlockView>,
    /// How many slots were created on the way; each holds an address.
    pub created: nat,
}

/// The block built from a lowered basic block: one that switches if the
/// basic block has a condition to switch on.
pub open spec fn spec_collected_block(b: LoweredBlock) -> BlockView {
    BlockView {
        body: b.body,
        cond: b.cond,
        kind: if b.cond is Some {
            BlockKind::Switch
        } else {
            BlockKind::Basic
        },
        branches: Seq::empty(),
    }
}

/// The blocks built from the first `n` basic blocks, in order. A slot
/// created for one block exists for the blocks after it.
pub open spec fn spec_collect(program: &Program, mir: &Mir, frame: Frame, n: nat) -> Result<
    Collected,
    ErrorKind,
>
    decreases n,
{
    if n == 0 {
        Ok(Collected { blocks: Seq::empty(), created: 0 })
    } else {
        match spec_collect(program, mir, frame, (n - 1) as nat) {
            Err(e) => Err(e),
            Ok(prev) => match spec_block(
                program,
                mir,
                frame.slots,
                frame.info(),
                frame.tys.len() + prev.created,
                (n - 1) as nat,
            ) {
                Err(e) => Err(e),
                Ok(b) => Ok(
                    Collected {
                        blocks: prev.blocks.push(spec_collected_block(b)),
                        created: prev.created + b.created,
                    },
                ),
            },
        }
    }
}

/// Once the first `n` basic blocks fail, the first `m` fail in the same
/// way, for every `m` from `n` on.
pub proof fn lemma_collect_fails(program: &Program, mir: &Mir, frame: Frame, n: nat, m: nat)
    requires
        n <= m,
        spec_collect(program, mir, frame, n) is Err,
    ensures
        spec_collect(program, mir, frame, m) == spec_collect(program, mir, frame, n),
    decreases m,
{
    if n < m {
        lemma_collect_fails(program, mir, frame, n, (m - 1) as nat);
    }
}

/// Whether a basic block of the body ends in an assertion.
pub open spec fn spec_has_assert(mir: &Mir) -> bool {
    exists|i: int|
        0 <= i < mir.basic_blocks.len() && (#[trigger] mir.basic_blocks[i]).terminator.kind is Assert
}

/// The block that a failed assertion leads to: it traps.
pub open spec fn spec_trap_block() -> BlockView {
    BlockView {
        body: ExprView::Unreachable,
        cond: None,
        kind: BlockKind::Basic,
        branches: Seq::empty(),
    }
}

/// The block a function starts in: it saves the stack pointer in the slot
/// `sp_local` and goes on to the first basic block, if there is one.
pub open spec fn spec_prologue(sp_local: usize, n_blocks: nat) -> BlockView {
    BlockView {
        body: ExprView::SetLocal { index: sp_local, value: Box::new(spec_read_sp()) },
        cond: None,
        kind: BlockKind::Basic,
        branches: if n_blocks > 0 {
            seq![BranchView::Goto { target: 0 }]
        } else {
            Seq::empty()
        },
    }
}

/// The blocks and edges of a function.
///
/// First come the blocks built from the basic blocks, under the same
/// indices and with the edges of their terminators. The block that traps
/// follows if an assertion needs it. The last block is the prologue, in
/// which the function starts.
pub open spec fn spec_cfg(program: &Program, mir: &Mir, frame: Frame, c: Collected) -> Result<
    CfgView,
    ErrorKind,
> {
    let n = mir.basic_blocks.len();
    match spec_edges(program, mir, frame.slots, n, n as nat) {
        Err(e) => Err(e),
        Ok(edges) => {
            let linked = with_edges(c.blocks, edges, edges.len());
            let with_trap = if spec_has_assert(mir) {
                linked.push(spec_trap_block())
            } else {
                linked
            };
            Ok(
                CfgView {
                    blocks: with_trap.push(spec_prologue(frame.sp_local, n as nat)),
                    entry: with_trap.len() as usize,
                    helper_local: frame.relooper_local,
                },
            )
        },
    }
}

/// A function as the lowering emits it.
pub ghost struct FunctionSpec {
    pub name: Seq<char>,
    /// The types of the parameters and of the result.
    pub params: Seq<ReprType>,
    pub result: Type,
    /// The types of the slots that are not parameters.
    pub var_types: Seq<ReprType>,
    pub body: BodyView,
    /// Whether the function is exported, under its own name.
    pub exported: bool,
}

/// The function that the definition `did` is lowered to at the signature
/// `sig`, where `entry_fn` is the entry point of the program.
///
/// The definition must have a body and no link metadata. The function that
/// stands for a panic has a body that traps and is not exported. An entry
/// point without exactly two parameters must return the unit type.
pub open spec fn spec_function(
    program: &Program,
    entry_fn: Option<DefId>,
    did: DefId,
    sig: SigId,
) -> Result<FunctionSpec, ErrorKind> {
    if did >= program.defs.len() || sig >= program.sigs.len() {
        Err(ErrorKind::UnsupportedCallee)
    } else if program.defs[did as int].link is Some || program.defs[did as int].mir is None {
        Err(ErrorKind::UnsupportedCallee)
    } else {
        let mir = &program.defs[did as int].mir->0;
        match spec_frame(program, mir, sig) {
            Err(e) => Err(e),
            Ok(frame) => match spec_collect(program, mir, frame, mir.basic_blocks.len() as nat) {
                Err(e) => Err(e),
                Ok(c) => match spec_cfg(program, mir, frame, c) {
                    Err(e) => Err(e),
                    Ok(cfg) => if entry_fn == Some(did) && frame.slots.num_args != 2 && !is_nil(
                        frame.ret_kind,
                    ) {
                        Err(ErrorKind::UnsupportedType)
                    } else {
                        let tys = frame.tys + Seq::new(c.created, |k: int| ReprType::Int32);
                        let panics = program.panic_fn == Some(did);
                        Ok(
                            FunctionSpec {
                                name: spec_symbol(program, did),
                                params: spec_args(
                                    program,
                                    program.sigs[sig as int].inputs@,
                                    program.sigs[sig as int].inputs.len() as nat,
                                )->Ok_0,
                                result: frame.ret,
                                var_types: tys.subrange(
                                    frame.slots.num_args as int,
                                    tys.len() as int,
                                ),
                                body: if panics {
                                    BodyView::Expr(ExprView::Unreachable)
                                } else {
                                    BodyView::Cfg(cfg)
                                },
                                exported: !panics,
                            },
                        )
                    },
                },
            },
        }
    }
}

/// Whether the failure `e` is one of the lowering of the function it
/// names: the lowering of that definition at that signature fails, in the
/// way `e` says.
pub open spec fn genuine(program: &Program, entry_fn: Option<DefId>, e: TransError) -> bool {
    spec_function(program, entry_fn, e.did, e.sig) == Err::<FunctionSpec, ErrorKind>(e.kind)
}

} // verus!
