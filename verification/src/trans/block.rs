//! Basic blocks: the instructions of the statements of a block and of the
//! effects of its terminator.

use vstd::prelude::*;
use super::assign::{appended, spec_assignment};
use super::calls::{spec_callee, spec_fn_ref, BinaryenCallKind, CalleeInfo, CalleeView};
use super::context::{BinaryenFnCtxt, Slots};
use super::frame::FrameInfo;
use super::names::spec_block_name;
use super::operand::{spec_consume, spec_operand, yields};
use super::place::{lval_ty, spec_lval, spec_lval_ty};
use super::stack::{spec_alloca, spec_copy, spec_write_sp};
use super::types::{frame_bits, has_layout, is_nil, layout_of, spec_frame_bits, type_layout};
use crate::binaryen::builder::ReprType;
use crate::binaryen::ir::{
    block, call, call_import, get_local, lemma_views_push, ret, set_local, store, trap, views,
    Expr, ExprView,
};
use crate::error::ErrorKind;
use crate::mir::{
    Layout, Lvalue, Mir, Operand, Program, Statement, StatementKind, TerminatorKind, TyKind,
};

verus! {

/// The instructions of the first `n` of the statements `stmts`, in order.
/// Assignments have instructions; the statements that mark where the
/// storage of a local begins and ends have none; no other statement is
/// supported.
pub open spec fn spec_statements(
    program: &Program,
    mir: &Mir,
    s: Slots,
    stmts: Seq<Statement>,
    n: nat,
) -> Result<Seq<ExprView>, ErrorKind>
    decreases n,
{
    if n == 0 {
        Ok(Seq::empty())
    } else {
        match spec_statements(program, mir, s, stmts, (n - 1) as nat) {
            Err(e) => Err(e),
            Ok(before) => match stmts[n - 1].kind {
                StatementKind::Assign(lvalue, rvalue) => match spec_assignment(
                    program,
                    mir,
                    s,
                    &lvalue,
                    &rvalue,
                ) {
                    Err(e) => Err(e),
                    Ok(code) => Ok(before + code),
                },
                StatementKind::StorageLive => Ok(before),
                StatementKind::StorageDead => Ok(before),
                StatementKind::Other => Err(ErrorKind::UnsupportedStatement),
            },
        }
    }
}

/// The instructions that yield the first `n` of the operands `operands`,
/// in order.
pub open spec fn spec_operands(
    program: &Program,
    mir: &Mir,
    s: Slots,
    operands: Seq<Operand>,
    n: nat,
) -> Result<Seq<ExprView>, ErrorKind>
    decreases n,
{
    if n == 0 {
        Ok(Seq::empty())
    } else {
        match spec_operands(program, mir, s, operands, (n - 1) as nat) {
            Err(e) => Err(e),
            Ok(before) => match spec_operand(program, mir, s, &operands[n - 1]) {
                Err(e) => Err(e),
                Ok(code) => Ok(before.push(code)),
            },
        }
    }
}

/// What the lowering of a terminator or of a block yields.
pub ghost struct Lowered {
    /// The instructions, in order.
    pub stmts: Seq<ExprView>,
    /// The condition the block switches on when it is left, if it does.
    pub cond: Option<ExprView>,
    /// How many slots were created on the way; each holds an address.
    pub created: nat,
}

/// The call instruction: direct or of an import.
pub open spec fn spec_call(callee: CalleeView, args: Seq<ExprView>) -> ExprView {
    match callee.kind {
        BinaryenCallKind::Direct => ExprView::Call {
            target: callee.name,
            operands: args,
            ty: callee.ret_ty,
        },
        BinaryenCallKind::Import => ExprView::CallImport {
            target: callee.name,
            operands: args,
            ty: callee.ret_ty,
        },
    }
}

/// The instructions of a call and of what becomes of its result, where
/// `n_vars` slots exist.
///
/// - A call that yields no value is made, and that is all. If it has no
///   destination and does not return, the instruction that traps follows.
/// - A value for a scalar or a C-style enum is written to the slot of the
///   destination.
/// - For a record or a tagged union the call yields the address of the
///   value. It is kept in a new slot; a frame of the size of the
///   destination's type is allocated, whose address the slot of the
///   destination receives; and the value is copied there piece by piece.
pub open spec fn spec_call_effect(
    program: &Program,
    mir: &Mir,
    s: Slots,
    n_vars: nat,
    callee: CalleeView,
    args: Seq<ExprView>,
    destination: Option<(Lvalue, usize)>,
) -> Result<Lowered, ErrorKind> {
    let b_call = spec_call(callee, args);
    match destination {
        None => Ok(
            Lowered {
                stmts: if callee.is_never {
                    seq![b_call, ExprView::Unreachable]
                } else {
                    seq![b_call]
                },
                cond: None,
                created: 0,
            },
        ),
        Some((lvalue, _)) => if callee.ret_ty is None {
            Ok(Lowered { stmts: seq![b_call], cond: None, created: 0 })
        } else {
            match spec_lval(program, mir, s, &lvalue) {
                Err(e) => Err(e),
                Ok(None) => Err(ErrorKind::UnsupportedPlace),
                Ok(Some(dest)) => match spec_lval_ty(mir, &lvalue) {
                    Err(e) => Err(e),
                    Ok(dest_ty) => if !has_layout(program, dest_ty) {
                        Err(ErrorKind::LayoutFailure)
                    } else {
                        match layout_of(program, dest_ty) {
                            Layout::Univariant { .. } | Layout::General { .. } => match spec_frame_bits(
                                program,
                                dest_ty,
                            ) {
                                Err(e) => Err(e),
                                Ok(bits) => Ok(
                                    Lowered {
                                        stmts: seq![
                                            ExprView::SetLocal {
                                                index: n_vars as usize,
                                                value: Box::new(b_call),
                                            },
                                            spec_alloca(dest.index, bits),
                                        ] + spec_copy(n_vars as usize, (bits / 8) as nat, 0),
                                        cond: None,
                                        created: 1,
                                    },
                                ),
                            },
                            Layout::Scalar | Layout::CEnum { .. } => Ok(
                                Lowered {
                                    stmts: seq![
                                        ExprView::SetLocal {
                                            index: dest.index,
                                            value: Box::new(b_call),
                                        },
                                    ],
                                    cond: None,
                                    created: 0,
                                },
                            ),
                            Layout::Other => Err(ErrorKind::UnsupportedLayout),
                        }
                    },
                },
            }
        },
    }
}

/// The restoring of the stack pointer from the slot `sp_local`, then the
/// return, with the value of local 0 unless the result is of unit type.
pub open spec fn spec_return(program: &Program, mir: &Mir, s: Slots, info: FrameInfo) -> Result<
    Seq<ExprView>,
    ErrorKind,
> {
    let restore = spec_write_sp(
        ExprView::GetLocal { index: info.sp_local, ty: Some(ReprType::Int32) },
    );
    if is_nil(info.ret_kind) {
        Ok(seq![restore, ExprView::Return { value: None }])
    } else {
        match spec_consume(program, mir, s, &Lvalue::Local(0)) {
            Err(e) => Err(e),
            Ok(value) => Ok(seq![restore, ExprView::Return { value: Some(Box::new(value)) }]),
        }
    }
}

/// The part of a terminator that is instructions of its block.
///
/// A return restores the stack pointer and returns. A call is made in the
/// block. A switch gives the block the condition it is left by. The other
/// terminators are edges only.
pub open spec fn spec_terminator(
    program: &Program,
    mir: &Mir,
    s: Slots,
    info: FrameInfo,
    n_vars: nat,
    kind: &TerminatorKind,
) -> Result<Lowered, ErrorKind> {
    match kind {
        TerminatorKind::Return => match spec_return(program, mir, s, info) {
            Err(e) => Err(e),
            Ok(stmts) => Ok(Lowered { stmts, cond: None, created: 0 }),
        },
        TerminatorKind::Call { func, args, destination } => match spec_fn_ref(func) {
            Err(e) => Err(e),
            Ok(f) => match spec_callee(program, f) {
                Err(e) => Err(e),
                Ok(callee) => match spec_operands(program, mir, s, args@, args.len() as nat) {
                    Err(e) => Err(e),
                    Ok(b_args) => spec_call_effect(
                        program,
                        mir,
                        s,
                        n_vars,
                        callee,
                        b_args,
                        *destination,
                    ),
                },
            },
        },
        TerminatorKind::SwitchInt { discr, .. } => match spec_operand(program, mir, s, discr) {
            Err(e) => Err(e),
            Ok(c) => Ok(Lowered { stmts: Seq::empty(), cond: Some(c), created: 0 }),
        },
        _ => Ok(Lowered { stmts: Seq::empty(), cond: None, created: 0 }),
    }
}

/// A basic block, lowered.
pub ghost struct LoweredBlock {
    /// The block of the instructions.
    pub body: ExprView,
    /// The condition the block switches on when it is left, if it does.
    pub cond: Option<ExprView>,
    /// How many slots were created on the way; each holds an address.
    pub created: nat,
}

/// The lowering of the basic block with index `i`: the instructions of its
/// statements, then those of its terminator, as one block named after `i`.
pub open spec fn spec_block(
    program: &Program,
    mir: &Mir,
    s: Slots,
    info: FrameInfo,
    n_vars: nat,
    i: nat,
) -> Result<LoweredBlock, ErrorKind> {
    let bb = mir.basic_blocks[i as int];
    match spec_statements(program, mir, s, bb.statements@, bb.statements.len() as nat) {
        Err(e) => Err(e),
        Ok(stmts) => match spec_terminator(program, mir, s, info, n_vars, &bb.terminator.kind) {
            Err(e) => Err(e),
            Ok(t) => Ok(
                LoweredBlock {
                    body: ExprView::Block {
                        name: Some(spec_block_name(i)),
                        children: stmts + t.stmts,
                    },
                    cond: t.cond,
                    created: t.created,
                },
            ),
        },
    }
}

/// Once the first `n` statements fail, the first `m` fail in the same way,
/// for every `m` from `n` on.
pub proof fn lemma_statements_fails(
    program: &Program,
    mir: &Mir,
    s: Slots,
    stmts: Seq<Statement>,
    n: nat,
    m: nat,
)
    requires
        n <= m,
        spec_statements(program, mir, s, stmts, n) is Err,
    ensures
        spec_statements(program, mir, s, stmts, m) == spec_statements(program, mir, s, stmts, n),
    decreases m,
{
    if n < m {
        lemma_statements_fails(program, mir, s, stmts, n, (m - 1) as nat);
    }
}

/// Once the first `n` operands fail, the first `m` fail in the same way,
/// for every `m` from `n` on.
pub proof fn lemma_operands_fails(
    program: &Program,
    mir: &Mir,
    s: Slots,
    operands: Seq<Operand>,
    n: nat,
    m: nat,
)
    requires
        n <= m,
        spec_operands(program, mir, s, operands, n) is Err,
    ensures
        spec_operands(program, mir, s, operands, m) == spec_operands(program, mir, s, operands, n),
    decreases m,
{
    if n < m {
        lemma_operands_fails(program, mir, s, operands, n, (m - 1) as nat);
    }
}

fn emit(statements: &mut Vec<Expr>, e: Expr)
    ensures
        views(final(statements)@) == views(old(statements)@).push(e@),
{
    proof {
        lemma_views_push(statements@, e);
    }
    statements.push(e);
}

impl BinaryenFnCtxt {
    /// The instructions of the statements `stmts`; see
    /// [`spec_statements`].
    pub fn trans_statements(&self, program: &Program, mir: &Mir, stmts: &Vec<Statement>) -> (r:
        Result<Vec<Expr>, ErrorKind>)
        ensures
            match r {
                Ok(code) => spec_statements(program, mir, self@, stmts@, stmts.len() as nat) == Ok::<
                    Seq<ExprView>,
                    ErrorKind,
                >(views(code@)),
                Err(e) => spec_statements(program, mir, self@, stmts@, stmts.len() as nat) == Err::<
                    Seq<ExprView>,
                    ErrorKind,
                >(e),
            },
    {
        let mut binaryen_stmts: Vec<Expr> = Vec::new();
        let mut i: usize = 0;
        proof {
            assert(views(binaryen_stmts@) =~= Seq::<ExprView>::empty());
        }
        while i < stmts.len()
            invariant
                i <= stmts.len(),
                spec_statements(program, mir, self@, stmts@, i as nat) == Ok::<
                    Seq<ExprView>,
                    ErrorKind,
                >(views(binaryen_stmts@)),
            ensures
                i == stmts.len(),
            decreases stmts.len() - i,
        {
            match &stmts[i].kind {
                StatementKind::Assign(lvalue, rvalue) => {
                    match self.trans_assignment(program, mir, lvalue, rvalue, &mut binaryen_stmts) {
                        Ok(()) => {},
                        Err(e) => {
                            proof {
                                lemma_statements_fails(
                                    program,
                                    mir,
                                    self@,
                                    stmts@,
                                    (i + 1) as nat,
                                    stmts.len() as nat,
                                );
                            }
                            return Err(e);
                        },
                    }
                },
                StatementKind::StorageLive => {},
                StatementKind::StorageDead => {},
                StatementKind::Other => {
                    proof {
                        lemma_statements_fails(
                            program,
                            mir,
                            self@,
                            stmts@,
                            (i + 1) as nat,
                            stmts.len() as nat,
                        );
                    }
                    return Err(ErrorKind::UnsupportedStatement);
                },
            }
            i += 1;
        }
        Ok(binaryen_stmts)
    }

    /// The instructions that yield the operands `operands`; see
    /// [`spec_operands`].
    pub fn trans_operands(&self, program: &Program, mir: &Mir, operands: &Vec<Operand>) -> (r:
        Result<Vec<Expr>, ErrorKind>)
        ensures
            match r {
                Ok(code) => spec_operands(program, mir, self@, operands@, operands.len() as nat)
                    == Ok::<Seq<ExprView>, ErrorKind>(views(code@)),
                Err(e) => spec_operands(program, mir, self@, operands@, operands.len() as nat)
                    == Err::<Seq<ExprView>, ErrorKind>(e),
            },
    {
        let mut b_args: Vec<Expr> = Vec::new();
        let mut i: usize = 0;
        proof {
            assert(views(b_args@) =~= Seq::<ExprView>::empty());
        }
        while i < operands.len()
            invariant
                i <= operands.len(),
                spec_operands(program, mir, self@, operands@, i as nat) == Ok::<
                    Seq<ExprView>,
                    ErrorKind,
                >(views(b_args@)),
            ensures
                i == operands.len(),
            decreases operands.len() - i,
        {
            match self.trans_operand(program, mir, &operands[i]) {
                Ok(a) => {
                    emit(&mut b_args, a);
                },
                Err(e) => {
                    proof {
                        lemma_operands_fails(
                            program,
                            mir,
                            self@,
                            operands@,
                            (i + 1) as nat,
                            operands.len() as nat,
                        );
                    }
                    return Err(e);
                },
            }
            i += 1;
        }
        Ok(b_args)
    }

    /// Appends the restoring of the stack pointer and the return; see
    /// [`spec_return`].
    pub fn trans_return(
        &self,
        program: &Program,
        mir: &Mir,
        info: FrameInfo,
        statements: &mut Vec<Expr>,
    ) -> (r: Result<(), ErrorKind>)
        ensures
            appended(
                r,
                old(statements)@,
                final(statements)@,
                spec_return(program, mir, self@, info),
            ),
    {
        let ghost before = views(statements@);
        // Function epilogue
        let read_saved_sp = get_local(info.sp_local, Some(ReprType::Int32));
        let restore_saved_sp = store(
            4,
            0,
            0,
            self.emit_sp(),
            read_saved_sp,
            Some(ReprType::Int32),
        );
        let expr = match info.ret_kind {
            TyKind::Nil => None,
            _ => {
                // Local 0 is guaranteed to be return pointer
                Some(self.trans_consume(program, mir, &Lvalue::Local(0))?)
            },
        };
        emit(statements, restore_saved_sp);
        emit(statements, ret(expr));
        proof {
            assert(views(statements@) =~= before + spec_return(program, mir, self@, info)->Ok_0);
        }
        Ok(())
    }

    /// Appends the instructions of a call of `callee` on `b_args` and of
    /// what becomes of its result; see [`spec_call_effect`].
    pub fn trans_call(
        &mut self,
        program: &Program,
        mir: &Mir,
        callee: CalleeInfo,
        b_args: Vec<Expr>,
        destination: &Option<(Lvalue, usize)>,
        statements: &mut Vec<Expr>,
    ) -> (r: Result<(), ErrorKind>)
        requires
            old(self).func.wf(),
        ensures
            final(self)@ == old(self)@,
            final(self).did == old(self).did,
            final(self).sig == old(self).sig,
            final(self).func.wf(),
            final(self).func.arg_count() == old(self).func.arg_count(),
            match r {
                Ok(()) => {
                    let spec = spec_call_effect(
                        program,
                        mir,
                        old(self)@,
                        old(self).func.vars().len(),
                        callee@,
                        views(b_args@),
                        *destination,
                    );
                    &&& spec is Ok
                    &&& views(final(statements)@) == views(old(statements)@) + spec->Ok_0.stmts
                    &&& final(self).func.var_tys() == old(self).func.var_tys() + Seq::new(
                        spec->Ok_0.created,
                        |k: int| ReprType::Int32,
                    )
                },
                Err(e) => spec_call_effect(
                    program,
                    mir,
                    old(self)@,
                    old(self).func.vars().len(),
                    callee@,
                    views(b_args@),
                    *destination,
                ) == Err::<Lowered, ErrorKind>(e),
            },
    {
        let ghost before = views(statements@);
        let ghost spec = spec_call_effect(
            program,
            mir,
            self@,
            self.func.vars().len(),
            callee@,
            views(b_args@),
            *destination,
        );
        let ghost tys = self.func.var_tys();
        let b_fnty = callee.ret_ty;
        let never = callee.is_never;
        let b_call = match callee.kind {
            BinaryenCallKind::Direct => call(callee.name, b_args, callee.ret_ty),
            BinaryenCallKind::Import => call_import(callee.name, b_args, callee.ret_ty),
        };
        assert(b_call@ == super::block::spec_call(callee@, views(b_args@)));
        match destination {
            Some((lvalue, _)) => {
                if b_fnty.is_none() {
                    // The result of the call is put into a local, but the
                    // function called returns no value
                    emit(statements, b_call);
                    proof {
                        assert(views(statements@) =~= before + spec->Ok_0.stmts);
                        assert(self.func.var_tys() =~= tys + Seq::new(0, |k: int| ReprType::Int32));
                    }
                } else {
                    let dest = match self.trans_lval(program, mir, lvalue)? {
                        Some(d) => d,
                        None => return Err(ErrorKind::UnsupportedPlace),
                    };
                    let dest_ty = lval_ty(mir, lvalue)?;
                    let dest_layout = type_layout(program, dest_ty)?;
                    match dest_layout {
                        Layout::Univariant { .. } | Layout::General { .. } => {
                            let dest_size = frame_bits(program, dest_ty)?;
                            let tmp_dest = self.func.create_local(ReprType::Int32).index();
                            emit(statements, set_local(tmp_dest, b_call));
                            let allocation = self.emit_alloca(dest.index, dest_size);
                            emit(statements, allocation);
                            self.emit_copy(tmp_dest, dest_size / 8, statements);
                            proof {
                                assert(views(statements@) =~= before + spec->Ok_0.stmts);
                                assert(self.func.var_tys() =~= tys + Seq::new(
                                    1,
                                    |k: int| ReprType::Int32,
                                ));
                            }
                        },
                        Layout::Scalar | Layout::CEnum { .. } => {
                            emit(statements, set_local(dest.index, b_call));
                            proof {
                                assert(views(statements@) =~= before + spec->Ok_0.stmts);
                                assert(self.func.var_tys() =~= tys + Seq::new(
                                    0,
                                    |k: int| ReprType::Int32,
                                ));
                            }
                        },
                        Layout::Other => {
                            return Err(ErrorKind::UnsupportedLayout);
                        },
                    }
                }
            },
            None => {
                emit(statements, b_call);
                if never {
                    emit(statements, trap());
                }
                proof {
                    assert(views(statements@) =~= before + spec->Ok_0.stmts);
                    assert(self.func.var_tys() =~= tys + Seq::new(0, |k: int| ReprType::Int32));
                }
            },
        }
        Ok(())
    }
}

} // verus!
