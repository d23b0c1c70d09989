use mir2wasm::binaryen::builder::{ExpressionBuilder, Module, ReprType};
use mir2wasm::binaryen::ir::{Expr, Literal};
use mir2wasm::binaryen::relooper::{BlockKind, Branch, Relooper};

#[test]
fn create_relooper() {
    let _ = Relooper::new();
}

#[test]
fn add_block() {
    let m = Module::new();
    let mut r = Relooper::new();
    let _ = r.add_block_raw(m.unreachable().into());
}

#[test]
fn add_two_blocks() {
    let m = Module::new();
    let mut r = Relooper::new();
    let _ = r.add_block_raw(m.unreachable().into());
    let _ = r.add_block_raw(m.unreachable().into());
}

#[test]
fn blocks_get_consecutive_indices() {
    let m = Module::new();
    let mut r = Relooper::new();
    assert_eq!(r.num_blocks(), 0);
    assert_eq!(r.add_block(m.unreachable()), 0);
    assert_eq!(r.add_block_raw(Expr::Unreachable), 1);
    let b = r.add_block_raw_with_switch(Expr::Const(Literal::Int32(1)), Expr::Unreachable);
    assert_eq!(b.kind(), BlockKind::Switch);
    assert_eq!(b.cond(), &Some(Expr::Const(Literal::Int32(1))));
    assert_eq!(r.num_blocks(), 3);
    assert_eq!(r.block(0).kind(), BlockKind::Basic);
    assert_eq!(r.block(0).cond(), &None);
    assert_eq!(r.block(1).body(), &Expr::Unreachable);
}

#[test]
fn edges_are_kept_in_the_order_added() {
    let mut r = Relooper::new();
    r.add_block_raw(Expr::Unreachable);
    r.add_block_raw(Expr::Unreachable);
    r.add_block_raw_with_switch(Expr::Const(Literal::Int32(0)), Expr::Unreachable);
    r.block_mut(0).add_cond_branch_raw(Expr::Const(Literal::Int32(1)), 1);
    r.block_mut(0).add_goto(2);
    r.block_mut(2).add_switch_case(7, 0);
    r.block_mut(2).add_switch_case(9, 1);
    r.block_mut(2).add_switch_default(2);
    assert_eq!(
        r.block(0).branches(),
        &vec![
            Branch::Cond { cond: Expr::Const(Literal::Int32(1)), target: 1 },
            Branch::Goto { target: 2 },
        ]
    );
    assert!(r.block(1).branches().is_empty());
    assert_eq!(
        r.block(2).branches(),
        &vec![
            Branch::Case { key: 7, target: 0 },
            Branch::Case { key: 9, target: 1 },
            Branch::Default { target: 2 },
        ]
    );
}

#[test]
fn render_creates_the_helper_slot() {
    let mut m = Module::new();
    let mut f = m.create_func();
    f.add_arg(ReprType::Int64);
    let mut r = Relooper::new();
    r.add_block_raw(Expr::Unreachable);
    r.add_block_raw(Expr::Unreachable);
    let cfg = r.render(&mut f, 1);
    assert_eq!(cfg.entry, 1);
    assert_eq!(cfg.helper_local, 1);
    assert_eq!(cfg.blocks.len(), 2);
    assert_eq!(f.num_vars(), 2);
    assert_eq!(f.get_var(1).ty(), ReprType::Int32);
}

#[test]
fn render_with_uses_the_given_slot() {
    let mut r = Relooper::new();
    r.add_block_raw(Expr::Unreachable);
    let cfg = r.render_with(0, 5);
    assert_eq!(cfg.entry, 0);
    assert_eq!(cfg.helper_local, 5);
}
