use mir2wasm::binaryen::builder::{
    copy_types, Expression, ExpressionBuilder, Memory, Module, ReprType,
};
use mir2wasm::binaryen::ir::{Expr, Literal};

#[test]
fn create_module() {
    let _ = Module::new();
}

#[test]
fn set_memory() {
    for _ in 0..33 {
        let mut m = Module::new();
        m.set_memory(0);
    }
}

#[test]
fn create_func() {
    let mut m = Module::new();
    let _ = m.create_func();
}

#[test]
fn build_unreachable_from_module() {
    let m = Module::new();
    m.unreachable();
}

#[test]
fn build_unreachable_from_fn() {
    let mut m = Module::new();
    let f = m.create_func();
    f.unreachable();
}

#[test]
fn module_starts_empty() {
    let m = Module::new();
    assert!(!m.auto_drop);
    assert_eq!(m.memory, None);
    assert!(m.function_types.is_empty());
    assert!(m.functions.is_empty());
    assert!(m.imports.is_empty());
    assert!(m.exports.is_empty());
    assert_eq!(m.start, None);
}

#[test]
fn auto_drop_is_recorded() {
    let mut m = Module::new();
    m.auto_drop();
    assert!(m.auto_drop);
    assert!(m.functions.is_empty());
}

#[test]
fn set_memory_records_pages_and_export() {
    let mut m = Module::new();
    m.set_memory(3);
    assert_eq!(
        m.memory,
        Some(Memory { initial: 3, maximum: 3, export_name: Some("memory".to_string()) })
    );
    m.set_memory_raw(1, 2, None);
    assert_eq!(m.memory, Some(Memory { initial: 1, maximum: 2, export_name: None }));
}

#[test]
fn repr_type_sizes() {
    assert_eq!(ReprType::Int32.size(), 4);
    assert_eq!(ReprType::Float32.size(), 4);
    assert_eq!(ReprType::Int64.size(), 8);
    assert_eq!(ReprType::Float64.size(), 8);
}

#[test]
fn slots_are_appended_in_order() {
    let mut m = Module::new();
    let mut f = m.create_func();
    assert_eq!(f.num_vars(), 0);
    assert_eq!(f.add_arg(ReprType::Int32).index(), 0);
    assert_eq!(f.add_arg(ReprType::Int64).index(), 1);
    let v = *f.create_local(ReprType::Float64);
    assert_eq!(v.index(), 2);
    assert_eq!(v.ty(), ReprType::Float64);
    assert_eq!(f.create_local(ReprType::Int32).index(), 3);
    assert_eq!(f.num_args(), 2);
    assert_eq!(f.num_vars(), 4);
    assert_eq!(f.num_locals(), 2);
    assert_eq!(f.get_var(1).ty(), ReprType::Int64);
    assert_eq!(f.get_var(1).index(), 1);
    assert_eq!(f.binaryen_var_types(), vec![ReprType::Float64, ReprType::Int32]);
}

#[test]
fn typed_local_access() {
    let mut m = Module::new();
    let mut f = m.create_func();
    f.add_arg(ReprType::Int32);
    f.create_local(ReprType::Int64);
    let get = f.get_local(1);
    assert_eq!(get.ty(), Some(ReprType::Int64));
    assert_eq!(get.into_expr(), Expr::GetLocal { index: 1, ty: Some(ReprType::Int64) });
    let set = f.set_local(0, f.int32(7));
    assert_eq!(set.ty(), None);
    assert_eq!(
        set.into_expr(),
        Expr::SetLocal { index: 0, value: Box::new(Expr::Const(Literal::Int32(7))) }
    );
    let tee = f.tee_local(1, f.int64(-1));
    assert_eq!(tee.ty(), Some(ReprType::Int64));
    assert_eq!(
        tee.into_expr(),
        Expr::TeeLocal { index: 1, value: Box::new(Expr::Const(Literal::Int64(-1))) }
    );
}

#[test]
fn expression_builders_build_typed_trees() {
    let m = Module::new();
    let k = m.int32(5);
    assert_eq!(k.ty(), Some(ReprType::Int32));
    let call = m.call("f", vec![k, m.int64(6)], Some(ReprType::Int64));
    assert_eq!(call.ty(), Some(ReprType::Int64));
    assert_eq!(
        call.into_expr(),
        Expr::Call {
            target: "f".to_string(),
            operands: vec![Expr::Const(Literal::Int32(5)), Expr::Const(Literal::Int64(6))],
            ty: Some(ReprType::Int64),
        }
    );
    let load = m.load(m.int32(16), ReprType::Int64);
    assert_eq!(load.ty(), Some(ReprType::Int64));
    assert_eq!(
        load.into_expr(),
        Expr::Load {
            bytes: 8,
            signed: false,
            offset: 0,
            align: 0,
            ty: Some(ReprType::Int64),
            ptr: Box::new(Expr::Const(Literal::Int32(16))),
        }
    );
    let store = m.store(m.int32(16), m.int32(9));
    assert_eq!(store.ty(), Some(ReprType::Int32));
    assert_eq!(
        store.into_expr(),
        Expr::Store {
            bytes: 4,
            offset: 0,
            align: 0,
            ptr: Box::new(Expr::Const(Literal::Int32(16))),
            value: Box::new(Expr::Const(Literal::Int32(9))),
            ty: Some(ReprType::Int32),
        }
    );
    let dropped = m.drop(m.int32(1));
    assert_eq!(dropped.ty(), None);
    assert_eq!(
        dropped.into_expr(),
        Expr::Drop { value: Box::new(Expr::Const(Literal::Int32(1))) }
    );
}

#[test]
fn expression_new_keeps_tree_and_type() {
    let e = Expression::new(Expr::Unreachable, None);
    assert_eq!(e.ty(), None);
    let raw: Expr = e.into();
    assert_eq!(raw, Expr::Unreachable);
}

#[test]
fn function_types_are_appended() {
    let mut m = Module::new();
    let t = m.create_function_type("a", &[ReprType::Int32], None);
    assert_eq!(t.type_ref(), 0);
    let t = m.create_function_type("b", &[], Some(ReprType::Int64));
    assert_eq!(t.type_ref(), 1);
    assert_eq!(m.function_types.len(), 2);
    assert_eq!(m.function_types[0].name, "a");
    assert_eq!(m.function_types[0].params, vec![ReprType::Int32]);
    assert_eq!(m.function_types[0].result, None);
    assert_eq!(m.function_types[1].result, Some(ReprType::Int64));
}

#[test]
fn sig_type_has_the_parameter_slots() {
    let mut m = Module::new();
    let mut f = m.create_func();
    f.add_arg(ReprType::Int32);
    f.add_arg(ReprType::Float32);
    f.create_local(ReprType::Int64);
    let ty = f.create_sig_type(&mut m, "sig", Some(ReprType::Int32));
    assert_eq!(ty, 0);
    assert_eq!(m.function_types[0].params, vec![ReprType::Int32, ReprType::Float32]);
    assert_eq!(m.function_types[0].result, Some(ReprType::Int32));
    assert_eq!(m.function_types[0].name, "sig");
}

#[test]
fn copy_types_copies() {
    assert_eq!(copy_types(&[ReprType::Int64, ReprType::Int32]), vec![
        ReprType::Int64,
        ReprType::Int32
    ]);
}
