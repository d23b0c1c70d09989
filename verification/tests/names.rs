use mir2wasm::binaryen::builder::ReprType;
use mir2wasm::binaryen::ir::BinaryOp;
use mir2wasm::binops::binaryen_op_for;
use mir2wasm::error::{ErrorClass, ErrorKind};
use mir2wasm::mir::{BinOp, FloatTy, IntTy, Integer, TyKind, UintTy};
use mir2wasm::trans::names::{block_name, push_decimal, sanitize_symbol, sig_type_name};
use mir2wasm::trans::types::{rust_ty_to_binaryen, rust_ty_to_builder};

#[test]
fn sanitize_symbol_replaces_brackets_and_spaces() {
    assert_eq!(sanitize_symbol("Foo<T>::bar (x)"), "Foo_T_::bar__x_");
    assert_eq!(sanitize_symbol("<impl Add for isize>::add"), "_impl_Add_for_isize_::add");
}

#[test]
fn sanitize_symbol_keeps_other_characters() {
    assert_eq!(sanitize_symbol("wasm::print_i32"), "wasm::print_i32");
    assert_eq!(sanitize_symbol(""), "");
    assert_eq!(sanitize_symbol("é[x]"), "é[x]");
}

#[test]
fn decimal_numerals() {
    let mut s = String::from("n");
    push_decimal(&mut s, 0);
    assert_eq!(s, "n0");
    let mut s = String::new();
    push_decimal(&mut s, 9);
    push_decimal(&mut s, 10);
    push_decimal(&mut s, 18446744073709551615);
    assert_eq!(s, "91018446744073709551615");
}

#[test]
fn block_names() {
    assert_eq!(block_name(0), "bb0");
    assert_eq!(block_name(7), "bb7");
    assert_eq!(block_name(120), "bb120");
}

#[test]
fn signature_type_names() {
    assert_eq!(sig_type_name(0, 42), "rustfn-0-42");
    assert_eq!(sig_type_name(3, 0), "rustfn-3-0");
}

#[test]
fn operators_for_32_bit_integers() {
    let expected = [
        (BinOp::Add, BinaryOp::AddInt32),
        (BinOp::Sub, BinaryOp::SubInt32),
        (BinOp::Mul, BinaryOp::MulInt32),
        (BinOp::Div, BinaryOp::DivSInt32),
        (BinOp::BitAnd, BinaryOp::AndInt32),
        (BinOp::BitOr, BinaryOp::OrInt32),
        (BinOp::BitXor, BinaryOp::XorInt32),
        (BinOp::Eq, BinaryOp::EqInt32),
        (BinOp::Ne, BinaryOp::NeInt32),
        (BinOp::Lt, BinaryOp::LtSInt32),
        (BinOp::Le, BinaryOp::LeSInt32),
        (BinOp::Gt, BinaryOp::GtSInt32),
        (BinOp::Ge, BinaryOp::GeSInt32),
    ];
    for (op, out) in expected {
        assert_eq!(binaryen_op_for(op, TyKind::Int(IntTy::I32)), Ok(out));
        assert_eq!(binaryen_op_for(op, TyKind::Int(IntTy::I16)), Ok(out));
    }
}

#[test]
fn operators_for_64_bit_integers() {
    let expected = [
        (BinOp::Add, BinaryOp::AddInt64),
        (BinOp::Sub, BinaryOp::SubInt64),
        (BinOp::Mul, BinaryOp::MulInt64),
        (BinOp::Div, BinaryOp::DivSInt64),
        (BinOp::BitAnd, BinaryOp::AndInt64),
        (BinOp::BitOr, BinaryOp::OrInt64),
        (BinOp::BitXor, BinaryOp::XorInt64),
        (BinOp::Eq, BinaryOp::EqInt64),
        (BinOp::Ne, BinaryOp::NeInt64),
        (BinOp::Lt, BinaryOp::LtSInt64),
        (BinOp::Le, BinaryOp::LeSInt64),
        (BinOp::Gt, BinaryOp::GtSInt64),
        (BinOp::Ge, BinaryOp::GeSInt64),
    ];
    for (op, out) in expected {
        assert_eq!(binaryen_op_for(op, TyKind::Int(IntTy::I64)), Ok(out));
    }
}

#[test]
fn operators_without_counterpart_are_rejected() {
    for op in [BinOp::Rem, BinOp::Shl, BinOp::Shr] {
        assert_eq!(binaryen_op_for(op, TyKind::Int(IntTy::I32)), Err(ErrorKind::UnsupportedOperator));
        assert_eq!(binaryen_op_for(op, TyKind::Int(IntTy::I64)), Err(ErrorKind::UnsupportedOperator));
    }
}

#[test]
fn operators_on_other_types_are_rejected() {
    for ty in [
        TyKind::Bool,
        TyKind::Int(IntTy::I8),
        TyKind::Int(IntTy::Is),
        TyKind::Uint(UintTy::U32),
        TyKind::Float(FloatTy::F64),
        TyKind::Nil,
        TyKind::Other,
    ] {
        assert_eq!(binaryen_op_for(BinOp::Add, ty), Err(ErrorKind::UnsupportedType));
    }
}

#[test]
fn representable_types_of_source_types() {
    assert_eq!(rust_ty_to_builder(TyKind::Nil), None);
    assert_eq!(rust_ty_to_builder(TyKind::Never), None);
    assert_eq!(rust_ty_to_builder(TyKind::Float(FloatTy::F32)), Some(ReprType::Float32));
    assert_eq!(rust_ty_to_builder(TyKind::Float(FloatTy::F64)), Some(ReprType::Float64));
    assert_eq!(rust_ty_to_builder(TyKind::Int(IntTy::I64)), Some(ReprType::Int64));
    assert_eq!(rust_ty_to_builder(TyKind::Uint(UintTy::U64)), Some(ReprType::Int64));
    assert_eq!(rust_ty_to_builder(TyKind::Int(IntTy::I32)), Some(ReprType::Int32));
    assert_eq!(rust_ty_to_builder(TyKind::Int(IntTy::I8)), Some(ReprType::Int32));
    assert_eq!(rust_ty_to_builder(TyKind::Uint(UintTy::Us)), Some(ReprType::Int32));
    assert_eq!(rust_ty_to_builder(TyKind::Bool), Some(ReprType::Int32));
    assert_eq!(rust_ty_to_builder(TyKind::Char), Some(ReprType::Int32));
    assert_eq!(rust_ty_to_builder(TyKind::Other), Some(ReprType::Int32));
    assert_eq!(rust_ty_to_binaryen(TyKind::Int(IntTy::I64)), Some(ReprType::Int64));
    assert_eq!(rust_ty_to_binaryen(TyKind::Never), None);
}

#[test]
fn discriminant_widths() {
    assert_eq!(Integer::I1.size(), Ok(1));
    assert_eq!(Integer::I8.size(), Ok(1));
    assert_eq!(Integer::I16.size(), Ok(2));
    assert_eq!(Integer::I32.size(), Ok(4));
    assert_eq!(Integer::I64.size(), Ok(8));
    assert_eq!(Integer::I128.size(), Err(ErrorKind::UnsupportedLayout));
}

#[test]
fn error_classes() {
    assert_eq!(ErrorKind::UnsupportedTerminator.class(), ErrorClass::Unsupported);
    assert_eq!(ErrorKind::UnsupportedPlace.class(), ErrorClass::Unsupported);
    assert_eq!(ErrorKind::LayoutFailure.class(), ErrorClass::Layout);
    assert_eq!(ErrorKind::InvalidModule.class(), ErrorClass::Internal);
}
