use mir2wasm::binaryen::builder::{Module, ReprType};
use mir2wasm::error::ErrorKind;
use mir2wasm::mir::{
    FnDef, FnSig, IntTy, Integer, Layout, LocalDecl, Lvalue, Mir, Program, Projection,
    ProjectionElem, Struct, TyKind, TypeInfo,
};
use mir2wasm::trans::context::BinaryenFnCtxt;
use mir2wasm::trans::place::{lval_ty, project, BinaryenLvalue, LvalueExtra};

const UNIT: usize = 0;
const I32: usize = 1;
const I64: usize = 2;
const PAIR: usize = 3;
const POINT: usize = 4;
const SHAPE: usize = 5;
const REF: usize = 6;
const NEVER: usize = 7;
const OPAQUE: usize = 8;
const WIDE: usize = 9;
const NESTED: usize = 10;

fn scalar(kind: TyKind, size: u64) -> TypeInfo {
    TypeInfo { kind, layout: Some(Layout::Scalar), size }
}

fn record(offsets: Vec<u64>, size: u64) -> TypeInfo {
    TypeInfo {
        kind: TyKind::Other,
        layout: Some(Layout::Univariant { variant: Struct { offsets } }),
        size,
    }
}

fn types() -> Vec<TypeInfo> {
    vec![
        TypeInfo {
            kind: TyKind::Nil,
            layout: Some(Layout::Univariant { variant: Struct { offsets: vec![] } }),
            size: 0,
        },
        scalar(TyKind::Int(IntTy::I32), 4),
        scalar(TyKind::Int(IntTy::I64), 8),
        record(vec![0, 4], 8),
        record(vec![0, 4, 8], 12),
        TypeInfo {
            kind: TyKind::Other,
            layout: Some(Layout::General {
                discr: Integer::I32,
                variants: vec![Struct { offsets: vec![4] }, Struct { offsets: vec![4, 8] }],
            }),
            size: 12,
        },
        scalar(TyKind::Other, 4),
        TypeInfo { kind: TyKind::Never, layout: Some(Layout::Scalar), size: 0 },
        TypeInfo { kind: TyKind::Other, layout: None, size: 0 },
        record(vec![0, 0xffff_fff0, 0x1_0000_0000], 0x2_0000_0000),
        record(vec![0, 16], 28),
    ]
}

/// A program with one function `f(a: i32, b: i64) -> ret` whose locals after
/// the parameters have the types `locals`, the first `vars` of them user
/// variables.
fn program(ret: usize, locals: &[usize], vars: usize) -> Program {
    let mut local_decls = vec![LocalDecl { ty: ret }, LocalDecl { ty: I32 }, LocalDecl { ty: I64 }];
    for &ty in locals {
        local_decls.push(LocalDecl { ty });
    }
    Program {
        types: types(),
        sigs: vec![FnSig { inputs: vec![I32, I64], output: ret }],
        defs: vec![FnDef {
            path: "f".to_string(),
            krate: 0,
            index: 1,
            sig: 0,
            generic: false,
            is_local: true,
            mir: Some(Mir { local_decls, var_count: vars, basic_blocks: vec![] }),
            link: None,
        }],
        panic_fn: None,
    }
}

fn body(program: &Program) -> &Mir {
    program.defs[0].mir.as_ref().unwrap()
}

fn context(program: &Program) -> BinaryenFnCtxt {
    let mut module = Module::new();
    BinaryenFnCtxt::new(program, &mut module, body(program), 0, 0).unwrap().0
}

fn field(base: Lvalue, index: usize, ty: usize) -> Lvalue {
    Lvalue::Projection(Box::new(Projection { base, elem: ProjectionElem::Field(index), ty }))
}

fn deref(base: Lvalue, ty: usize) -> Lvalue {
    Lvalue::Projection(Box::new(Projection { base, elem: ProjectionElem::Deref, ty }))
}

fn downcast(base: Lvalue, variant: usize, ty: usize) -> Lvalue {
    Lvalue::Projection(Box::new(Projection { base, elem: ProjectionElem::Downcast(variant), ty }))
}

fn place(index: usize, offset: Option<u32>) -> BinaryenLvalue {
    BinaryenLvalue { index, offset, extra: LvalueExtra::Nothing }
}

#[test]
fn frame_has_parameters_then_variables_then_temporaries() {
    let p = program(I32, &[I64, UNIT, I32, POINT, NEVER, I64], 3);
    let mut module = Module::new();
    let (fcx, info) = BinaryenFnCtxt::new(&p, &mut module, body(&p), 0, 0).unwrap();
    assert_eq!(fcx.num_args(), 2);
    assert_eq!(fcx.var_map, vec![Some(2), None, Some(3)]);
    assert_eq!(fcx.temp_map, vec![Some(4), None, Some(5)]);
    assert_eq!(fcx.ret_var, Some(6));
    assert_eq!(info.sp_local, 7);
    assert_eq!(info.relooper_local, 8);
    assert_eq!(fcx.checked_op_local, Some(9));
    assert_eq!(info.ret, Some(ReprType::Int32));
    assert_eq!(fcx.func.num_vars(), 10);
    assert_eq!(fcx.func.num_args(), 2);
    let tys: Vec<ReprType> = (0..10).map(|i| fcx.func.get_var(i).ty()).collect();
    assert_eq!(
        tys,
        vec![
            ReprType::Int32,
            ReprType::Int64,
            ReprType::Int64,
            ReprType::Int32,
            ReprType::Int32,
            ReprType::Int64,
            ReprType::Int32,
            ReprType::Int32,
            ReprType::Int32,
            ReprType::Int64,
        ]
    );
}

#[test]
fn local_indices_resolve_in_declaration_order() {
    let p = program(I32, &[I64, UNIT, I32, POINT, NEVER, I64], 3);
    let fcx = context(&p);
    assert_eq!(fcx.get_local_index(0), Ok(Some(6)));
    assert_eq!(fcx.get_local_index(1), Ok(Some(0)));
    assert_eq!(fcx.get_local_index(2), Ok(Some(1)));
    assert_eq!(fcx.get_local_index(3), Ok(Some(2)));
    assert_eq!(fcx.get_local_index(4), Ok(None));
    assert_eq!(fcx.get_local_index(5), Ok(Some(3)));
    assert_eq!(fcx.get_local_index(6), Ok(Some(4)));
    assert_eq!(fcx.get_local_index(7), Ok(None));
    assert_eq!(fcx.get_local_index(8), Ok(Some(5)));
    assert_eq!(fcx.get_local_index(9), Err(ErrorKind::UnsupportedPlace));
    assert_eq!(fcx.get_local_index(usize::MAX), Err(ErrorKind::UnsupportedPlace));
}

#[test]
fn unit_and_never_results_have_no_return_slot() {
    for ret in [UNIT, NEVER] {
        let p = program(ret, &[I32], 1);
        let mut module = Module::new();
        let (fcx, info) = BinaryenFnCtxt::new(&p, &mut module, body(&p), 0, 0).unwrap();
        assert_eq!(fcx.get_local_index(0), Ok(None));
        assert_eq!(fcx.ret_var, None);
        assert_eq!(info.ret, None);
        assert_eq!(info.sp_local, 3);
        assert_eq!(fcx.checked_op_local, Some(5));
    }
}

#[test]
fn frame_needs_representable_parameters() {
    let mut p = program(I32, &[], 0);
    p.sigs[0].inputs = vec![I32, UNIT];
    let mut module = Module::new();
    assert_eq!(
        BinaryenFnCtxt::new(&p, &mut module, body(&p), 0, 0).err(),
        Some(ErrorKind::UnsupportedType)
    );
}

#[test]
fn frame_needs_known_types() {
    let mut p = program(I32, &[], 0);
    p.sigs[0].inputs = vec![I32, 99];
    let mut module = Module::new();
    assert_eq!(
        BinaryenFnCtxt::new(&p, &mut module, body(&p), 0, 0).err(),
        Some(ErrorKind::LayoutFailure)
    );
    let p = program(I32, &[99], 0);
    assert_eq!(
        BinaryenFnCtxt::new(&p, &mut module, body(&p), 0, 0).err(),
        Some(ErrorKind::LayoutFailure)
    );
}

#[test]
fn frame_needs_a_local_for_each_parameter_and_variable() {
    let p = program(I32, &[I32], 2);
    let mut module = Module::new();
    assert_eq!(
        BinaryenFnCtxt::new(&p, &mut module, body(&p), 0, 0).err(),
        Some(ErrorKind::UnsupportedPlace)
    );
}

#[test]
fn a_local_resolves_to_its_slot() {
    let p = program(I32, &[POINT], 1);
    let fcx = context(&p);
    assert_eq!(fcx.trans_lval(&p, body(&p), &Lvalue::Local(3)), Ok(Some(place(2, None))));
    assert_eq!(fcx.trans_lval(&p, body(&p), &Lvalue::Local(1)), Ok(Some(place(0, None))));
}

#[test]
fn a_local_without_slot_resolves_to_nothing() {
    let p = program(UNIT, &[UNIT], 1);
    let fcx = context(&p);
    assert_eq!(fcx.trans_lval(&p, body(&p), &Lvalue::Local(0)), Ok(None));
    assert_eq!(fcx.trans_lval(&p, body(&p), &Lvalue::Local(3)), Ok(None));
    assert_eq!(fcx.trans_lval(&p, body(&p), &field(Lvalue::Local(3), 0, I32)), Ok(None));
}

#[test]
fn field_offsets_add_up_along_a_chain() {
    let p = program(I32, &[NESTED], 1);
    let fcx = context(&p);
    let outer = field(Lvalue::Local(3), 1, POINT);
    assert_eq!(fcx.trans_lval(&p, body(&p), &outer), Ok(Some(place(2, Some(16)))));
    let inner = field(field(Lvalue::Local(3), 1, POINT), 2, I32);
    assert_eq!(fcx.trans_lval(&p, body(&p), &inner), Ok(Some(place(2, Some(24)))));
    let first = field(field(Lvalue::Local(3), 0, POINT), 0, I32);
    assert_eq!(fcx.trans_lval(&p, body(&p), &first), Ok(Some(place(2, Some(0)))));
}

#[test]
fn a_dereference_reads_the_slot_as_an_address() {
    let p = program(I32, &[REF], 1);
    let fcx = context(&p);
    let target = deref(Lvalue::Local(3), POINT);
    assert_eq!(fcx.trans_lval(&p, body(&p), &target), Ok(Some(place(2, Some(0)))));
    let through = field(deref(Lvalue::Local(3), POINT), 2, I32);
    assert_eq!(fcx.trans_lval(&p, body(&p), &through), Ok(Some(place(2, Some(8)))));
}

#[test]
fn a_dereference_of_a_place_in_memory_is_not_supported() {
    let p = program(I32, &[PAIR], 1);
    let fcx = context(&p);
    let twice = deref(field(Lvalue::Local(3), 1, REF), I32);
    assert_eq!(fcx.trans_lval(&p, body(&p), &twice), Err(ErrorKind::UnsupportedPlace));
}

#[test]
fn a_downcast_skips_the_discriminant() {
    let p = program(I32, &[SHAPE], 1);
    let fcx = context(&p);
    let variant = downcast(Lvalue::Local(3), 1, SHAPE);
    assert_eq!(
        fcx.trans_lval(&p, body(&p), &variant),
        Ok(Some(BinaryenLvalue {
            index: 2,
            offset: Some(4),
            extra: LvalueExtra::DowncastVariant(1)
        }))
    );
    let payload = field(downcast(Lvalue::Local(3), 1, SHAPE), 1, I32);
    assert_eq!(fcx.trans_lval(&p, body(&p), &payload), Ok(Some(place(2, Some(12)))));
}

#[test]
fn a_downcast_needs_a_tagged_union_without_offset() {
    let p = program(I32, &[POINT, REF], 2);
    let fcx = context(&p);
    let of_record = downcast(Lvalue::Local(3), 0, POINT);
    assert_eq!(fcx.trans_lval(&p, body(&p), &of_record), Err(ErrorKind::UnsupportedPlace));
    let in_memory = downcast(deref(Lvalue::Local(4), SHAPE), 0, SHAPE);
    assert_eq!(fcx.trans_lval(&p, body(&p), &in_memory), Err(ErrorKind::UnsupportedPlace));
}

#[test]
fn a_field_of_a_tagged_union_needs_a_downcast() {
    let p = program(I32, &[SHAPE], 1);
    let fcx = context(&p);
    let direct = field(Lvalue::Local(3), 0, I32);
    assert_eq!(fcx.trans_lval(&p, body(&p), &direct), Err(ErrorKind::UnsupportedPlace));
    let no_such_variant = field(downcast(Lvalue::Local(3), 2, SHAPE), 0, I32);
    assert_eq!(fcx.trans_lval(&p, body(&p), &no_such_variant), Err(ErrorKind::UnsupportedPlace));
}

#[test]
fn unsupported_places_are_rejected() {
    let p = program(I32, &[POINT, I32, OPAQUE], 3);
    let fcx = context(&p);
    let m = body(&p);
    assert_eq!(fcx.trans_lval(&p, m, &Lvalue::Static), Err(ErrorKind::UnsupportedPlace));
    assert_eq!(fcx.trans_lval(&p, m, &Lvalue::Local(9)), Err(ErrorKind::UnsupportedPlace));
    assert_eq!(
        fcx.trans_lval(&p, m, &field(Lvalue::Local(3), 3, I32)),
        Err(ErrorKind::UnsupportedPlace)
    );
    assert_eq!(
        fcx.trans_lval(&p, m, &field(Lvalue::Local(4), 0, I32)),
        Err(ErrorKind::UnsupportedPlace)
    );
    let indexed = Lvalue::Projection(Box::new(Projection {
        base: Lvalue::Local(3),
        elem: ProjectionElem::Other,
        ty: I32,
    }));
    assert_eq!(fcx.trans_lval(&p, m, &indexed), Err(ErrorKind::UnsupportedPlace));
    assert_eq!(
        fcx.trans_lval(&p, m, &field(Lvalue::Local(5), 0, I32)),
        Err(ErrorKind::LayoutFailure)
    );
}

#[test]
fn offsets_past_32_bits_are_rejected() {
    let p = program(I32, &[WIDE], 1);
    let fcx = context(&p);
    let m = body(&p);
    assert_eq!(
        fcx.trans_lval(&p, m, &field(Lvalue::Local(3), 1, PAIR)),
        Ok(Some(place(2, Some(0xffff_fff0))))
    );
    assert_eq!(
        fcx.trans_lval(&p, m, &field(Lvalue::Local(3), 2, I32)),
        Err(ErrorKind::UnsupportedPlace)
    );
    assert_eq!(
        fcx.trans_lval(&p, m, &field(field(Lvalue::Local(3), 1, WIDE), 1, I32)),
        Err(ErrorKind::UnsupportedPlace)
    );
}

#[test]
fn types_of_places() {
    let p = program(I32, &[POINT], 1);
    let m = body(&p);
    assert_eq!(lval_ty(m, &Lvalue::Local(0)), Ok(I32));
    assert_eq!(lval_ty(m, &Lvalue::Local(2)), Ok(I64));
    assert_eq!(lval_ty(m, &Lvalue::Local(3)), Ok(POINT));
    assert_eq!(lval_ty(m, &Lvalue::Local(4)), Err(ErrorKind::UnsupportedPlace));
    assert_eq!(lval_ty(m, &Lvalue::Static), Err(ErrorKind::UnsupportedPlace));
    assert_eq!(lval_ty(m, &field(Lvalue::Local(3), 1, I32)), Ok(I32));
}

#[test]
fn projection_steps() {
    let layout = Layout::Univariant { variant: Struct { offsets: vec![0, 8] } };
    assert_eq!(
        project(place(1, Some(4)), &layout, ProjectionElem::Field(1)),
        Ok(place(1, Some(12)))
    );
    assert_eq!(
        project(place(1, None), &layout, ProjectionElem::Field(1)),
        Ok(place(1, Some(8)))
    );
    assert_eq!(project(place(1, None), &Layout::Scalar, ProjectionElem::Deref), Ok(place(1, Some(0))));
    let wide = Layout::General { discr: Integer::I128, variants: vec![] };
    assert_eq!(
        project(place(1, None), &wide, ProjectionElem::Downcast(0)),
        Err(ErrorKind::UnsupportedLayout)
    );
}

#[test]
fn place_offsets_accumulate() {
    let base = BinaryenLvalue::new(3, None, LvalueExtra::DowncastVariant(1));
    assert_eq!(base.index, 3);
    assert_eq!(base.offset, None);
    let moved = base.offset(8);
    assert_eq!(moved.offset, Some(8));
    assert_eq!(moved.index, 3);
    assert_eq!(moved.extra, LvalueExtra::DowncastVariant(1));
    assert_eq!(moved.offset(4).offset, Some(12));
}
