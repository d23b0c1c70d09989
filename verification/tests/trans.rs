use mir2wasm::binaryen::builder::{
    Body, Export, Function, FunctionType, Import, Memory, Module, ReprType,
};
use mir2wasm::binaryen::ir::{BinaryOp, Expr, Literal, UnaryOp};
use mir2wasm::binaryen::relooper::{Block, BlockKind, Branch, Cfg};
use mir2wasm::error::{ErrorKind, TransError};
use mir2wasm::mir::{
    BasicBlockData, BinOp, ConstInt, ConstVal, Constant, FnDef, FnRef, FnSig, IntTy, Integer,
    Layout, LinkInfo, LocalDecl, Lvalue, Mir, Operand, Program, Rvalue, Statement, StatementKind,
    Struct, SwitchCase, Terminator, TerminatorKind, TyKind, TypeInfo,
};
use mir2wasm::trans::cache::key_code_of;
use mir2wasm::trans::calls::{callee_info, fn_ref, symbol, BinaryenCallKind};
use mir2wasm::trans::context::BinaryenFnCtxt;
use mir2wasm::trans::edges::{EdgeKind, PendingEdge};
use mir2wasm::trans::emit::{generate_runtime_start, has_assert};
use mir2wasm::trans::module::BinaryenModuleCtxt;
use mir2wasm::trans::{final_steps, trans_crate, visit_krate, FinalStep, WasmTransOptions};

const UNIT: usize = 0;
const I32: usize = 1;
const I64: usize = 2;
const POINT: usize = 3;
const NEVER: usize = 4;
const COLOR: usize = 5;
const OPAQUE: usize = 6;
const BOOL: usize = 7;
const PARAM: usize = 8;

// Signatures
const UNIT_TO_UNIT: usize = 0;
const I32_TO_I32: usize = 1;
const I64_TO_I64: usize = 2;
const UNIT_TO_POINT: usize = 3;
const UNIT_TO_NEVER: usize = 4;
const I32_TO_UNIT: usize = 5;
const START: usize = 6;
const PARAM_TO_PARAM: usize = 7;
const UNIT_TO_I32: usize = 8;

fn types() -> Vec<TypeInfo> {
    let scalar = |kind, size| TypeInfo { kind, layout: Some(Layout::Scalar), size };
    vec![
        TypeInfo {
            kind: TyKind::Nil,
            layout: Some(Layout::Univariant { variant: Struct { offsets: vec![] } }),
            size: 0,
        },
        scalar(TyKind::Int(IntTy::I32), 4),
        scalar(TyKind::Int(IntTy::I64), 8),
        TypeInfo {
            kind: TyKind::Other,
            layout: Some(Layout::Univariant { variant: Struct { offsets: vec![0, 4, 8] } }),
            size: 12,
        },
        scalar(TyKind::Never, 0),
        TypeInfo { kind: TyKind::Other, layout: Some(Layout::CEnum { discr: Integer::I8 }), size: 1 },
        TypeInfo { kind: TyKind::Other, layout: None, size: 0 },
        scalar(TyKind::Bool, 1),
        scalar(TyKind::Other, 4),
    ]
}

fn sigs() -> Vec<FnSig> {
    vec![
        FnSig { inputs: vec![], output: UNIT },
        FnSig { inputs: vec![I32], output: I32 },
        FnSig { inputs: vec![I64], output: I64 },
        FnSig { inputs: vec![], output: POINT },
        FnSig { inputs: vec![], output: NEVER },
        FnSig { inputs: vec![I32], output: UNIT },
        FnSig { inputs: vec![I32, I32], output: I32 },
        FnSig { inputs: vec![PARAM], output: PARAM },
        FnSig { inputs: vec![], output: I32 },
    ]
}

fn def(path: &str, index: u32, sig: usize, mir: Option<Mir>) -> FnDef {
    FnDef {
        path: path.to_string(),
        krate: 0,
        index,
        sig,
        generic: false,
        is_local: true,
        mir,
        link: None,
    }
}

fn program(defs: Vec<FnDef>) -> Program {
    Program { types: types(), sigs: sigs(), defs, panic_fn: None }
}

fn block(statements: Vec<Statement>, kind: TerminatorKind) -> BasicBlockData {
    BasicBlockData { statements, terminator: Terminator { kind } }
}

/// A body whose locals are the return value, the parameters and then
/// temporaries of the types `temps`.
fn mir(ret: usize, args: &[usize], temps: &[usize], basic_blocks: Vec<BasicBlockData>) -> Mir {
    let mut local_decls = vec![LocalDecl { ty: ret }];
    for &ty in args.iter().chain(temps) {
        local_decls.push(LocalDecl { ty });
    }
    Mir { local_decls, var_count: 0, basic_blocks }
}

fn num(value: i32) -> Operand {
    Operand::Constant(Constant {
        ty: I32,
        literal: mir2wasm::mir::Literal::Value(ConstVal::Integral(ConstInt::I32(value))),
    })
}

fn item(def_id: usize, mono_sig: usize) -> Operand {
    Operand::Constant(Constant {
        ty: I32,
        literal: mir2wasm::mir::Literal::Item(FnRef { def_id, resolved: None, mono_sig }),
    })
}

fn assign(lvalue: Lvalue, rvalue: Rvalue) -> Statement {
    Statement { kind: StatementKind::Assign(lvalue, rvalue) }
}

fn call(def_id: usize, sig: usize, args: Vec<Operand>, dest: Option<(usize, usize)>) -> TerminatorKind {
    TerminatorKind::Call {
        func: item(def_id, sig),
        args,
        destination: dest.map(|(local, target)| (Lvalue::Local(local), target)),
    }
}

/// `fn identity(x: i32) -> i32 { x }`
fn identity() -> Mir {
    mir(
        I32,
        &[I32],
        &[],
        vec![block(
            vec![assign(Lvalue::Local(0), Rvalue::Use(Operand::Consume(Lvalue::Local(1))))],
            TerminatorKind::Return,
        )],
    )
}

/// A body without parameters or result that returns at once.
fn empty() -> Mir {
    mir(UNIT, &[], &[], vec![block(vec![], TerminatorKind::Return)])
}

fn k32(value: i32) -> Expr {
    Expr::Const(Literal::Int32(value))
}

fn get(index: usize, ty: ReprType) -> Expr {
    Expr::GetLocal { index, ty: Some(ty) }
}

fn read_sp() -> Expr {
    Expr::Load {
        bytes: 4,
        signed: false,
        offset: 0,
        align: 0,
        ty: Some(ReprType::Int32),
        ptr: Box::new(k32(0)),
    }
}

fn restore_sp(sp_local: usize) -> Expr {
    Expr::Store {
        bytes: 4,
        offset: 0,
        align: 0,
        ptr: Box::new(k32(0)),
        value: Box::new(get(sp_local, ReprType::Int32)),
        ty: Some(ReprType::Int32),
    }
}

fn named(i: usize, children: Vec<Expr>) -> Expr {
    Expr::Block { name: Some(format!("bb{}", i)), children }
}

fn lower(program: &Program, did: usize, sig: usize) -> Result<BinaryenModuleCtxt, TransError> {
    let mut mcx = BinaryenModuleCtxt::new(Module::new(), None);
    mcx.trans(program, did, sig)?;
    Ok(mcx)
}

fn cfg_of(f: &Function) -> &Cfg {
    match &f.body {
        Body::Cfg(cfg) => cfg,
        other => panic!("not blocks and edges: {:?}", other),
    }
}

fn children_of(b: &Block) -> &Vec<Expr> {
    match b.body() {
        Expr::Block { children, .. } => children,
        other => panic!("not a block: {:?}", other),
    }
}

fn names(m: &Module) -> Vec<&str> {
    m.functions.iter().map(|f| f.name.as_str()).collect()
}

#[test]
fn a_function_becomes_blocks_and_edges() {
    let p = program(vec![def("demo::identity", 3, I32_TO_I32, Some(identity()))]);
    let mcx = lower(&p, 0, I32_TO_I32).unwrap();
    let m = &mcx.module;
    assert_eq!(m.functions.len(), 1);
    let f = &m.functions[0];
    assert_eq!(f.name, "demo::identity");
    assert_eq!(f.ty, 0);
    // return value, saved stack pointer, helper, scratch
    assert_eq!(
        f.var_types,
        vec![ReprType::Int32, ReprType::Int32, ReprType::Int32, ReprType::Int64]
    );
    assert_eq!(
        m.function_types,
        vec![FunctionType {
            name: "rustfn-0-3".to_string(),
            params: vec![ReprType::Int32],
            result: Some(ReprType::Int32),
        }]
    );
    assert_eq!(
        m.exports,
        vec![Export {
            internal: "demo::identity".to_string(),
            external: "demo::identity".to_string()
        }]
    );
    assert!(m.imports.is_empty());
    assert_eq!(m.start, None);

    let cfg = cfg_of(f);
    assert_eq!(cfg.entry, 1);
    assert_eq!(cfg.helper_local, 3);
    assert_eq!(cfg.blocks.len(), 2);
    assert_eq!(
        cfg.blocks[0].body(),
        &named(
            0,
            vec![
                Expr::SetLocal { index: 1, value: Box::new(get(0, ReprType::Int32)) },
                restore_sp(2),
                Expr::Return { value: Some(Box::new(get(1, ReprType::Int32))) },
            ]
        )
    );
    assert!(cfg.blocks[0].branches().is_empty());
    assert_eq!(cfg.blocks[0].kind(), BlockKind::Basic);
    // the prologue saves the stack pointer and goes on to the first block
    assert_eq!(
        cfg.blocks[1].body(),
        &Expr::SetLocal { index: 2, value: Box::new(read_sp()) }
    );
    assert_eq!(cfg.blocks[1].branches(), &vec![Branch::Goto { target: 0 }]);
}

#[test]
fn a_unit_function_returns_nothing() {
    let p = program(vec![def("f", 0, UNIT_TO_UNIT, Some(empty()))]);
    let mcx = lower(&p, 0, UNIT_TO_UNIT).unwrap();
    let f = &mcx.module.functions[0];
    assert_eq!(f.var_types, vec![ReprType::Int32, ReprType::Int32, ReprType::Int64]);
    assert_eq!(mcx.module.function_types[0].params, vec![]);
    assert_eq!(mcx.module.function_types[0].result, None);
    assert_eq!(
        children_of(&cfg_of(f).blocks[0]),
        &vec![restore_sp(0), Expr::Return { value: None }]
    );
}

#[test]
fn a_body_without_blocks_has_only_a_prologue() {
    let p = program(vec![def("f", 0, UNIT_TO_UNIT, Some(mir(UNIT, &[], &[], vec![])))]);
    let mcx = lower(&p, 0, UNIT_TO_UNIT).unwrap();
    let cfg = cfg_of(&mcx.module.functions[0]);
    assert_eq!(cfg.blocks.len(), 1);
    assert_eq!(cfg.entry, 0);
    assert!(cfg.blocks[0].branches().is_empty());
}

#[test]
fn translating_a_key_twice_adds_one_function() {
    let p = program(vec![def("f", 0, I32_TO_I32, Some(identity()))]);
    let mut mcx = BinaryenModuleCtxt::new(Module::new(), None);
    assert_eq!(mcx.trans(&p, 0, I32_TO_I32), Ok(()));
    let functions = mcx.module.functions.len();
    let types = mcx.module.function_types.len();
    let exports = mcx.module.exports.len();
    let entries = mcx.fun_names.len();
    assert_eq!(functions, 1);
    assert_eq!(mcx.trans(&p, 0, I32_TO_I32), Ok(()));
    assert_eq!(mcx.module.functions.len(), functions);
    assert_eq!(mcx.module.function_types.len(), types);
    assert_eq!(mcx.module.exports.len(), exports);
    assert_eq!(mcx.fun_names.len(), entries);
}

#[test]
fn names_are_cached_under_the_number_of_their_key() {
    let caller = mir(
        I32,
        &[I32],
        &[],
        vec![
            block(vec![], call(1, I32_TO_I32, vec![num(1)], Some((0, 1)))),
            block(vec![], TerminatorKind::Return),
        ],
    );
    let p = program(vec![
        def("caller", 0, I32_TO_I32, Some(caller)),
        def("callee<T>", 1, PARAM_TO_PARAM, Some(identity())),
    ]);
    let mcx = lower(&p, 0, I32_TO_I32).unwrap();
    let n = p.sigs.len() as u128;
    assert_eq!(key_code_of(&p, 1, I32_TO_I32), n + I32_TO_I32 as u128);
    // the caller, the callee at the signature of the call, and the declared
    // signature of the callee, which is marked
    assert_eq!(mcx.fun_names.len(), 3);
    assert_eq!(mcx.fun_names[&key_code_of(&p, 0, I32_TO_I32)], "caller");
    assert_eq!(mcx.fun_names[&key_code_of(&p, 1, I32_TO_I32)], "callee_T_");
    assert_eq!(mcx.fun_names[&key_code_of(&p, 1, PARAM_TO_PARAM)], "callee_T_");
    assert!(mcx.has_entry(&p, 1, PARAM_TO_PARAM));
    assert!(!mcx.has_entry(&p, 0, PARAM_TO_PARAM));
    assert!(!mcx.has_entry(&p, 7, I32_TO_I32));
    assert!(!mcx.has_entry(&p, 0, 99));
    assert_eq!(mcx.module.functions.len(), 2);
    assert_eq!(mcx.fun_types.len(), 1);
    assert_eq!(mcx.fun_types[&I32_TO_I32], 0);
}

#[test]
fn a_cached_key_is_not_looked_at_again() {
    // the body is not supported, but the key has an entry already
    let broken = mir(UNIT, &[], &[], vec![block(vec![], TerminatorKind::Other)]);
    let p = program(vec![def("f", 0, UNIT_TO_UNIT, Some(broken))]);
    let mut mcx = BinaryenModuleCtxt::new(Module::new(), None);
    assert!(mcx.trans(&p, 0, UNIT_TO_UNIT).is_err());
    assert_eq!(mcx.fun_names.len(), 1);
    assert_eq!(mcx.trans(&p, 0, UNIT_TO_UNIT), Ok(()));
    assert!(mcx.module.functions.is_empty());
}

#[test]
fn one_signature_has_one_type_descriptor() {
    let p = program(vec![
        def("f", 0, I32_TO_I32, Some(identity())),
        def("g", 1, I32_TO_I32, Some(identity())),
        def("h", 2, UNIT_TO_UNIT, Some(empty())),
    ]);
    let m = trans_crate(&p, None).unwrap();
    assert_eq!(names(&m), vec!["f", "g", "h"]);
    assert_eq!(m.function_types.len(), 2);
    assert_eq!(m.function_types[0].name, "rustfn-0-0");
    assert_eq!(m.function_types[1].name, "rustfn-0-2");
    assert_eq!(m.functions[0].ty, 0);
    assert_eq!(m.functions[1].ty, 0);
    assert_eq!(m.functions[2].ty, 1);
}

#[test]
fn a_function_that_calls_itself_is_translated_once() {
    let body = mir(
        UNIT,
        &[],
        &[UNIT],
        vec![
            block(vec![], call(0, UNIT_TO_UNIT, vec![], Some((1, 1)))),
            block(vec![], TerminatorKind::Return),
        ],
    );
    let p = program(vec![def("again", 0, UNIT_TO_UNIT, Some(body))]);
    let m = trans_crate(&p, None).unwrap();
    assert_eq!(names(&m), vec!["again"]);
    let cfg = cfg_of(&m.functions[0]);
    assert_eq!(
        children_of(&cfg.blocks[0]),
        &vec![Expr::Call { target: "again".to_string(), operands: vec![], ty: None }]
    );
    assert_eq!(cfg.blocks[0].branches(), &vec![Branch::Goto { target: 1 }]);
}

#[test]
fn functions_that_call_each_other_are_translated_once_each() {
    let calls = |other: usize| {
        mir(
            UNIT,
            &[],
            &[UNIT],
            vec![
                block(vec![], call(other, UNIT_TO_UNIT, vec![], Some((1, 1)))),
                block(vec![], TerminatorKind::Return),
            ],
        )
    };
    let p = program(vec![
        def("ping", 0, UNIT_TO_UNIT, Some(calls(1))),
        def("pong", 1, UNIT_TO_UNIT, Some(calls(2))),
        def("pang", 2, UNIT_TO_UNIT, Some(calls(0))),
    ]);
    let m = trans_crate(&p, None).unwrap();
    // a function is added when its body is done: the innermost first
    assert_eq!(names(&m), vec!["pang", "pong", "ping"]);
    assert_eq!(m.exports.len(), 3);
    assert_eq!(m.function_types.len(), 1);
}

#[test]
fn a_callee_is_translated_before_the_call_is_emitted() {
    let caller = mir(
        I32,
        &[I32],
        &[],
        vec![
            block(vec![], call(1, I32_TO_I32, vec![Operand::Consume(Lvalue::Local(1))], Some((0, 1)))),
            block(vec![], TerminatorKind::Return),
        ],
    );
    let p = program(vec![
        def("caller", 0, I32_TO_I32, Some(caller)),
        def("callee<T>", 1, I32_TO_I32, Some(identity())),
    ]);
    let mcx = lower(&p, 0, I32_TO_I32).unwrap();
    assert_eq!(names(&mcx.module), vec!["callee_T_", "caller"]);
    let cfg = cfg_of(&mcx.module.functions[1]);
    assert_eq!(
        children_of(&cfg.blocks[0]),
        &vec![Expr::SetLocal {
            index: 1,
            value: Box::new(Expr::Call {
                target: "callee_T_".to_string(),
                operands: vec![get(0, ReprType::Int32)],
                ty: Some(ReprType::Int32),
            }),
        }]
    );
}

#[test]
fn a_generic_function_is_translated_at_each_signature_it_is_called_at() {
    let caller = mir(
        UNIT,
        &[],
        &[I32, I64],
        vec![
            block(vec![], call(1, I32_TO_I32, vec![num(1)], Some((1, 1)))),
            block(vec![], call(1, I64_TO_I64, vec![num(2)], Some((2, 2)))),
            block(vec![], call(1, I32_TO_I32, vec![num(3)], Some((1, 3)))),
            block(vec![], TerminatorKind::Return),
        ],
    );
    let id = mir(
        PARAM,
        &[PARAM],
        &[],
        vec![block(
            vec![assign(Lvalue::Local(0), Rvalue::Use(Operand::Consume(Lvalue::Local(1))))],
            TerminatorKind::Return,
        )],
    );
    let mut generic = def("id", 1, PARAM_TO_PARAM, Some(id));
    generic.generic = true;
    let p = program(vec![def("caller", 0, UNIT_TO_UNIT, Some(caller)), generic]);
    let m = trans_crate(&p, None).unwrap();
    assert_eq!(names(&m), vec!["id", "id", "caller"]);
    assert_eq!(m.function_types[m.functions[0].ty].params, vec![ReprType::Int32]);
    assert_eq!(m.function_types[m.functions[1].ty].params, vec![ReprType::Int64]);
    assert_eq!(m.function_types[m.functions[1].ty].result, Some(ReprType::Int64));
}

#[test]
fn the_lowering_does_not_start_from_generic_functions() {
    let mut generic = def("id", 0, PARAM_TO_PARAM, Some(identity()));
    generic.generic = true;
    let p = program(vec![generic, def("no_body", 1, UNIT_TO_UNIT, None)]);
    let m = trans_crate(&p, None).unwrap();
    assert!(m.functions.is_empty());
    assert!(m.exports.is_empty());
}

#[test]
fn a_trait_method_is_resolved_to_its_implementation() {
    let resolved = Operand::Constant(Constant {
        ty: I32,
        literal: mir2wasm::mir::Literal::Value(ConstVal::Function(FnRef {
            def_id: 1,
            resolved: Some(2),
            mono_sig: I32_TO_I32,
        })),
    });
    let caller = mir(
        I32,
        &[I32],
        &[],
        vec![
            block(
                vec![],
                TerminatorKind::Call {
                    func: resolved,
                    args: vec![num(4)],
                    destination: Some((Lvalue::Local(0), 1)),
                },
            ),
            block(vec![], TerminatorKind::Return),
        ],
    );
    let p = program(vec![
        def("caller", 0, I32_TO_I32, Some(caller)),
        def("Shape::area", 1, I32_TO_I32, None),
        def("<Square as Shape>::area", 2, I32_TO_I32, Some(identity())),
    ]);
    let mcx = lower(&p, 0, I32_TO_I32).unwrap();
    assert_eq!(names(&mcx.module), vec!["_Square_as_Shape_::area", "caller"]);
    let info = callee_info(&p, FnRef { def_id: 1, resolved: Some(2), mono_sig: I32_TO_I32 }).unwrap();
    assert_eq!(info.did, 2);
    assert_eq!(info.name, "_Square_as_Shape_::area");
    assert_eq!(info.kind, BinaryenCallKind::Direct);
}

fn print_i32() -> FnDef {
    let mut d = def("wasm::print_i32", 9, I32_TO_UNIT, None);
    d.link = Some(LinkInfo {
        name: "print_i32".to_string(),
        module: "spectest".to_string(),
        base: "print".to_string(),
    });
    d
}

#[test]
fn an_external_function_is_imported_once() {
    let caller = mir(
        UNIT,
        &[],
        &[UNIT],
        vec![
            block(vec![], call(1, I32_TO_UNIT, vec![num(1)], Some((1, 1)))),
            block(vec![], call(1, I32_TO_UNIT, vec![num(2)], Some((1, 2)))),
            block(vec![], TerminatorKind::Return),
        ],
    );
    let p = program(vec![def("main", 0, UNIT_TO_UNIT, Some(caller)), print_i32()]);
    let m = trans_crate(&p, None).unwrap();
    assert_eq!(names(&m), vec!["main"]);
    assert_eq!(
        m.imports,
        vec![Import {
            name: "print_i32".to_string(),
            module: "spectest".to_string(),
            base: "print".to_string(),
            ty: 0,
        }]
    );
    assert_eq!(
        m.function_types[0],
        FunctionType { name: "print_i32".to_string(), params: vec![ReprType::Int32], result: None }
    );
    let cfg = cfg_of(&m.functions[0]);
    assert_eq!(
        children_of(&cfg.blocks[1]),
        &vec![Expr::CallImport {
            target: "print_i32".to_string(),
            operands: vec![k32(2)],
            ty: None,
        }]
    );
    assert_eq!(symbol(&p, 1), "print_i32");
    assert_eq!(symbol(&p, 0), "main");
}

#[test]
fn an_external_function_has_no_body_to_translate() {
    let p = program(vec![print_i32()]);
    assert_eq!(
        lower(&p, 0, I32_TO_UNIT).err(),
        Some(TransError { kind: ErrorKind::UnsupportedCallee, did: 0, sig: I32_TO_UNIT })
    );
}

#[test]
fn a_call_that_does_not_return_is_followed_by_a_trap() {
    let caller = mir(UNIT, &[], &[], vec![block(vec![], call(1, UNIT_TO_NEVER, vec![], None))]);
    let diverges = mir(
        NEVER,
        &[],
        &[],
        vec![block(vec![], TerminatorKind::Goto { target: 0 })],
    );
    let p = program(vec![
        def("caller", 0, UNIT_TO_UNIT, Some(caller)),
        def("diverges", 1, UNIT_TO_NEVER, Some(diverges)),
    ]);
    let m = trans_crate(&p, None).unwrap();
    let cfg = cfg_of(&m.functions[1]);
    assert_eq!(
        children_of(&cfg.blocks[0]),
        &vec![
            Expr::Call { target: "diverges".to_string(), operands: vec![], ty: None },
            Expr::Unreachable,
        ]
    );
    assert!(cfg.blocks[0].branches().is_empty());
    // the loop in `diverges` is an edge of its block to itself
    let cfg = cfg_of(&m.functions[0]);
    assert_eq!(cfg.blocks[0].branches(), &vec![Branch::Goto { target: 0 }]);
}

#[test]
fn a_function_named_panic_does_not_return() {
    let info = |path: &str| {
        let p = program(vec![def(path, 0, UNIT_TO_UNIT, Some(empty()))]);
        callee_info(&p, FnRef { def_id: 0, resolved: None, mono_sig: UNIT_TO_UNIT }).unwrap()
    };
    assert!(info("panic").is_never);
    assert!(!info("panics").is_never);
    assert_eq!(info("panic").ret_ty, None);
}

#[test]
fn a_returned_record_is_copied_into_a_new_frame() {
    let caller = mir(
        UNIT,
        &[],
        &[POINT],
        vec![
            block(vec![], call(1, UNIT_TO_POINT, vec![], Some((1, 1)))),
            block(vec![], TerminatorKind::Return),
        ],
    );
    let make = mir(POINT, &[], &[], vec![block(vec![], TerminatorKind::Return)]);
    let p = program(vec![
        def("caller", 0, UNIT_TO_UNIT, Some(caller)),
        def("make", 1, UNIT_TO_POINT, Some(make)),
    ]);
    let m = trans_crate(&p, None).unwrap();
    let f = &m.functions[1];
    assert_eq!(f.name, "caller");
    // the slot of the temporary, the three synthetic slots, then the slot
    // that keeps the address returned
    assert_eq!(
        f.var_types,
        vec![
            ReprType::Int32,
            ReprType::Int32,
            ReprType::Int32,
            ReprType::Int64,
            ReprType::Int32
        ]
    );
    let children = children_of(&cfg_of(f).blocks[0]);
    assert_eq!(children.len(), 4);
    assert_eq!(
        children[0],
        Expr::SetLocal {
            index: 4,
            value: Box::new(Expr::Call {
                target: "make".to_string(),
                operands: vec![],
                ty: Some(ReprType::Int32),
            }),
        }
    );
    match &children[1] {
        Expr::Store { value, .. } => match &**value {
            Expr::TeeLocal { index: 0, value } => match &**value {
                Expr::Binary { op: BinaryOp::SubInt32, right, .. } => assert_eq!(**right, k32(12)),
                other => panic!("not a subtraction: {:?}", other),
            },
            other => panic!("not a write of the slot of the destination: {:?}", other),
        },
        other => panic!("not an allocation: {:?}", other),
    }
    let widths: Vec<(u32, u32)> = children[2..]
        .iter()
        .map(|c| match c {
            Expr::Store { bytes, offset, .. } => (*bytes, *offset),
            other => panic!("not a copy: {:?}", other),
        })
        .collect();
    assert_eq!(widths, vec![(8, 0), (4, 8)]);
}

#[test]
fn a_result_needs_a_destination_with_a_slot_and_a_layout() {
    let with_dest = |temp: usize| {
        let caller = mir(
            UNIT,
            &[],
            &[temp],
            vec![
                block(vec![], call(1, UNIT_TO_I32, vec![], Some((1, 1)))),
                block(vec![], TerminatorKind::Return),
            ],
        );
        let p = program(vec![
            def("caller", 0, UNIT_TO_UNIT, Some(caller)),
            def("seven", 1, UNIT_TO_I32, Some(mir(I32, &[], &[], vec![]))),
        ]);
        lower(&p, 0, UNIT_TO_UNIT).err().map(|e| e.kind)
    };
    assert_eq!(with_dest(I32), None);
    assert_eq!(with_dest(COLOR), None);
    assert_eq!(with_dest(UNIT), Some(ErrorKind::UnsupportedPlace));
    assert_eq!(with_dest(OPAQUE), Some(ErrorKind::LayoutFailure));
}

#[test]
fn callees_must_be_function_items_of_this_crate() {
    assert_eq!(fn_ref(&num(1)), Err(ErrorKind::UnsupportedCallee));
    assert_eq!(
        fn_ref(&Operand::Consume(Lvalue::Local(1))),
        Err(ErrorKind::UnsupportedCallee)
    );
    assert_eq!(fn_ref(&item(3, 4)), Ok(FnRef { def_id: 3, resolved: None, mono_sig: 4 }));
    let mut foreign = def("other::f", 0, UNIT_TO_UNIT, Some(empty()));
    foreign.is_local = false;
    let p = program(vec![foreign, def("g", 1, 99, Some(empty()))]);
    let info = |def_id, resolved, mono_sig| {
        callee_info(&p, FnRef { def_id, resolved, mono_sig }).err()
    };
    assert_eq!(info(0, None, UNIT_TO_UNIT), Some(ErrorKind::UnsupportedCallee));
    assert_eq!(info(7, None, UNIT_TO_UNIT), Some(ErrorKind::UnsupportedCallee));
    assert_eq!(info(1, Some(7), UNIT_TO_UNIT), Some(ErrorKind::UnsupportedCallee));
    assert_eq!(info(1, None, 99), Some(ErrorKind::UnsupportedCallee));
    assert_eq!(info(1, None, UNIT_TO_UNIT), Some(ErrorKind::UnsupportedCallee));
}

#[test]
fn a_failure_names_the_function_that_fails() {
    let caller = mir(
        UNIT,
        &[],
        &[I32],
        vec![
            block(vec![], call(1, I32_TO_I32, vec![num(1)], Some((1, 1)))),
            block(vec![], TerminatorKind::Return),
        ],
    );
    let broken = mir(
        I32,
        &[I32],
        &[],
        vec![block(
            vec![Statement { kind: StatementKind::Other }],
            TerminatorKind::Return,
        )],
    );
    let p = program(vec![
        def("caller", 0, UNIT_TO_UNIT, Some(caller)),
        def("broken", 1, I32_TO_I32, Some(broken)),
    ]);
    assert_eq!(
        trans_crate(&p, None).err(),
        Some(TransError { kind: ErrorKind::UnsupportedStatement, did: 1, sig: I32_TO_I32 })
    );
}

#[test]
fn unsupported_terminators_are_rejected() {
    let p = program(vec![def(
        "f",
        0,
        UNIT_TO_UNIT,
        Some(mir(UNIT, &[], &[], vec![block(vec![], TerminatorKind::Other)])),
    )]);
    assert_eq!(
        trans_crate(&p, None).err(),
        Some(TransError { kind: ErrorKind::UnsupportedTerminator, did: 0, sig: UNIT_TO_UNIT })
    );
}

#[test]
fn edges_must_lead_to_blocks_of_the_body() {
    for kind in [
        TerminatorKind::Goto { target: 1 },
        TerminatorKind::Assert { cond: num(1), expected: true, target: 5 },
        TerminatorKind::SwitchInt { discr: num(1), cases: vec![], otherwise: 1 },
        TerminatorKind::SwitchInt {
            discr: num(1),
            cases: vec![SwitchCase { value: 0, target: 1 }],
            otherwise: 0,
        },
    ] {
        let p = program(vec![def(
            "f",
            0,
            UNIT_TO_UNIT,
            Some(mir(UNIT, &[], &[], vec![block(vec![], kind)])),
        )]);
        assert_eq!(
            trans_crate(&p, None).err().map(|e| e.kind),
            Some(ErrorKind::UnsupportedTerminator)
        );
    }
}

fn switch(cases: Vec<SwitchCase>) -> Program {
    let body = mir(
        UNIT,
        &[I32],
        &[],
        vec![
            block(
                vec![],
                TerminatorKind::SwitchInt {
                    discr: Operand::Consume(Lvalue::Local(1)),
                    cases,
                    otherwise: 1,
                },
            ),
            block(vec![], TerminatorKind::Return),
            block(vec![], TerminatorKind::Return),
        ],
    );
    program(vec![def("f", 0, I32_TO_UNIT, Some(body))])
}

#[test]
fn a_switch_has_an_edge_for_each_case_and_one_more() {
    let cases = vec![
        SwitchCase { value: 0, target: 1 },
        SwitchCase { value: 7, target: 2 },
        SwitchCase { value: 4294967295, target: 2 },
    ];
    let p = switch(cases);
    let m = trans_crate(&p, None).unwrap();
    let cfg = cfg_of(&m.functions[0]);
    assert_eq!(cfg.blocks.len(), 4);
    assert_eq!(cfg.blocks[0].kind(), BlockKind::Switch);
    assert_eq!(cfg.blocks[0].cond(), &Some(get(0, ReprType::Int32)));
    assert!(children_of(&cfg.blocks[0]).is_empty());
    assert_eq!(
        cfg.blocks[0].branches(),
        &vec![
            Branch::Case { key: 0, target: 1 },
            Branch::Case { key: 7, target: 2 },
            Branch::Case { key: 4294967295, target: 2 },
            Branch::Default { target: 1 },
        ]
    );
    assert_eq!(cfg.blocks[1].kind(), BlockKind::Basic);
}

#[test]
fn a_switch_without_cases_has_only_the_default_edge() {
    let m = trans_crate(&switch(vec![]), None).unwrap();
    let cfg = cfg_of(&m.functions[0]);
    assert_eq!(cfg.blocks[0].branches(), &vec![Branch::Default { target: 1 }]);
}

#[test]
fn pending_edges_of_a_switch() {
    let p = switch(vec![SwitchCase { value: 3, target: 2 }, SwitchCase { value: 5, target: 1 }]);
    let body = p.defs[0].mir.as_ref().unwrap();
    let mut module = Module::new();
    let (fcx, _) = BinaryenFnCtxt::new(&p, &mut module, body, 0, I32_TO_UNIT).unwrap();
    assert_eq!(
        fcx.pending_edges(&p, body, 3),
        Ok(vec![
            PendingEdge { from: 0, to: 2, kind: EdgeKind::Case { value: 3 } },
            PendingEdge { from: 0, to: 1, kind: EdgeKind::Case { value: 5 } },
            PendingEdge { from: 0, to: 1, kind: EdgeKind::Otherwise },
        ])
    );
}

#[test]
fn case_values_must_differ_and_fit_in_32_bits() {
    let twice = vec![
        SwitchCase { value: 1, target: 1 },
        SwitchCase { value: 2, target: 1 },
        SwitchCase { value: 1, target: 2 },
    ];
    assert_eq!(
        trans_crate(&switch(twice), None).err().map(|e| e.kind),
        Some(ErrorKind::UnsupportedTerminator)
    );
    let wide = vec![SwitchCase { value: 4294967296, target: 1 }];
    assert_eq!(
        trans_crate(&switch(wide), None).err().map(|e| e.kind),
        Some(ErrorKind::UnsupportedTerminator)
    );
}

fn asserting(expected: bool) -> Program {
    let body = mir(
        UNIT,
        &[I32],
        &[],
        vec![
            block(
                vec![],
                TerminatorKind::Assert {
                    cond: Operand::Consume(Lvalue::Local(1)),
                    expected,
                    target: 1,
                },
            ),
            block(vec![], TerminatorKind::Return),
        ],
    );
    program(vec![def("f", 0, I32_TO_UNIT, Some(body))])
}

#[test]
fn an_assertion_leads_to_its_target_or_to_a_trap() {
    let m = trans_crate(&asserting(true), None).unwrap();
    let cfg = cfg_of(&m.functions[0]);
    // two basic blocks, the block that traps, the prologue
    assert_eq!(cfg.blocks.len(), 4);
    assert_eq!(cfg.entry, 3);
    assert_eq!(cfg.blocks[2].body(), &Expr::Unreachable);
    assert!(cfg.blocks[2].branches().is_empty());
    assert_eq!(
        cfg.blocks[0].branches(),
        &vec![
            Branch::Cond { cond: get(0, ReprType::Int32), target: 1 },
            Branch::Goto { target: 2 },
        ]
    );
}

#[test]
fn an_assertion_of_false_is_taken_on_zero() {
    let m = trans_crate(&asserting(false), None).unwrap();
    let cfg = cfg_of(&m.functions[0]);
    assert_eq!(
        cfg.blocks[0].branches(),
        &vec![
            Branch::Cond {
                cond: Expr::Unary {
                    op: UnaryOp::EqZInt32,
                    value: Box::new(get(0, ReprType::Int32)),
                },
                target: 1,
            },
            Branch::Goto { target: 2 },
        ]
    );
    let p = asserting(false);
    let body = p.defs[0].mir.as_ref().unwrap();
    let mut module = Module::new();
    let (fcx, _) = BinaryenFnCtxt::new(&p, &mut module, body, 0, I32_TO_UNIT).unwrap();
    assert_eq!(
        fcx.pending_edges(&p, body, 2),
        Ok(vec![
            PendingEdge {
                from: 0,
                to: 1,
                kind: EdgeKind::Conditional { cond: get(0, ReprType::Int32), taken_on_true: false },
            },
            PendingEdge { from: 0, to: 2, kind: EdgeKind::Unconditional },
        ])
    );
}

#[test]
fn only_bodies_with_assertions_get_a_trap_block() {
    let p = asserting(true);
    assert!(has_assert(p.defs[0].mir.as_ref().unwrap()));
    assert!(!has_assert(&identity()));
    assert!(!has_assert(&mir(UNIT, &[], &[], vec![])));
}

#[test]
fn the_panic_function_traps_and_is_not_exported() {
    let mut p = program(vec![def("panic", 0, UNIT_TO_NEVER, Some(mir(NEVER, &[], &[], vec![])))]);
    p.panic_fn = Some(0);
    let m = trans_crate(&p, None).unwrap();
    assert_eq!(m.functions.len(), 1);
    assert_eq!(m.functions[0].body, Body::Expr(Expr::Unreachable));
    assert_eq!(m.functions[0].var_types, vec![ReprType::Int32, ReprType::Int32, ReprType::Int64]);
    assert!(m.exports.is_empty());
}

#[test]
fn the_entry_point_gets_a_start_routine() {
    let p = program(vec![def("main", 0, UNIT_TO_UNIT, Some(empty()))]);
    let m = trans_crate(&p, Some(0)).unwrap();
    assert_eq!(names(&m), vec!["main", "__wasm_start"]);
    assert_eq!(m.start, Some(1));
    assert_eq!(m.memory, Some(Memory { initial: 1, maximum: 1, export_name: None }));
    assert_eq!(
        m.exports,
        vec![
            Export { internal: "main".to_string(), external: "main".to_string() },
            Export { internal: "__wasm_start".to_string(), external: "rust_entry".to_string() },
        ]
    );
    let start = &m.functions[1];
    assert_eq!(
        m.function_types[start.ty],
        FunctionType { name: "__wasm_start".to_string(), params: vec![], result: None }
    );
    assert!(start.var_types.is_empty());
    assert_eq!(
        start.body,
        Body::Expr(Expr::Block {
            name: None,
            children: vec![
                Expr::Store {
                    bytes: 4,
                    offset: 0,
                    align: 0,
                    ptr: Box::new(k32(0)),
                    value: Box::new(k32(65535)),
                    ty: Some(ReprType::Int32),
                },
                Expr::Call { target: "main".to_string(), operands: vec![], ty: None },
            ],
        })
    );
}

#[test]
fn a_start_function_is_called_with_two_zeros() {
    let start = mir(I32, &[I32, I32], &[], vec![block(vec![], TerminatorKind::Return)]);
    let p = program(vec![def("start", 0, START, Some(start))]);
    let m = trans_crate(&p, Some(0)).unwrap();
    assert_eq!(m.start, Some(1));
    match &m.functions[1].body {
        Body::Expr(Expr::Block { children, .. }) => assert_eq!(
            children[1],
            Expr::Drop {
                value: Box::new(Expr::Call {
                    target: "start".to_string(),
                    operands: vec![k32(0), k32(0)],
                    ty: Some(ReprType::Int32),
                }),
            }
        ),
        other => panic!("not a block: {:?}", other),
    }
}

#[test]
fn a_main_function_must_return_unit() {
    let p = program(vec![def("main", 0, I32_TO_I32, Some(identity()))]);
    assert_eq!(
        trans_crate(&p, Some(0)).err(),
        Some(TransError { kind: ErrorKind::UnsupportedType, did: 0, sig: I32_TO_I32 })
    );
    assert!(trans_crate(&p, None).is_ok());
}

#[test]
fn the_start_routine_alone() {
    let mut m = Module::new();
    assert_eq!(generate_runtime_start(&mut m, "entry", false), 0);
    assert_eq!(m.functions[0].name, "__wasm_start");
    assert_eq!(m.functions[0].ty, 0);
    assert_eq!(m.start, None);
    assert_eq!(m.exports.len(), 1);
}

#[test]
fn the_module_starts_with_memory_and_auto_drop() {
    let m = trans_crate(&program(vec![]), None).unwrap();
    assert!(m.auto_drop);
    assert_eq!(
        m.memory,
        Some(Memory { initial: 256, maximum: 256, export_name: Some("memory".to_string()) })
    );
    assert!(m.functions.is_empty());
    assert_eq!(m.start, None);
}

#[test]
fn visiting_keeps_what_the_module_holds() {
    let mut module = Module::new();
    module.add_function("kept".to_string(), 0, vec![], Body::Expr(Expr::Unreachable));
    let p = program(vec![def("f", 0, UNIT_TO_UNIT, Some(empty()))]);
    let m = visit_krate(&p, module, None).unwrap();
    assert_eq!(names(&m), vec!["kept", "f"]);
    assert!(!m.auto_drop);
}

#[test]
fn statements_that_mark_storage_emit_nothing() {
    let body = mir(
        UNIT,
        &[],
        &[I32],
        vec![block(
            vec![
                Statement { kind: StatementKind::StorageLive },
                assign(Lvalue::Local(1), Rvalue::BinaryOp(BinOp::Add, num(1), num(2))),
                Statement { kind: StatementKind::StorageDead },
            ],
            TerminatorKind::Return,
        )],
    );
    let p = program(vec![def("f", 0, UNIT_TO_UNIT, Some(body))]);
    let m = trans_crate(&p, None).unwrap();
    assert_eq!(children_of(&cfg_of(&m.functions[0]).blocks[0]).len(), 3);
}

#[test]
fn blocks_are_named_after_their_basic_blocks() {
    let blocks = (0..12).map(|i| block(vec![], TerminatorKind::Goto { target: 11 - i })).collect();
    let p = program(vec![def("f", 0, UNIT_TO_UNIT, Some(mir(UNIT, &[], &[], blocks)))]);
    let m = trans_crate(&p, None).unwrap();
    let cfg = cfg_of(&m.functions[0]);
    assert_eq!(cfg.blocks.len(), 13);
    assert_eq!(cfg.entry, 12);
    for i in 0..12 {
        assert_eq!(cfg.blocks[i].body(), &named(i, vec![]));
        assert_eq!(cfg.blocks[i].branches(), &vec![Branch::Goto { target: 11 - i }]);
    }
}

#[test]
fn unknown_definitions_and_signatures_are_rejected() {
    let p = program(vec![def("f", 0, UNIT_TO_UNIT, Some(empty()))]);
    assert_eq!(
        lower(&p, 5, UNIT_TO_UNIT).err(),
        Some(TransError { kind: ErrorKind::UnsupportedCallee, did: 5, sig: UNIT_TO_UNIT })
    );
    assert_eq!(
        lower(&p, 0, 99).err(),
        Some(TransError { kind: ErrorKind::UnsupportedCallee, did: 0, sig: 99 })
    );
    let q = program(vec![def("f", 0, UNIT_TO_UNIT, None)]);
    assert_eq!(
        lower(&q, 0, UNIT_TO_UNIT).err(),
        Some(TransError { kind: ErrorKind::UnsupportedCallee, did: 0, sig: UNIT_TO_UNIT })
    );
}

#[test]
fn options_by_default_print_the_module() {
    let options = WasmTransOptions::new();
    assert!(!options.optimize);
    assert!(!options.interpret);
    assert!(options.print);
    assert!(!options.trace);
    assert_eq!(options.binary_output_path, None);
    assert_eq!(final_steps(&options, true), Ok(vec![FinalStep::Print]));
}

#[test]
fn an_invalid_module_is_an_internal_failure() {
    assert_eq!(final_steps(&WasmTransOptions::new(), false), Err(ErrorKind::InvalidModule));
}

#[test]
fn final_steps_follow_the_options() {
    let all = WasmTransOptions {
        optimize: true,
        interpret: true,
        print: true,
        trace: true,
        binary_output_path: Some("out.wasm".to_string()),
    };
    assert_eq!(
        final_steps(&all, true),
        Ok(vec![
            FinalStep::Optimize,
            FinalStep::TraceOff,
            FinalStep::Interpret,
            FinalStep::Write("out.wasm".to_string()),
        ])
    );
    let quiet = WasmTransOptions {
        optimize: false,
        interpret: false,
        print: false,
        trace: false,
        binary_output_path: None,
    };
    assert_eq!(final_steps(&quiet, true), Ok(vec![]));
}
