use mir2wasm::binaryen::builder::{Module, ReprType};
use mir2wasm::binaryen::ir::{BinaryOp, Expr, Literal, UnaryOp};
use mir2wasm::error::ErrorKind;
use mir2wasm::mir::{
    AggregateKind, BinOp, CastKind, ConstInt, ConstIsize, ConstVal, Constant, FnDef, FnRef, FnSig,
    IntTy, Integer, Layout, LocalDecl, Lvalue, Mir, Operand, Program, Projection, ProjectionElem,
    Rvalue, Struct, TyKind, TypeInfo, UnOp,
};
use mir2wasm::trans::context::BinaryenFnCtxt;
use mir2wasm::trans::operand::{literal, operand_ty};
use mir2wasm::trans::place::{BinaryenLvalue, LvalueExtra};
use mir2wasm::trans::stack::STACK_POINTER_ADDRESS;
use mir2wasm::trans::types::{frame_bits, type_kind, type_layout, type_size};

const UNIT: usize = 0;
const I32: usize = 1;
const I64: usize = 2;
const PAIR: usize = 3;
const POINT: usize = 4;
const SHAPE: usize = 5;
const REF: usize = 6;
const COLOR: usize = 7;
const OPAQUE: usize = 8;
const HUGE: usize = 9;
const BOOL: usize = 10;

fn scalar(kind: TyKind, size: u64) -> TypeInfo {
    TypeInfo { kind, layout: Some(Layout::Scalar), size }
}

fn record(offsets: Vec<u64>, size: u64) -> TypeInfo {
    TypeInfo {
        kind: TyKind::Other,
        layout: Some(Layout::Univariant { variant: Struct { offsets } }),
        size,
    }
}

fn types() -> Vec<TypeInfo> {
    vec![
        TypeInfo {
            kind: TyKind::Nil,
            layout: Some(Layout::Univariant { variant: Struct { offsets: vec![] } }),
            size: 0,
        },
        scalar(TyKind::Int(IntTy::I32), 4),
        scalar(TyKind::Int(IntTy::I64), 8),
        record(vec![0, 4], 8),
        record(vec![0, 4, 8], 12),
        TypeInfo {
            kind: TyKind::Other,
            layout: Some(Layout::General {
                discr: Integer::I32,
                variants: vec![Struct { offsets: vec![4] }, Struct { offsets: vec![4, 8] }],
            }),
            size: 12,
        },
        scalar(TyKind::Other, 4),
        TypeInfo { kind: TyKind::Other, layout: Some(Layout::CEnum { discr: Integer::I8 }), size: 1 },
        TypeInfo { kind: TyKind::Other, layout: None, size: 0 },
        record(vec![0], 0x2000_0000),
        scalar(TyKind::Bool, 1),
    ]
}

/// A program with one function `f(a: i32, b: i64)` without result, whose
/// locals after the parameters are user variables of the types `locals`.
fn program(locals: &[usize]) -> Program {
    let mut local_decls = vec![LocalDecl { ty: UNIT }, LocalDecl { ty: I32 }, LocalDecl { ty: I64 }];
    for &ty in locals {
        local_decls.push(LocalDecl { ty });
    }
    Program {
        types: types(),
        sigs: vec![FnSig { inputs: vec![I32, I64], output: UNIT }],
        defs: vec![FnDef {
            path: "f".to_string(),
            krate: 0,
            index: 1,
            sig: 0,
            generic: false,
            is_local: true,
            mir: Some(Mir { local_decls, var_count: locals.len(), basic_blocks: vec![] }),
            link: None,
        }],
        panic_fn: None,
    }
}

fn body(program: &Program) -> &Mir {
    program.defs[0].mir.as_ref().unwrap()
}

fn context(program: &Program) -> BinaryenFnCtxt {
    let mut module = Module::new();
    BinaryenFnCtxt::new(program, &mut module, body(program), 0, 0).unwrap().0
}

fn field(base: Lvalue, index: usize, ty: usize) -> Lvalue {
    Lvalue::Projection(Box::new(Projection { base, elem: ProjectionElem::Field(index), ty }))
}

fn num(value: i32) -> Operand {
    Operand::Constant(Constant {
        ty: I32,
        literal: mir2wasm::mir::Literal::Value(ConstVal::Integral(ConstInt::I32(value))),
    })
}

fn k32(value: i32) -> Expr {
    Expr::Const(Literal::Int32(value))
}

fn get(index: usize, ty: ReprType) -> Expr {
    Expr::GetLocal { index, ty: Some(ty) }
}

fn sp() -> Expr {
    k32(0)
}

fn read_sp() -> Expr {
    Expr::Load {
        bytes: 4,
        signed: false,
        offset: 0,
        align: 0,
        ty: Some(ReprType::Int32),
        ptr: Box::new(sp()),
    }
}

fn store32(offset: u32, ptr: Expr, value: Expr) -> Expr {
    Expr::Store {
        bytes: 4,
        offset,
        align: 0,
        ptr: Box::new(ptr),
        value: Box::new(value),
        ty: Some(ReprType::Int32),
    }
}

fn alloca(dest: usize, bytes: i32) -> Expr {
    store32(
        0,
        sp(),
        Expr::TeeLocal {
            index: dest,
            value: Box::new(Expr::Binary {
                op: BinaryOp::SubInt32,
                left: Box::new(read_sp()),
                right: Box::new(k32(bytes)),
            }),
        },
    )
}

fn assign(program: &Program, lvalue: &Lvalue, rvalue: &Rvalue) -> Result<Vec<Expr>, ErrorKind> {
    let fcx = context(program);
    let mut statements = Vec::new();
    fcx.trans_assignment(program, body(program), lvalue, rvalue, &mut statements)?;
    Ok(statements)
}

/// The state of a machine that runs instruction trees: slots and linear
/// memory.
struct Machine {
    locals: Vec<i64>,
    memory: Vec<u8>,
}

impl Machine {
    fn new(stack_pointer: i32) -> Machine {
        let mut m = Machine { locals: vec![0; 32], memory: vec![0; 0x10000] };
        m.write(0, 4, stack_pointer as i64);
        m
    }

    fn read(&self, addr: usize, bytes: usize) -> i64 {
        let mut v: u64 = 0;
        for k in 0..bytes {
            v |= (self.memory[addr + k] as u64) << (8 * k);
        }
        if bytes == 4 {
            v as u32 as i32 as i64
        } else {
            v as i64
        }
    }

    fn write(&mut self, addr: usize, bytes: usize, value: i64) {
        for k in 0..bytes {
            self.memory[addr + k] = (value as u64 >> (8 * k)) as u8;
        }
    }

    fn stack_pointer(&self) -> i32 {
        self.read(STACK_POINTER_ADDRESS as usize, 4) as i32
    }

    fn eval(&mut self, e: &Expr) -> Option<i64> {
        match e {
            Expr::Const(Literal::Int32(k)) => Some(*k as i64),
            Expr::Const(Literal::Int64(k)) => Some(*k),
            Expr::GetLocal { index, .. } => Some(self.locals[*index]),
            Expr::SetLocal { index, value } => {
                let v = self.eval(value).unwrap();
                self.locals[*index] = v;
                None
            }
            Expr::TeeLocal { index, value } => {
                let v = self.eval(value).unwrap();
                self.locals[*index] = v;
                Some(v)
            }
            Expr::Load { bytes, offset, ptr, .. } => {
                let a = self.eval(ptr).unwrap() as u32 as usize + *offset as usize;
                Some(self.read(a, *bytes as usize))
            }
            Expr::Store { bytes, offset, ptr, value, .. } => {
                let a = self.eval(ptr).unwrap() as u32 as usize + *offset as usize;
                let v = self.eval(value).unwrap();
                self.write(a, *bytes as usize, v);
                None
            }
            Expr::Unary { op, value } => {
                let v = self.eval(value).unwrap();
                Some(match op {
                    UnaryOp::EqZInt32 => (v as i32 == 0) as i64,
                    UnaryOp::ExtendSInt32 => v as i32 as i64,
                    UnaryOp::WrapInt64 => v as i32 as i64,
                })
            }
            Expr::Binary { op, left, right } => {
                let a = self.eval(left).unwrap();
                let b = self.eval(right).unwrap();
                Some(match op {
                    BinaryOp::AddInt32 => (a as i32).wrapping_add(b as i32) as i64,
                    BinaryOp::SubInt32 => (a as i32).wrapping_sub(b as i32) as i64,
                    BinaryOp::MulInt32 => (a as i32).wrapping_mul(b as i32) as i64,
                    BinaryOp::AddInt64 => a.wrapping_add(b),
                    BinaryOp::SubInt64 => a.wrapping_sub(b),
                    BinaryOp::MulInt64 => a.wrapping_mul(b),
                    BinaryOp::DivSInt64 => a.wrapping_div(b),
                    BinaryOp::ShrUInt64 => ((a as u64) >> (b as u64 % 64)) as i64,
                    other => panic!("operator {:?} is not evaluated here", other),
                })
            }
            Expr::Drop { value } => {
                self.eval(value);
                None
            }
            Expr::Block { children, .. } => {
                for c in children {
                    self.eval(c);
                }
                None
            }
            other => panic!("instruction {:?} is not evaluated here", other),
        }
    }

    fn run(&mut self, statements: &[Expr]) {
        for s in statements {
            self.eval(s);
        }
    }
}

/// The low and the high word that a checked operation on `a` and `b`
/// writes to a destination that is a slot.
fn checked_words(op: BinOp, a: i32, b: i32) -> (i32, i32) {
    let p = program(&[PAIR]);
    let statements = assign(
        &p,
        &Lvalue::Local(3),
        &Rvalue::CheckedBinaryOp(op, num(a), num(b)),
    )
    .unwrap();
    let mut m = Machine::new(0x8000);
    m.run(&statements);
    let frame = m.locals[2] as usize;
    assert_eq!(frame, 0x8000 - 8);
    (m.read(frame, 4) as i32, m.read(frame + 4, 4) as i32)
}

#[test]
fn constants_become_literals() {
    assert_eq!(literal(ConstVal::Integral(ConstInt::I32(-5))), Ok(Literal::Int32(-5)));
    assert_eq!(literal(ConstVal::Integral(ConstInt::I64(1 << 40))), Ok(Literal::Int64(1 << 40)));
    assert_eq!(
        literal(ConstVal::Integral(ConstInt::Isize(ConstIsize::Is32(7)))),
        Ok(Literal::Int32(7))
    );
    assert_eq!(literal(ConstVal::Bool(true)), Ok(Literal::Int32(1)));
    assert_eq!(literal(ConstVal::Bool(false)), Ok(Literal::Int32(0)));
}

#[test]
fn a_64_bit_isize_keeps_its_low_32_bits() {
    assert_eq!(
        literal(ConstVal::Integral(ConstInt::Isize(ConstIsize::Is64(0x1_0000_0005)))),
        Ok(Literal::Int32(5))
    );
    assert_eq!(
        literal(ConstVal::Integral(ConstInt::Isize(ConstIsize::Is64(-1)))),
        Ok(Literal::Int32(-1))
    );
    assert_eq!(
        literal(ConstVal::Integral(ConstInt::Isize(ConstIsize::Is64(0x8000_0000)))),
        Ok(Literal::Int32(-2147483648))
    );
}

#[test]
fn other_constants_are_not_supported() {
    assert_eq!(literal(ConstVal::Other), Err(ErrorKind::UnsupportedConstant));
    assert_eq!(literal(ConstVal::Integral(ConstInt::Other)), Err(ErrorKind::UnsupportedConstant));
    let f = FnRef { def_id: 0, resolved: None, mono_sig: 0 };
    assert_eq!(literal(ConstVal::Function(f)), Err(ErrorKind::UnsupportedConstant));
    let p = program(&[]);
    let fcx = context(&p);
    let promoted = Operand::Constant(Constant { ty: I32, literal: mir2wasm::mir::Literal::Promoted });
    assert_eq!(fcx.trans_operand(&p, body(&p), &promoted), Err(ErrorKind::UnsupportedConstant));
    let item = Operand::Constant(Constant { ty: I32, literal: mir2wasm::mir::Literal::Item(f) });
    assert_eq!(fcx.trans_operand(&p, body(&p), &item), Err(ErrorKind::UnsupportedConstant));
}

#[test]
fn operands_read_slots_and_memory() {
    let p = program(&[POINT, UNIT]);
    let fcx = context(&p);
    let m = body(&p);
    assert_eq!(fcx.trans_operand(&p, m, &num(3)), Ok(k32(3)));
    assert_eq!(
        fcx.trans_operand(&p, m, &Operand::Consume(Lvalue::Local(2))),
        Ok(get(1, ReprType::Int64))
    );
    assert_eq!(
        fcx.trans_operand(&p, m, &Operand::Consume(field(Lvalue::Local(3), 2, I32))),
        Ok(Expr::Load {
            bytes: 4,
            signed: false,
            offset: 8,
            align: 0,
            ty: Some(ReprType::Int32),
            ptr: Box::new(get(2, ReprType::Int32)),
        })
    );
    assert_eq!(
        fcx.trans_operand(&p, m, &Operand::Consume(Lvalue::Local(4))),
        Ok(Expr::Unreachable)
    );
    assert_eq!(
        fcx.trans_operand(&p, m, &Operand::Consume(Lvalue::Local(9))),
        Err(ErrorKind::UnsupportedPlace)
    );
}

#[test]
fn types_of_operands() {
    let p = program(&[POINT]);
    let m = body(&p);
    assert_eq!(operand_ty(m, &num(1)), Ok(I32));
    assert_eq!(operand_ty(m, &Operand::Consume(Lvalue::Local(3))), Ok(POINT));
    assert_eq!(operand_ty(m, &Operand::Consume(Lvalue::Static)), Err(ErrorKind::UnsupportedPlace));
}

#[test]
fn layout_queries() {
    let p = program(&[]);
    assert_eq!(type_kind(&p, I64), Ok(TyKind::Int(IntTy::I64)));
    assert_eq!(type_kind(&p, 99), Err(ErrorKind::LayoutFailure));
    assert_eq!(type_layout(&p, I32), Ok(&Layout::Scalar));
    assert_eq!(type_layout(&p, OPAQUE), Err(ErrorKind::LayoutFailure));
    assert_eq!(type_layout(&p, 99), Err(ErrorKind::LayoutFailure));
    assert_eq!(type_size(&p, POINT), Ok(12));
    assert_eq!(type_size(&p, OPAQUE), Err(ErrorKind::LayoutFailure));
    assert_eq!(frame_bits(&p, POINT), Ok(96));
    assert_eq!(frame_bits(&p, UNIT), Ok(0));
    assert_eq!(frame_bits(&p, HUGE), Err(ErrorKind::UnsupportedLayout));
    assert_eq!(frame_bits(&p, OPAQUE), Err(ErrorKind::LayoutFailure));
}

#[test]
fn a_use_writes_to_the_slot_or_to_memory() {
    let p = program(&[I32, POINT]);
    assert_eq!(
        assign(&p, &Lvalue::Local(3), &Rvalue::Use(num(9))),
        Ok(vec![Expr::SetLocal { index: 2, value: Box::new(k32(9)) }])
    );
    assert_eq!(
        assign(&p, &field(Lvalue::Local(4), 1, I32), &Rvalue::Use(num(9))),
        Ok(vec![store32(4, get(3, ReprType::Int32), k32(9))])
    );
}

fn discard(value: Expr) -> Expr {
    Expr::Drop { value: Box::new(value) }
}

#[test]
fn an_assignment_to_a_unit_place_discards_the_value() {
    let p = program(&[UNIT, POINT]);
    assert_eq!(assign(&p, &Lvalue::Local(3), &Rvalue::Use(num(9))), Ok(vec![discard(k32(9))]));
    let read = Expr::Load {
        bytes: 4,
        signed: false,
        offset: 4,
        align: 0,
        ty: Some(ReprType::Int32),
        ptr: Box::new(get(2, ReprType::Int32)),
    };
    assert_eq!(
        assign(
            &p,
            &Lvalue::Local(0),
            &Rvalue::Use(Operand::Consume(field(Lvalue::Local(4), 1, I32)))
        ),
        Ok(vec![discard(read)])
    );
    assert_eq!(
        assign(&p, &Lvalue::Local(3), &Rvalue::Ref(Lvalue::Local(4))),
        Ok(vec![discard(get(2, ReprType::Int32))])
    );
}

#[test]
fn discarded_operations_are_evaluated() {
    let p = program(&[UNIT]);
    let unit = Lvalue::Local(3);
    assert_eq!(
        assign(&p, &unit, &Rvalue::UnaryOp(UnOp::Not, num(1))),
        Ok(vec![discard(Expr::Unary { op: UnaryOp::EqZInt32, value: Box::new(k32(1)) })])
    );
    assert_eq!(
        assign(&p, &unit, &Rvalue::BinaryOp(BinOp::Div, num(6), num(0))),
        Ok(vec![discard(Expr::Binary {
            op: BinaryOp::DivSInt32,
            left: Box::new(k32(6)),
            right: Box::new(k32(0)),
        })])
    );
    assert_eq!(
        assign(&p, &unit, &Rvalue::CheckedBinaryOp(BinOp::Add, num(1), num(2))),
        Ok(vec![discard(Expr::Binary {
            op: BinaryOp::AddInt64,
            left: Box::new(Expr::Unary { op: UnaryOp::ExtendSInt32, value: Box::new(k32(1)) }),
            right: Box::new(Expr::Unary { op: UnaryOp::ExtendSInt32, value: Box::new(k32(2)) }),
        })])
    );
    assert_eq!(
        assign(
            &p,
            &unit,
            &Rvalue::Cast(CastKind::Misc, Operand::Consume(Lvalue::Local(2)), I32)
        ),
        Ok(vec![discard(get(1, ReprType::Int64))])
    );
    assert_eq!(
        assign(
            &p,
            &unit,
            &Rvalue::Aggregate(
                AggregateKind::Tuple,
                vec![num(1), Operand::Consume(Lvalue::Local(0)), num(3)]
            )
        ),
        Ok(vec![discard(k32(1)), discard(k32(3))])
    );
}

#[test]
fn where_there_is_nothing_to_evaluate_nothing_is_discarded() {
    let p = program(&[UNIT]);
    let unit = Lvalue::Local(3);
    assert_eq!(assign(&p, &unit, &Rvalue::Aggregate(AggregateKind::Tuple, vec![])), Ok(vec![]));
    assert_eq!(
        assign(&p, &unit, &Rvalue::Use(Operand::Consume(Lvalue::Local(0)))),
        Ok(vec![])
    );
    assert_eq!(assign(&p, &Lvalue::Local(0), &Rvalue::Ref(Lvalue::Local(3))), Ok(vec![]));
}

#[test]
fn a_discarded_value_fails_as_a_written_one() {
    let p = program(&[UNIT, POINT, OPAQUE]);
    let unit = Lvalue::Local(3);
    assert_eq!(assign(&p, &unit, &Rvalue::Other), Err(ErrorKind::UnsupportedRvalue));
    assert_eq!(
        assign(&p, &unit, &Rvalue::UnaryOp(UnOp::Neg, num(1))),
        Err(ErrorKind::UnsupportedOperator)
    );
    assert_eq!(
        assign(&p, &unit, &Rvalue::BinaryOp(BinOp::Shl, num(1), num(1))),
        Err(ErrorKind::UnsupportedOperator)
    );
    assert_eq!(
        assign(&p, &unit, &Rvalue::CheckedBinaryOp(BinOp::Rem, num(1), num(1))),
        Err(ErrorKind::UnsupportedOperator)
    );
    assert_eq!(
        assign(&p, &unit, &Rvalue::Use(Operand::Consume(Lvalue::Local(9)))),
        Err(ErrorKind::UnsupportedPlace)
    );
    assert_eq!(
        assign(&p, &unit, &Rvalue::Aggregate(AggregateKind::Array, vec![num(1)])),
        Err(ErrorKind::UnsupportedAggregate)
    );
    assert_eq!(
        assign(&p, &unit, &Rvalue::Cast(CastKind::Unsize, num(1), I32)),
        Err(ErrorKind::UnsupportedCast)
    );
    assert_eq!(
        assign(
            &p,
            &unit,
            &Rvalue::Cast(CastKind::Misc, Operand::Consume(Lvalue::Local(4)), I32)
        ),
        Err(ErrorKind::UnsupportedCast)
    );
    assert_eq!(
        assign(
            &p,
            &unit,
            &Rvalue::Cast(CastKind::Misc, Operand::Consume(Lvalue::Local(5)), I32)
        ),
        Err(ErrorKind::LayoutFailure)
    );
}

#[test]
fn not_is_a_test_for_zero() {
    let p = program(&[BOOL]);
    assert_eq!(
        assign(&p, &Lvalue::Local(3), &Rvalue::UnaryOp(UnOp::Not, num(1))),
        Ok(vec![Expr::SetLocal {
            index: 2,
            value: Box::new(Expr::Unary { op: UnaryOp::EqZInt32, value: Box::new(k32(1)) }),
        }])
    );
    assert_eq!(
        assign(&p, &Lvalue::Local(3), &Rvalue::UnaryOp(UnOp::Neg, num(1))),
        Err(ErrorKind::UnsupportedOperator)
    );
}

#[test]
fn binary_operations_are_32_bit_and_signed() {
    let p = program(&[I32, POINT]);
    let sum = Expr::Binary {
        op: BinaryOp::LtSInt32,
        left: Box::new(get(0, ReprType::Int32)),
        right: Box::new(k32(2)),
    };
    assert_eq!(
        assign(
            &p,
            &Lvalue::Local(3),
            &Rvalue::BinaryOp(BinOp::Lt, Operand::Consume(Lvalue::Local(1)), num(2))
        ),
        Ok(vec![Expr::SetLocal { index: 2, value: Box::new(sum) }])
    );
    let product = Expr::Binary {
        op: BinaryOp::MulInt32,
        left: Box::new(k32(3)),
        right: Box::new(k32(2)),
    };
    assert_eq!(
        assign(&p, &field(Lvalue::Local(4), 2, I32), &Rvalue::BinaryOp(BinOp::Mul, num(3), num(2))),
        Ok(vec![store32(8, get(3, ReprType::Int32), product)])
    );
    assert_eq!(
        assign(&p, &Lvalue::Local(3), &Rvalue::BinaryOp(BinOp::Shl, num(3), num(2))),
        Err(ErrorKind::UnsupportedOperator)
    );
}

#[test]
fn a_checked_operation_is_done_at_double_width() {
    let p = program(&[PAIR]);
    let scratch = 5;
    let wide = Expr::SetLocal {
        index: scratch,
        value: Box::new(Expr::Binary {
            op: BinaryOp::AddInt64,
            left: Box::new(Expr::Unary { op: UnaryOp::ExtendSInt32, value: Box::new(k32(1)) }),
            right: Box::new(Expr::Unary { op: UnaryOp::ExtendSInt32, value: Box::new(k32(2)) }),
        }),
    };
    let lower = Expr::Unary {
        op: UnaryOp::WrapInt64,
        value: Box::new(get(scratch, ReprType::Int64)),
    };
    let upper = Expr::Unary {
        op: UnaryOp::WrapInt64,
        value: Box::new(Expr::Binary {
            op: BinaryOp::ShrUInt64,
            left: Box::new(get(scratch, ReprType::Int64)),
            right: Box::new(Expr::Const(Literal::Int64(32))),
        }),
    };
    assert_eq!(
        assign(&p, &Lvalue::Local(3), &Rvalue::CheckedBinaryOp(BinOp::Add, num(1), num(2))),
        Ok(vec![
            wide,
            alloca(2, 8),
            store32(0, get(2, ReprType::Int32), lower),
            store32(4, get(2, ReprType::Int32), upper),
        ])
    );
}

#[test]
fn a_checked_operation_in_memory_writes_two_adjacent_words() {
    let p = program(&[POINT]);
    let statements = assign(
        &p,
        &field(Lvalue::Local(3), 1, PAIR),
        &Rvalue::CheckedBinaryOp(BinOp::Sub, num(1), num(2)),
    )
    .unwrap();
    assert_eq!(statements.len(), 3);
    let offsets: Vec<u32> = statements[1..]
        .iter()
        .map(|s| match s {
            Expr::Store { offset, bytes: 4, .. } => *offset,
            other => panic!("not a store: {:?}", other),
        })
        .collect();
    assert_eq!(offsets, vec![4, 8]);
    let mut m = Machine::new(0x8000);
    m.locals[2] = 0x100;
    m.run(&statements);
    assert_eq!(m.read(0x104, 4), -1);
    assert_eq!(m.read(0x108, 4), -1);
    assert_eq!(m.stack_pointer(), 0x8000);
}

#[test]
fn checked_operations_on_other_operators_are_not_supported() {
    let p = program(&[PAIR]);
    for op in [BinOp::Rem, BinOp::BitAnd, BinOp::Shl, BinOp::Eq] {
        assert_eq!(
            assign(&p, &Lvalue::Local(3), &Rvalue::CheckedBinaryOp(op, num(1), num(2))),
            Err(ErrorKind::UnsupportedOperator)
        );
    }
}

#[test]
fn checked_add_words() {
    // The low word is the wrapped sum. The high word is the upper half of
    // the sum at double width: it is zero here although the sum does not
    // fit in 32 bits.
    assert_eq!(checked_words(BinOp::Add, 2147483647, 1), (-2147483648, 0));
    assert_eq!(checked_words(BinOp::Add, 1, 1), (2, 0));
    assert_eq!(checked_words(BinOp::Add, -1, 0), (-1, -1));
    assert_eq!(checked_words(BinOp::Add, -2147483648, -1), (2147483647, -1));
}

#[test]
fn checked_sub_and_mul_words() {
    assert_eq!(checked_words(BinOp::Sub, 5, 7), (-2, -1));
    assert_eq!(checked_words(BinOp::Sub, -2147483648, 1), (2147483647, -1));
    assert_eq!(checked_words(BinOp::Mul, 0x10000, 0x10000), (0, 1));
    assert_eq!(checked_words(BinOp::Mul, 2147483647, 2), (-2, 0));
    assert_eq!(checked_words(BinOp::Mul, 3, 4), (12, 0));
}

#[test]
fn checked_div_has_no_meaningful_high_word() {
    // Known gap: the quotient at double width never needs its upper half,
    // so the high word says nothing of the one overflow of a division.
    assert_eq!(checked_words(BinOp::Div, -2147483648, -1), (-2147483648, 0));
    assert_eq!(checked_words(BinOp::Div, 7, 2), (3, 0));
    assert_eq!(checked_words(BinOp::Div, -7, 2), (-3, -1));
}

#[test]
fn a_reference_copies_the_value_of_the_place() {
    let p = program(&[REF, POINT]);
    assert_eq!(
        assign(&p, &Lvalue::Local(3), &Rvalue::Ref(Lvalue::Local(4))),
        Ok(vec![Expr::SetLocal { index: 2, value: Box::new(get(3, ReprType::Int32)) }])
    );
}

#[test]
fn a_record_is_built_in_a_new_frame() {
    let p = program(&[POINT]);
    let kind = AggregateKind::Adt { ty: POINT, variant: 0 };
    assert_eq!(
        assign(&p, &Lvalue::Local(3), &Rvalue::Aggregate(kind, vec![num(1), num(2), num(3)])),
        Ok(vec![
            alloca(2, 12),
            store32(0, read_sp(), k32(1)),
            store32(4, read_sp(), k32(2)),
            store32(8, read_sp(), k32(3)),
        ])
    );
}

#[test]
fn a_tuple_is_built_in_a_new_frame() {
    let p = program(&[PAIR]);
    assert_eq!(
        assign(
            &p,
            &Lvalue::Local(3),
            &Rvalue::Aggregate(AggregateKind::Tuple, vec![num(1), num(2)])
        ),
        Ok(vec![alloca(2, 8), store32(0, read_sp(), k32(1)), store32(4, read_sp(), k32(2))])
    );
    assert_eq!(
        assign(&p, &Lvalue::Local(3), &Rvalue::Aggregate(AggregateKind::Tuple, vec![])),
        Ok(vec![])
    );
}

#[test]
fn fields_written_are_read_back_at_the_same_offsets() {
    let p = program(&[POINT, I32]);
    let fcx = context(&p);
    let mut statements = Vec::new();
    let kind = AggregateKind::Adt { ty: POINT, variant: 0 };
    fcx.trans_assignment(
        &p,
        body(&p),
        &Lvalue::Local(3),
        &Rvalue::Aggregate(kind, vec![num(10), num(20), num(30)]),
        &mut statements,
    )
    .unwrap();
    for (k, expected) in [(0, 10), (1, 20), (2, 30)] {
        let mut m = Machine::new(0x8000);
        m.run(&statements);
        let read = fcx
            .trans_operand(&p, body(&p), &Operand::Consume(field(Lvalue::Local(3), k, I32)))
            .unwrap();
        assert_eq!(m.eval(&read), Some(expected));
    }
}

#[test]
fn fields_are_written_as_far_as_operands_and_offsets_go() {
    let p = program(&[POINT, PAIR]);
    let point = AggregateKind::Adt { ty: POINT, variant: 0 };
    assert_eq!(
        assign(&p, &Lvalue::Local(3), &Rvalue::Aggregate(point, vec![num(1)])),
        Ok(vec![alloca(2, 12), store32(0, read_sp(), k32(1))])
    );
    let pair = AggregateKind::Adt { ty: PAIR, variant: 0 };
    // the third operand has no field: it is not looked at
    let past = Operand::Consume(Lvalue::Local(9));
    assert_eq!(
        assign(&p, &Lvalue::Local(4), &Rvalue::Aggregate(pair, vec![num(1), num(2), past])),
        Ok(vec![alloca(3, 8), store32(0, read_sp(), k32(1)), store32(4, read_sp(), k32(2))])
    );
    let fcx = context(&p);
    let mut statements = Vec::new();
    assert_eq!(
        fcx.emit_assign_fields(&p, body(&p), &vec![0, 8, 16], &vec![num(5), num(6)], &mut statements),
        Ok(())
    );
    assert_eq!(statements, vec![store32(0, read_sp(), k32(5)), store32(8, read_sp(), k32(6))]);
    let mut none = Vec::new();
    assert_eq!(fcx.emit_assign_fields(&p, body(&p), &vec![], &vec![num(5)], &mut none), Ok(()));
    assert!(none.is_empty());
}

#[test]
fn unsupported_aggregates_are_rejected() {
    let p = program(&[POINT, SHAPE, COLOR, I32, OPAQUE]);
    let shape = AggregateKind::Adt { ty: SHAPE, variant: 1 };
    assert_eq!(
        assign(&p, &Lvalue::Local(4), &Rvalue::Aggregate(shape, vec![num(1), num(2)])),
        Err(ErrorKind::UnsupportedAggregate)
    );
    let color = AggregateKind::Adt { ty: COLOR, variant: 1 };
    assert_eq!(
        assign(&p, &Lvalue::Local(5), &Rvalue::Aggregate(color, vec![])),
        Err(ErrorKind::UnsupportedAggregate)
    );
    assert_eq!(
        assign(&p, &Lvalue::Local(6), &Rvalue::Aggregate(AggregateKind::Tuple, vec![num(1)])),
        Err(ErrorKind::UnsupportedAggregate)
    );
    assert_eq!(
        assign(&p, &Lvalue::Local(3), &Rvalue::Aggregate(AggregateKind::Array, vec![num(1)])),
        Err(ErrorKind::UnsupportedAggregate)
    );
    assert_eq!(
        assign(&p, &Lvalue::Local(3), &Rvalue::Aggregate(AggregateKind::Closure, vec![])),
        Err(ErrorKind::UnsupportedAggregate)
    );
    let opaque = AggregateKind::Adt { ty: OPAQUE, variant: 0 };
    assert_eq!(
        assign(&p, &Lvalue::Local(3), &Rvalue::Aggregate(opaque, vec![])),
        Err(ErrorKind::LayoutFailure)
    );
    assert_eq!(
        assign(&p, &Lvalue::Local(7), &Rvalue::Use(num(1))),
        Err(ErrorKind::LayoutFailure)
    );
}

#[test]
fn a_frame_that_is_too_large_is_rejected() {
    let p = program(&[HUGE]);
    let huge = AggregateKind::Adt { ty: HUGE, variant: 0 };
    assert_eq!(
        assign(&p, &Lvalue::Local(3), &Rvalue::Aggregate(huge, vec![num(1)])),
        Err(ErrorKind::UnsupportedLayout)
    );
}

#[test]
fn casts_of_scalars_copy_the_value() {
    let p = program(&[I32, COLOR, POINT]);
    assert_eq!(
        assign(
            &p,
            &Lvalue::Local(3),
            &Rvalue::Cast(CastKind::Misc, Operand::Consume(Lvalue::Local(2)), I32)
        ),
        Ok(vec![Expr::SetLocal { index: 2, value: Box::new(get(1, ReprType::Int64)) }])
    );
    assert_eq!(
        assign(
            &p,
            &Lvalue::Local(3),
            &Rvalue::Cast(CastKind::Misc, Operand::Consume(Lvalue::Local(4)), I32)
        ),
        Ok(vec![Expr::SetLocal { index: 2, value: Box::new(get(3, ReprType::Int32)) }])
    );
}

#[test]
fn other_casts_are_not_supported() {
    let p = program(&[I32, COLOR, POINT, REF]);
    assert_eq!(
        assign(
            &p,
            &Lvalue::Local(3),
            &Rvalue::Cast(CastKind::Unsize, Operand::Consume(Lvalue::Local(1)), I32)
        ),
        Err(ErrorKind::UnsupportedCast)
    );
    assert_eq!(
        assign(
            &p,
            &Lvalue::Local(3),
            &Rvalue::Cast(CastKind::Misc, Operand::Consume(Lvalue::Local(5)), I32)
        ),
        Err(ErrorKind::UnsupportedCast)
    );
    assert_eq!(
        assign(
            &p,
            &Lvalue::Local(6),
            &Rvalue::Cast(CastKind::Misc, Operand::Consume(Lvalue::Local(1)), REF)
        ),
        Err(ErrorKind::UnsupportedCast)
    );
    assert_eq!(
        assign(
            &p,
            &field(Lvalue::Local(5), 0, I32),
            &Rvalue::Cast(CastKind::Misc, Operand::Consume(Lvalue::Local(1)), I32)
        ),
        Err(ErrorKind::UnsupportedCast)
    );
}

#[test]
fn other_values_are_not_supported() {
    let p = program(&[I32]);
    assert_eq!(assign(&p, &Lvalue::Local(3), &Rvalue::Other), Err(ErrorKind::UnsupportedRvalue));
}

#[test]
fn stack_pointer_instructions() {
    let p = program(&[]);
    let fcx = context(&p);
    assert_eq!(STACK_POINTER_ADDRESS, 0);
    assert_eq!(fcx.emit_sp(), sp());
    assert_eq!(fcx.emit_read_sp(), read_sp());
    assert_eq!(fcx.emit_alloca(3, 96), alloca(3, 12));
    assert_eq!(fcx.emit_alloca(3, 0), alloca(3, 0));
}

#[test]
fn a_copy_takes_the_largest_pieces_first() {
    let p = program(&[]);
    let fcx = context(&p);
    let mut statements = Vec::new();
    fcx.emit_copy(7, 15, &mut statements);
    let pieces: Vec<(u32, u32)> = statements
        .iter()
        .map(|s| match s {
            Expr::Store { bytes, offset, value, ptr, ty, .. } => {
                assert_eq!(**ptr, read_sp());
                assert_eq!(*ty, Some(ReprType::Int64));
                match &**value {
                    Expr::Load { bytes: read, offset: from, ptr, ty, .. } => {
                        assert_eq!(read, bytes);
                        assert_eq!(from, offset);
                        assert_eq!(**ptr, get(7, ReprType::Int32));
                        let expected =
                            if *bytes == 8 { ReprType::Int64 } else { ReprType::Int32 };
                        assert_eq!(*ty, Some(expected));
                    }
                    other => panic!("not a load: {:?}", other),
                }
                (*bytes, *offset)
            }
            other => panic!("not a store: {:?}", other),
        })
        .collect();
    assert_eq!(pieces, vec![(8, 0), (4, 8), (2, 12), (1, 14)]);
    let mut none = Vec::new();
    fcx.emit_copy(7, 0, &mut none);
    assert!(none.is_empty());
    let mut two = Vec::new();
    fcx.emit_copy(7, 16, &mut two);
    assert_eq!(two.len(), 2);
}

#[test]
fn a_copy_moves_every_byte() {
    let p = program(&[]);
    let fcx = context(&p);
    let mut statements = Vec::new();
    fcx.emit_copy(7, 15, &mut statements);
    let mut m = Machine::new(0x4000);
    m.locals[7] = 0x100;
    for k in 0..15 {
        m.memory[0x100 + k] = (k + 1) as u8;
    }
    m.run(&statements);
    for k in 0..15 {
        assert_eq!(m.memory[0x4000 + k], (k + 1) as u8);
    }
    assert_eq!(m.memory[0x4000 + 15], 0);
}

#[test]
fn allocations_bump_the_stack_pointer_down() {
    let p = program(&[]);
    let fcx = context(&p);
    let sizes = [12u32, 8, 0, 4096];
    let mut m = Machine::new(0xFFFF);
    // prologue
    m.eval(&Expr::SetLocal { index: 20, value: Box::new(fcx.emit_read_sp()) });
    let mut expected = 0xFFFF;
    for (k, bytes) in sizes.iter().enumerate() {
        assert_eq!(m.stack_pointer(), expected);
        m.eval(&fcx.emit_alloca(k, bytes * 8));
        expected -= *bytes as i32;
        assert_eq!(m.stack_pointer(), expected);
        assert_eq!(m.locals[k], expected as i64);
    }
    assert_eq!(m.stack_pointer(), 0xFFFF - 12 - 8 - 4096);
    // epilogue
    m.eval(&store32(0, sp(), get(20, ReprType::Int32)));
    assert_eq!(m.stack_pointer(), 0xFFFF);
}

#[test]
fn checked_operation_needs_room_for_the_second_word() {
    let p = program(&[]);
    let fcx = context(&p);
    let mut statements = Vec::new();
    let dest = BinaryenLvalue { index: 0, offset: Some(u32::MAX - 3), extra: LvalueExtra::Nothing };
    assert_eq!(
        fcx.emit_checked(
            &p,
            dest,
            PAIR,
            Some(ReprType::Int32),
            BinOp::Add,
            k32(1),
            k32(2),
            &mut statements
        ),
        Err(ErrorKind::UnsupportedPlace)
    );
    assert!(statements.is_empty());
}
