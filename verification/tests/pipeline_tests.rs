use atlas77::codegen::CodeGenUnit;
use atlas77::frontend::ast::AstIdentifier;
use atlas77::frontend::syntax::{
    AstBinaryOp, AstBinaryOpExpr, AstBlock, AstCallExpr, AstConstExpr, AstExpr, AstFunction,
    AstImport, AstIndexingExpr, AstItem, AstLetExpr, AstLiteral, AstObjField, AstProgram,
    AstReturnStmt, AstStatement, AstType, AstUnaryOp, AstUnaryOpExpr, AstWhileExpr,
};
use atlas77::hir::error::HirError;
use atlas77::hir::expr::HirExpr;
use atlas77::hir::item::HirModule;
use atlas77::hir::lowering::AstSyntaxLoweringPass;
use atlas77::hir::names::NameMap;
use atlas77::hir::ops::{HirBinaryOp, UnaryOp};
use atlas77::hir::stmt::HirStatement;
use atlas77::hir::ty::HirTy;
use atlas77::hir::type_check::{ContextFunction, ContextVariable, TypeChecker};
use atlas77::span::Span;
use atlas77::vm::interp::Atlas77VM;
use atlas77::vm::machine::Outcome;
use atlas77::vm::value::VMData;

fn sp(start: usize, end: usize) -> Span {
    Span { start, end }
}

fn ident(name: &str, start: usize) -> AstIdentifier {
    AstIdentifier { span: sp(start, start + name.len()), name: name.to_string() }
}

fn int_lit(value: i64, start: usize) -> AstExpr {
    AstExpr::Literal(AstLiteral::Integer { span: sp(start, start + 1), value })
}

fn var(name: &str, start: usize) -> AstExpr {
    AstExpr::Identifier(ident(name, start))
}

fn binary(op: AstBinaryOp, lhs: AstExpr, rhs: AstExpr, span: Span) -> AstExpr {
    AstExpr::BinaryOp(AstBinaryOpExpr { span, lhs: Box::new(lhs), rhs: Box::new(rhs), op })
}

fn let_stmt(name: &str, ty: Option<AstType>, value: AstExpr, span: Span) -> AstStatement {
    AstStatement::Let(AstLetExpr { span, name: ident(name, span.start + 4), ty, value: Box::new(value) })
}

fn ret(value: AstExpr, span: Span) -> AstStatement {
    AstStatement::Return(AstReturnStmt { span, value })
}

fn func(name: &str, args: Vec<AstObjField>, ret_ty: AstType, stmts: Vec<AstStatement>, span: Span) -> AstItem {
    AstItem::Func(AstFunction {
        span,
        name: ident(name, span.start + 5),
        args,
        ret: ret_ty,
        body: AstBlock { span, stmts },
    })
}

fn lower(items: Vec<AstItem>) -> Option<Result<HirModule, HirError>> {
    AstSyntaxLoweringPass::new(AstProgram { items }).try_lower()
}

/// `func main() -> i64 { let x: i64 = 2; return x + 3; }`
fn main_program() -> Vec<AstItem> {
    vec![func(
        "main",
        vec![],
        AstType::Integer(sp(15, 18)),
        vec![
            let_stmt("x", Some(AstType::Integer(sp(28, 31))), int_lit(2, 34), sp(21, 36)),
            ret(binary(AstBinaryOp::Add, var("x", 44), int_lit(3, 48), sp(44, 49)), sp(37, 50)),
        ],
        sp(0, 52),
    )]
}

#[test]
fn lowering_builds_functions_signatures_and_imports() {
    let mut items = main_program();
    items.push(AstItem::Import(AstImport { span: sp(60, 75), path: "std/io".to_string(), alias: None }));
    let module = lower(items).unwrap().unwrap();
    assert_eq!(module.body.functions.len(), 1);
    assert_eq!(module.signature.functions.len(), 1);
    let (name, f) = module.body.functions.entry(0);
    assert_eq!(name, "main");
    assert_eq!(f.name_span, sp(5, 9));
    assert!(matches!(f.signature.return_ty, HirTy::Int64(_)));
    assert_eq!(f.signature.return_ty_span, Some(sp(15, 18)));
    assert!(!f.signature.is_external);
    assert_eq!(f.body.statements.len(), 2);
    match &f.body.statements[0] {
        HirStatement::Let(l) => {
            assert_eq!(l.name, "x");
            assert!(matches!(l.ty, Some(HirTy::Int64(_))));
            assert_eq!(l.ty_span, Some(sp(28, 31)));
            assert!(matches!(l.value, HirExpr::IntegerLiteral(_)));
        }
        other => panic!("expected a let, got {:?}", other),
    }
    match &f.body.statements[1] {
        HirStatement::Return(r) => match &r.value {
            HirExpr::HirBinaryOp(b) => {
                assert_eq!(b.op, HirBinaryOp::Add);
                assert!(matches!(b.ty, HirTy::Uninitialized(_)));
                assert!(matches!(r.ty, HirTy::Uninitialized(_)));
            }
            other => panic!("expected a binary operation, got {:?}", other),
        },
        other => panic!("expected a return, got {:?}", other),
    }
    let (sig_name, sig) = module.signature.functions.entry(0);
    assert_eq!(sig_name, "main");
    assert!(matches!(sig.return_ty, HirTy::Int64(_)));
    assert_eq!(sig.return_ty_span, f.signature.return_ty_span);
    assert_eq!(sig.span, f.signature.span);
    assert_eq!(module.body.imports.len(), 1);
    assert_eq!(module.body.imports[0].path, "std/io");
    assert_eq!(module.body.imports[0].path_span, sp(0, 0));
}

#[test]
fn lowering_keeps_the_last_function_of_a_name() {
    let items = vec![
        func("f", vec![], AstType::Unit(sp(1, 2)), vec![], sp(0, 10)),
        func("f", vec![], AstType::Integer(sp(21, 22)), vec![], sp(20, 30)),
        func("a", vec![], AstType::Unit(sp(41, 42)), vec![], sp(40, 50)),
    ];
    let module = lower(items).unwrap().unwrap();
    assert_eq!(module.body.functions.len(), 2);
    assert_eq!(module.body.functions.entry(0).0, "a");
    let (name, f) = module.body.functions.entry(1);
    assert_eq!(name, "f");
    assert_eq!(f.span, sp(20, 30));
    assert!(matches!(f.signature.return_ty, HirTy::Int64(_)));
}

#[test]
fn lowering_parameters_and_unary_and_calls() {
    let param = AstObjField { span: sp(8, 14), name: ident("n", 8), ty: AstType::UnsignedIntegerer(sp(11, 14)) };
    let neg = AstExpr::UnaryOp(AstUnaryOpExpr { span: sp(20, 22), expr: Box::new(int_lit(1, 21)), op: Some(AstUnaryOp::Neg) });
    let deref = AstExpr::UnaryOp(AstUnaryOpExpr { span: sp(23, 25), expr: Box::new(var("n", 24)), op: Some(AstUnaryOp::Deref) });
    let call = AstExpr::Call(AstCallExpr { span: sp(30, 40), callee: Box::new(var("g", 30)), args: vec![neg, deref] });
    let items = vec![func("f", vec![param], AstType::Unit(sp(16, 18)), vec![AstStatement::Expr(call)], sp(0, 45))];
    let module = lower(items).unwrap().unwrap();
    let (_, f) = module.body.functions.entry(0);
    assert_eq!(f.signature.params.len(), 1);
    assert_eq!(f.signature.params[0].name, "n");
    assert!(matches!(f.signature.params[0].ty, HirTy::UInt64(_)));
    assert_eq!(f.signature.params[0].ty_span, sp(11, 14));
    assert_eq!(f.signature.type_params.len(), 1);
    assert_eq!(f.signature.type_params[0].name, "n");
    match &f.body.statements[0] {
        HirStatement::Expr(e) => match &e.expr {
            HirExpr::Call(c) => {
                assert_eq!(c.callee_span, sp(30, 31));
                assert_eq!(c.args.len(), 2);
                match &c.args[0] {
                    HirExpr::Unary(u) => {
                        assert_eq!(u.op, Some(UnaryOp::Neg));
                        assert!(matches!(u.ty, HirTy::Int64(_)));
                    }
                    other => panic!("expected a unary operation, got {:?}", other),
                }
                match &c.args[1] {
                    HirExpr::Unary(u) => assert_eq!(u.op, None),
                    other => panic!("expected a unary operation, got {:?}", other),
                }
            }
            other => panic!("expected a call, got {:?}", other),
        },
        other => panic!("expected an expression statement, got {:?}", other),
    }
}

#[test]
fn lowering_rejects_what_it_does_not_support() {
    let constant = AstStatement::Const(AstConstExpr { span: sp(3, 9), name: ident("c", 3), ty: None, value: int_lit(1, 8) });
    let r = lower(vec![func("f", vec![], AstType::Unit(sp(1, 2)), vec![constant], sp(0, 10))]).unwrap();
    assert_eq!(r.unwrap_err(), HirError::UnsupportedStatement { span: sp(3, 9) });

    let text = AstExpr::Literal(AstLiteral::String { span: sp(4, 8), value: "hi".to_string() });
    let r = lower(vec![func("f", vec![], AstType::Unit(sp(1, 2)), vec![AstStatement::Expr(text)], sp(0, 10))]).unwrap();
    assert_eq!(r.unwrap_err(), HirError::UnsupportedExpr { span: sp(4, 8) });

    let index = AstExpr::Indexing(AstIndexingExpr { span: sp(5, 9), target: Box::new(var("l", 5)), index: Box::new(int_lit(0, 7)) });
    let r = lower(vec![func("f", vec![], AstType::Unit(sp(1, 2)), vec![AstStatement::Expr(index)], sp(0, 10))]).unwrap();
    assert_eq!(r.unwrap_err(), HirError::UnsupportedExpr { span: sp(5, 9) });

    let power = binary(AstBinaryOp::Pow, int_lit(2, 4), int_lit(3, 8), sp(4, 9));
    let r = lower(vec![func("f", vec![], AstType::Unit(sp(1, 2)), vec![AstStatement::Expr(power)], sp(0, 10))]).unwrap();
    assert_eq!(r.unwrap_err(), HirError::UnsupportedExpr { span: sp(4, 9) });
}

#[test]
fn lowering_stops_at_an_unknown_type() {
    let text_param = AstObjField { span: sp(7, 13), name: ident("s", 7), ty: AstType::String(sp(10, 13)) };
    assert!(lower(vec![func("f", vec![text_param], AstType::Unit(sp(1, 2)), vec![], sp(0, 20))]).is_none());
    let with_list = let_stmt(
        "l",
        Some(AstType::List { span: sp(10, 15), inner: Box::new(AstType::Integer(sp(11, 14))) }),
        int_lit(1, 18),
        sp(3, 19),
    );
    assert!(lower(vec![func("f", vec![], AstType::Unit(sp(1, 2)), vec![with_list], sp(0, 20))]).is_none());
}

#[test]
fn type_checker_accepts_a_well_typed_module() {
    let mut module = lower(main_program()).unwrap().unwrap();
    let mut checker = TypeChecker::new("".to_string());
    assert_eq!(checker.check(&mut module), Some(Ok(())));
    let (_, f) = module.body.functions.entry(0);
    match &f.body.statements[1] {
        HirStatement::Return(r) => match &r.value {
            HirExpr::HirBinaryOp(b) => assert!(matches!(b.ty, HirTy::Int64(_))),
            other => panic!("expected a binary operation, got {:?}", other),
        },
        other => panic!("expected a return, got {:?}", other),
    }
}

#[test]
fn type_checker_reports_a_mismatched_let() {
    let items = vec![func(
        "main",
        vec![],
        AstType::Unit(sp(15, 17)),
        vec![let_stmt("x", Some(AstType::UnsignedIntegerer(sp(28, 31))), int_lit(2, 34), sp(21, 36))],
        sp(0, 40),
    )];
    let mut module = lower(items).unwrap().unwrap();
    let mut checker = TypeChecker::new("".to_string());
    let err = checker.check(&mut module).unwrap().unwrap_err();
    assert_eq!(
        err,
        HirError::TypeMismatch {
            actual_type: "int64".to_string(),
            actual_loc: sp(34, 35),
            expected_type: "uint64".to_string(),
            expected_loc: sp(25, 26),
        }
    );
}

#[test]
fn type_checker_reports_an_unknown_variable() {
    let items = vec![func("main", vec![], AstType::Integer(sp(15, 18)), vec![ret(var("y", 30), sp(23, 32))], sp(0, 35))];
    let mut module = lower(items).unwrap().unwrap();
    let mut checker = TypeChecker::new("".to_string());
    let err = checker.check(&mut module).unwrap().unwrap_err();
    assert_eq!(err, HirError::UnknownType { name: "y".to_string(), span: sp(30, 31) });
}

/// `func add(a: i64) -> i64 { return a + 3; }`
/// `func main() -> () { let x: i64 = 2; add(x); }`
fn call_program() -> Vec<AstItem> {
    let param = AstObjField { span: sp(9, 15), name: ident("a", 9), ty: AstType::Integer(sp(12, 15)) };
    let call = AstExpr::Call(AstCallExpr { span: sp(100, 106), callee: Box::new(var("add", 100)), args: vec![var("x", 104)] });
    vec![
        func(
            "add",
            vec![param],
            AstType::Integer(sp(20, 23)),
            vec![ret(binary(AstBinaryOp::Add, var("a", 33), int_lit(3, 37), sp(33, 38)), sp(26, 39))],
            sp(0, 41),
        ),
        func(
            "main",
            vec![],
            AstType::Unit(sp(65, 67)),
            vec![
                let_stmt("x", Some(AstType::Integer(sp(77, 80))), int_lit(2, 83), sp(70, 85)),
                AstStatement::Expr(call),
            ],
            sp(50, 110),
        ),
    ]
}

#[test]
fn compiled_program_runs_to_its_result() {
    let mut module = lower(call_program()).unwrap().unwrap();
    let mut checker = TypeChecker::new("".to_string());
    assert_eq!(checker.check(&mut module), Some(Ok(())));
    let mut unit = CodeGenUnit::new(module);
    let program = unit.try_compile().unwrap().unwrap();
    assert_eq!(program.entry_point, "main");
    assert_eq!(program.labels.len(), 2);
    assert_eq!(program.labels[0].name, "add");
    assert_eq!(program.labels[1].name, "main");
    let mut vm = Atlas77VM::new(program);
    vm.start().unwrap();
    while vm.running() {
        match vm.step().unwrap() {
            Outcome::Continue => {}
            _ => panic!("no library call or float work is expected"),
        }
    }
    assert_eq!(vm.finish().unwrap(), VMData::I64(5));
}

#[test]
fn returning_from_main_has_no_frame_to_leave() {
    let mut module = lower(main_program()).unwrap().unwrap();
    let mut checker = TypeChecker::new("".to_string());
    assert_eq!(checker.check(&mut module), Some(Ok(())));
    let program = CodeGenUnit::new(module).try_compile().unwrap().unwrap();
    let mut vm = Atlas77VM::new(program);
    vm.start().unwrap();
    let mut last = Ok(Outcome::Continue);
    while vm.running() {
        last = vm.step();
        if last.is_err() {
            break;
        }
    }
    assert_eq!(last.unwrap_err(), atlas77::vm::error::RuntimeError::InvalidOperation);
}

#[test]
fn name_map_get_gives_back_what_insert_put() {
    let mut m: NameMap<u64> = NameMap::new();
    m.insert("b".to_string(), 2);
    m.insert("a".to_string(), 1);
    assert_eq!(m.get(&"a".to_string()), Some(&1));
    m.insert("a".to_string(), 10);
    assert_eq!(m.get(&"a".to_string()), Some(&10));
    assert_eq!(m.get(&"b".to_string()), Some(&2));
    assert_eq!(m.get(&"c".to_string()), None);
    assert_eq!(m.len(), 2);
    assert_eq!(m.entry(0).0, "a");
    assert_eq!(m.entry(1).0, "b");
}

fn int_var(name: &str, start: usize) -> ContextVariable {
    let span = sp(start, start + name.len());
    ContextVariable::new(name.to_string(), span, HirTy::Int64(atlas77::hir::ty::HirIntegerTy {}), span, true, span)
}

#[test]
fn declared_variables_are_found_until_their_scope_is_left() {
    let mut f = ContextFunction::new();
    f.insert(int_var("outer", 0));
    assert_eq!(f.get(&"outer".to_string()).unwrap().name_span, sp(0, 5));
    f.new_scope();
    assert_eq!(f.depth(), 2);
    f.insert(int_var("inner", 10));
    f.insert(int_var("outer", 20));
    assert_eq!(f.get(&"inner".to_string()).unwrap().name_span, sp(10, 15));
    assert_eq!(f.get(&"outer".to_string()).unwrap().name_span, sp(20, 25));
    f.end_scope();
    assert_eq!(f.depth(), 1);
    assert!(f.get(&"inner".to_string()).is_none());
    assert_eq!(f.get(&"outer".to_string()).unwrap().name_span, sp(0, 5));
}

#[test]
fn a_name_declared_in_a_loop_body_does_not_escape() {
    // func main() -> () { while 1 < 2 { let y: i64 = 1; } y; }
    let cond = binary(AstBinaryOp::Lt, int_lit(1, 26), int_lit(2, 30), sp(26, 31));
    let body = AstBlock {
        span: sp(32, 52),
        stmts: vec![let_stmt("y", Some(AstType::Integer(sp(41, 44))), int_lit(1, 47), sp(34, 49))],
    };
    let looping = AstStatement::While(AstWhileExpr { span: sp(20, 52), condition: cond, body });
    let items = vec![func(
        "main",
        vec![],
        AstType::Unit(sp(15, 17)),
        vec![looping, AstStatement::Expr(var("y", 53))],
        sp(0, 60),
    )];
    let mut module = lower(items).unwrap().unwrap();
    let mut checker = TypeChecker::new("".to_string());
    let err = checker.check(&mut module).unwrap().unwrap_err();
    assert_eq!(err, HirError::UnknownType { name: "y".to_string(), span: sp(53, 54) });
}
