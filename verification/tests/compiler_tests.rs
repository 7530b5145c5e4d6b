use atlas77::bytecode::OpCode;
use atlas77::hir::ops::{HirBinaryOp, UnaryOp};
use atlas77::hir::ty::{HirFunctionTy, HirIntegerTy, HirListTy, HirNamedTy, HirStringTy, HirTy, HirTyId, HirUnitTy};
use atlas77::hlir::context::{ContextFunction, HlirContext};
use atlas77::hlir::node::{HlirBinOp, HlirError, HlirResult, HlirUnaryOp};
use atlas77::span::Span;
use atlas77::varmap::Varmap;

#[test]
fn type_ids_tell_types_apart() {
    let ids = vec![
        HirTyId::compute_integer64_ty_id(),
        HirTyId::compute_float64_ty_id(),
        HirTyId::compute_uint64_ty_id(),
        HirTyId::compute_boolean_ty_id(),
        HirTyId::compute_unit_ty_id(),
        HirTyId::compute_char_ty_id(),
        HirTyId::compute_str_ty_id(),
        HirTyId::compute_uninitialized_ty_id(),
    ];
    for i in 0..ids.len() {
        for j in 0..ids.len() {
            assert_eq!(i == j, ids[i] == ids[j]);
        }
    }
    let int = HirTyId::compute_integer64_ty_id();
    let list = HirTyId::compute_list_ty_id(&int);
    assert_ne!(list, int);
    assert_eq!(list, HirTyId::compute_list_ty_id(&HirTyId::compute_integer64_ty_id()));
    assert_ne!(HirTyId::compute_name_ty_id("Foo"), HirTyId::compute_name_ty_id("Bar"));
    let f1 = HirTyId::compute_function_ty_id(&int, &[int]);
    let f2 = HirTyId::compute_function_ty_id(&int, &[int, int]);
    assert_ne!(f1, f2);
}

#[test]
fn type_id_of_a_type() {
    let t = HirTy::List(HirListTy { inner: Box::new(HirTy::Int64(HirIntegerTy {})) });
    assert_eq!(HirTyId::from(&t), HirTyId::compute_list_ty_id(&HirTyId::compute_integer64_ty_id()));
    let f = HirTy::Function(HirFunctionTy {
        ret_ty: Box::new(HirTy::Unit(HirUnitTy {})),
        params: vec![HirTy::String(HirStringTy {}), HirTy::Named(HirNamedTy { name: "Foo".to_string(), span: Span { start: 0, end: 3 } })],
    });
    let expected = HirTyId::compute_function_ty_id(
        &HirTyId::compute_unit_ty_id(),
        &[HirTyId::compute_str_ty_id(), HirTyId::compute_name_ty_id("Foo")],
    );
    assert_eq!(HirTyId::from(&f), expected);
}

#[test]
fn varmap_insert_get_remove() {
    let mut parent: Varmap<i64> = Varmap::new(None);
    parent.insert("x".to_string(), 1);
    let mut m = Varmap::new(Some(Box::new(parent)));
    assert_eq!(m.get(&"x".to_string()), Some(&1));
    assert!(!m.contains_key(&"x".to_string()));
    m.insert("x".to_string(), 2);
    m.insert("y".to_string(), 3);
    assert_eq!(m.get(&"x".to_string()), Some(&2));
    assert_eq!(m.remove(&"x".to_string()), Some(2));
    assert_eq!(m.get(&"x".to_string()), Some(&1));
    assert_eq!(m.remove(&"x".to_string()), None);
    m.insert("z".to_string(), 4);
    assert_eq!(m.get(&"z".to_string()), Some(&4));
    assert_eq!(m.get(&"y".to_string()), Some(&3));
    assert!(m.set_existing(&"x".to_string(), 10));
    assert_eq!(m.get(&"x".to_string()), Some(&10));
    assert!(!m.contains_key(&"x".to_string()));
    assert!(m.contains_key(&"y".to_string()));
    assert!(m.contains_key(&"z".to_string()));
    assert!(m.set_existing(&"y".to_string(), 30));
    assert_eq!(m.get(&"y".to_string()), Some(&30));
    assert!(m.contains_key(&"y".to_string()));
    assert!(m.contains_key(&"z".to_string()));
    assert!(!m.set_existing(&"w".to_string(), 0));
    *m.get_mut(&"z".to_string()).unwrap() = 40;
    assert_eq!(m.get(&"z".to_string()), Some(&40));
    *m.get_mut(&"x".to_string()).unwrap() += 1;
    assert_eq!(m.get(&"x".to_string()), Some(&11));
    assert!(!m.contains_key(&"x".to_string()));
    assert!(m.get_mut(&"w".to_string()).is_none());
    assert_eq!(m.get(&"y".to_string()), Some(&30));
}

#[test]
fn context_variables_and_scopes() {
    let mut ctx = HlirContext::new();
    ctx.functions.push(ContextFunction::new("main".to_string(), 0, 0));
    ctx.create_variable("a".to_string(), 7).unwrap();
    assert_eq!(ctx.get_variable_id("a".to_string()), Ok(0));
    assert_eq!(
        ctx.create_variable("a".to_string(), 7),
        Err(HlirError::VariableAlreadyExists("a".to_string(), 1))
    );
    ctx.create_scope();
    ctx.create_variable("b".to_string(), 7).unwrap();
    assert!(ctx.variable_exist("b".to_string()));
    assert_eq!(ctx.get_variable_id("b".to_string()), Ok(1));
    ctx.leave_scope();
    assert!(!ctx.variable_exist("b".to_string()));
    assert!(ctx.variable_exist("a".to_string()));
    assert_eq!(ctx.get_variable_id("c".to_string()), Err(HlirError::VariableNotFound("c".to_string(), 0)));
}

#[test]
fn sort_puts_main_first() {
    let mut ctx = HlirContext::new();
    ctx.functions.push(ContextFunction::new("f".to_string(), 0, 5));
    ctx.functions.push(ContextFunction::new("main".to_string(), 0, 6));
    ctx.functions.push(ContextFunction::new("g".to_string(), 0, 7));
    assert_eq!(ctx.sort_function(), Ok(()));
    assert_eq!(ctx.functions.len(), 4);
    let mut none = HlirContext::new();
    none.functions.push(ContextFunction::new("f".to_string(), 0, 0));
    assert_eq!(none.sort_function(), Err(HlirError::NoMainFunction));
}

#[test]
fn opcodes_round_trip() {
    for b in 0u8..=255 {
        if let Some(op) = OpCode::from_byte(b) {
            assert_eq!(op.byte(), b);
        }
    }
    assert_eq!(OpCode::from_byte(38), Some(OpCode::Halt));
    assert_eq!(OpCode::from_byte(39), None);
    assert_eq!(OpCode::Nop.byte(), 0);
}

#[test]
fn operators_exist() {
    assert_ne!(HirBinaryOp::Add, HirBinaryOp::Sub);
    assert_ne!(UnaryOp::Neg, UnaryOp::Not);
    assert_ne!(HlirBinOp::OpAdd, HlirBinOp::OpOr);
    assert_ne!(HlirUnaryOp::OpSub, HlirUnaryOp::OpNot);
    assert_ne!(HlirResult::Success, HlirResult::VariableID(0));
}
