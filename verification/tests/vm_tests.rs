use atlas77::vm::error::RuntimeError;
use atlas77::vm::externs::{ExternFunction, StdLibrary, library_name};
use atlas77::vm::instruction::{ConstantClass, ConstantPool, ImportedLibrary, Instruction, Label, Program, Type};
use atlas77::vm::interp::{Atlas77VM, PrintArg};
use atlas77::vm::machine::{FloatArith, FloatRequest, Outcome};
use atlas77::vm::memory::ObjectKind;
use atlas77::vm::value::{ObjectIndex, VMData, TAG_I64, TAG_STR};

fn program(labels: Vec<Label>, strings: Vec<String>, classes: Vec<ConstantClass>, libs: Vec<&str>) -> Program {
    Program {
        labels,
        entry_point: "main".to_string(),
        libraries: libs
            .into_iter()
            .map(|l| ImportedLibrary { name: l.to_string(), is_std: true })
            .collect(),
        global: ConstantPool { string_pool: strings, function_pool: vec![], class_pool: classes },
    }
}

fn main_only(body: Vec<Instruction>) -> Program {
    program(vec![Label { name: "main".to_string(), position: 0, body }], vec![], vec![], vec![])
}

/// Runs until the end of the program or the first outcome other than `Continue`.
fn run_until_request(vm: &mut Atlas77VM) -> Result<Option<Outcome>, RuntimeError> {
    while vm.running() {
        match vm.step()? {
            Outcome::Continue => {}
            other => return Ok(Some(other)),
        }
    }
    Ok(None)
}

fn top(vm: &Atlas77VM) -> VMData {
    vm.stack.get(vm.stack.top() - 1)
}

fn text_of(vm: &mut Atlas77VM, v: VMData) -> String {
    match vm.object_map.kind(v.as_object()) {
        ObjectKind::String(s) => s.clone(),
        _ => panic!("not a string"),
    }
}

#[test]
fn adds_two_integers() {
    let mut vm = Atlas77VM::new(main_only(vec![
        Instruction::PushInt(2),
        Instruction::PushInt(3),
        Instruction::IAdd,
        Instruction::Halt,
    ]));
    vm.start().unwrap();
    assert_eq!(run_until_request(&mut vm), Ok(None));
    assert_eq!(top(&vm), VMData::I64(5));
    assert_eq!(vm.stack.top(), 1);
}

#[test]
fn subtraction_and_comparison_order() {
    let mut vm = Atlas77VM::new(main_only(vec![
        Instruction::PushInt(10),
        Instruction::PushInt(4),
        Instruction::ISub,
        Instruction::PushInt(6),
        Instruction::Eq,
        Instruction::Halt,
    ]));
    vm.start().unwrap();
    run_until_request(&mut vm).unwrap();
    assert_eq!(top(&vm), VMData::Bool(true));
}

#[test]
fn integer_overflow_is_an_error() {
    let mut vm = Atlas77VM::new(main_only(vec![
        Instruction::PushInt(i64::MAX),
        Instruction::PushInt(1),
        Instruction::IAdd,
    ]));
    vm.start().unwrap();
    assert_eq!(run_until_request(&mut vm), Err(RuntimeError::InvalidOperation));
}

#[test]
fn division_by_zero_is_an_error() {
    let mut vm = Atlas77VM::new(main_only(vec![
        Instruction::PushInt(1),
        Instruction::PushInt(0),
        Instruction::IDiv,
    ]));
    vm.start().unwrap();
    assert_eq!(run_until_request(&mut vm), Err(RuntimeError::DivisionByZero));
}

#[test]
fn signed_division_and_remainder_truncate() {
    let mut vm = Atlas77VM::new(main_only(vec![
        Instruction::PushInt(-7),
        Instruction::PushInt(2),
        Instruction::IDiv,
        Instruction::PushInt(-7),
        Instruction::PushInt(2),
        Instruction::IMod,
        Instruction::Halt,
    ]));
    vm.start().unwrap();
    run_until_request(&mut vm).unwrap();
    assert_eq!(vm.stack.get(0), VMData::I64(-3));
    assert_eq!(vm.stack.get(1), VMData::I64(-1));
}

#[test]
fn unsigned_arithmetic() {
    let mut vm = Atlas77VM::new(main_only(vec![
        Instruction::PushUnsignedInt(7),
        Instruction::PushUnsignedInt(3),
        Instruction::UIMul,
        Instruction::PushUnsignedInt(4),
        Instruction::UIDiv,
        Instruction::Halt,
    ]));
    vm.start().unwrap();
    run_until_request(&mut vm).unwrap();
    assert_eq!(top(&vm), VMData::U64(5));
}

#[test]
fn unsigned_underflow_is_an_error() {
    let mut vm = Atlas77VM::new(main_only(vec![
        Instruction::PushUnsignedInt(1),
        Instruction::PushUnsignedInt(2),
        Instruction::UISub,
    ]));
    vm.start().unwrap();
    assert_eq!(run_until_request(&mut vm), Err(RuntimeError::InvalidOperation));
}

#[test]
fn store_then_load_reads_the_value_back() {
    let mut vm = Atlas77VM::new(main_only(vec![
        Instruction::PushInt(7),
        Instruction::Store { var_name: "x".to_string() },
        Instruction::Load { var_name: "x".to_string() },
        Instruction::Halt,
    ]));
    vm.start().unwrap();
    run_until_request(&mut vm).unwrap();
    assert_eq!(top(&vm), VMData::I64(7));
}

#[test]
fn loading_an_unbound_variable_is_a_null_reference() {
    let mut vm = Atlas77VM::new(main_only(vec![Instruction::Load { var_name: "y".to_string() }]));
    vm.start().unwrap();
    assert_eq!(run_until_request(&mut vm), Err(RuntimeError::NullReference));
}

#[test]
fn jump_if_false_skips() {
    let mut vm = Atlas77VM::new(main_only(vec![
        Instruction::PushBool(false),
        Instruction::JmpZ { pos: 1 },
        Instruction::PushInt(1),
        Instruction::PushInt(2),
        Instruction::Halt,
    ]));
    vm.start().unwrap();
    run_until_request(&mut vm).unwrap();
    assert_eq!(vm.stack.top(), 1);
    assert_eq!(top(&vm), VMData::I64(2));
}

#[test]
fn backward_jump_before_the_start_ends_the_run() {
    let mut vm = Atlas77VM::new(main_only(vec![Instruction::Jmp { pos: -5 }]));
    vm.start().unwrap();
    assert_eq!(run_until_request(&mut vm), Ok(None));
    assert_eq!(vm.pc, usize::MAX - 4);
    assert!(!vm.running());
}

#[test]
fn call_and_return() {
    let p = program(
        vec![
            Label {
                name: "main".to_string(),
                position: 0,
                body: vec![Instruction::FunctionCall { function_name: "f".to_string(), nb_args: 0 }, Instruction::Halt],
            },
            Label { name: "f".to_string(), position: 2, body: vec![Instruction::PushInt(9), Instruction::Return] },
        ],
        vec![],
        vec![],
        vec![],
    );
    let mut vm = Atlas77VM::new(p);
    vm.start().unwrap();
    run_until_request(&mut vm).unwrap();
    assert_eq!(top(&vm), VMData::I64(9));
    assert_eq!(vm.stack.top(), 1);
}

#[test]
fn return_without_a_call_is_an_error() {
    let mut vm = Atlas77VM::new(main_only(vec![Instruction::PushInt(1), Instruction::Return]));
    vm.start().unwrap();
    assert_eq!(run_until_request(&mut vm), Err(RuntimeError::InvalidOperation));
}

#[test]
fn missing_entry_point() {
    let mut p = main_only(vec![Instruction::Halt]);
    p.entry_point = "start".to_string();
    let mut vm = Atlas77VM::new(p);
    assert_eq!(vm.start(), Err(RuntimeError::EntryPointNotFound("start".to_string())));
}

#[test]
fn cast_string_to_integer_and_back() {
    let p = program(
        vec![Label {
            name: "main".to_string(),
            position: 0,
            body: vec![
                Instruction::PushStr(0),
                Instruction::Store { var_name: "s".to_string() },
                Instruction::Load { var_name: "s".to_string() },
                Instruction::CastTo(Type::Integer),
                Instruction::PushInt(1),
                Instruction::IAdd,
                Instruction::CastTo(Type::String),
                Instruction::Halt,
            ],
        }],
        vec!["41".to_string()],
        vec![],
        vec![],
    );
    let mut vm = Atlas77VM::new(p);
    vm.start().unwrap();
    run_until_request(&mut vm).unwrap();
    let v = top(&vm);
    assert_eq!(text_of(&mut vm, v), "42");
}

#[test]
fn cast_of_bad_text_is_an_invalid_cast() {
    let p = program(
        vec![Label {
            name: "main".to_string(),
            position: 0,
            body: vec![
                Instruction::PushStr(0),
                Instruction::Store { var_name: "s".to_string() },
                Instruction::Load { var_name: "s".to_string() },
                Instruction::CastTo(Type::Integer),
            ],
        }],
        vec!["4x".to_string()],
        vec![],
        vec![],
    );
    let mut vm = Atlas77VM::new(p);
    vm.start().unwrap();
    assert_eq!(run_until_request(&mut vm), Err(RuntimeError::InvalidCast(TAG_STR, 0)));
}

#[test]
fn cast_integer_to_integer_is_an_invalid_cast() {
    let mut vm = Atlas77VM::new(main_only(vec![Instruction::PushInt(3), Instruction::CastTo(Type::Integer)]));
    vm.start().unwrap();
    assert_eq!(run_until_request(&mut vm), Err(RuntimeError::InvalidCast(TAG_I64, 0)));
}

#[test]
fn casts_between_scalars() {
    let mut vm = Atlas77VM::new(main_only(vec![
        Instruction::PushChar('A'),
        Instruction::CastTo(Type::Integer),
        Instruction::PushInt(66),
        Instruction::CastTo(Type::Char),
        Instruction::PushInt(-1),
        Instruction::CastTo(Type::UnsignedInteger),
        Instruction::PushBool(true),
        Instruction::CastTo(Type::Float),
        Instruction::Halt,
    ]));
    vm.start().unwrap();
    run_until_request(&mut vm).unwrap();
    assert_eq!(vm.stack.get(0), VMData::I64(65));
    assert_eq!(vm.stack.get(1), VMData::Char('B'));
    assert_eq!(vm.stack.get(2), VMData::U64(u64::MAX));
    assert_eq!(vm.stack.get(3), VMData::Float(1.0f64.to_bits()));
}

#[test]
fn float_work_is_handed_to_the_caller() {
    let a = 1.5f64.to_bits();
    let b = 2.25f64.to_bits();
    let mut vm = Atlas77VM::new(main_only(vec![
        Instruction::PushFloat(a),
        Instruction::PushFloat(b),
        Instruction::FAdd,
        Instruction::Halt,
    ]));
    vm.start().unwrap();
    let out = run_until_request(&mut vm).unwrap();
    assert_eq!(out, Some(Outcome::Float(FloatRequest::Arith { op: FloatArith::Add, lhs: a, rhs: b })));
    vm.complete_value(VMData::Float(3.75f64.to_bits())).unwrap();
    assert_eq!(run_until_request(&mut vm), Ok(None));
    assert_eq!(top(&vm), VMData::Float(3.75f64.to_bits()));
}

#[test]
fn float_division_by_zero_is_an_error() {
    let mut vm = Atlas77VM::new(main_only(vec![
        Instruction::PushFloat(1.0f64.to_bits()),
        Instruction::PushFloat((-0.0f64).to_bits()),
        Instruction::FDiv,
    ]));
    vm.start().unwrap();
    assert_eq!(run_until_request(&mut vm), Err(RuntimeError::DivisionByZero));
}

#[test]
fn lists_store_and_load() {
    let mut vm = Atlas77VM::new(main_only(vec![
        Instruction::PushUnsignedInt(3),
        Instruction::NewList,
        Instruction::Store { var_name: "l".to_string() },
        Instruction::PushUnsignedInt(1),
        Instruction::Load { var_name: "l".to_string() },
        Instruction::PushInt(42),
        Instruction::ListStore,
        Instruction::Load { var_name: "l".to_string() },
        Instruction::PushUnsignedInt(1),
        Instruction::ListLoad,
        Instruction::Halt,
    ]));
    vm.start().unwrap();
    run_until_request(&mut vm).unwrap();
    assert_eq!(top(&vm), VMData::I64(42));
}

#[test]
fn list_index_out_of_range() {
    let mut vm = Atlas77VM::new(main_only(vec![
        Instruction::PushUnsignedInt(2),
        Instruction::NewList,
        Instruction::PushUnsignedInt(5),
        Instruction::ListLoad,
    ]));
    vm.start().unwrap();
    assert_eq!(run_until_request(&mut vm), Err(RuntimeError::IndexOutOfBounds));
}

#[test]
fn string_load_and_store() {
    let p = program(
        vec![Label {
            name: "main".to_string(),
            position: 0,
            body: vec![
                Instruction::PushStr(0),
                Instruction::Store { var_name: "s".to_string() },
                Instruction::Load { var_name: "s".to_string() },
                Instruction::PushUnsignedInt(1),
                Instruction::PushChar('o'),
                Instruction::StringStore,
                Instruction::Load { var_name: "s".to_string() },
                Instruction::PushUnsignedInt(1),
                Instruction::StringLoad,
                Instruction::Halt,
            ],
        }],
        vec!["cat".to_string()],
        vec![],
        vec![],
    );
    let mut vm = Atlas77VM::new(p);
    vm.start().unwrap();
    run_until_request(&mut vm).unwrap();
    assert_eq!(top(&vm), VMData::Char('o'));
}

#[test]
fn objects_fields() {
    let p = program(
        vec![Label {
            name: "main".to_string(),
            position: 0,
            body: vec![
                Instruction::NewObj { class_name: "Point".to_string() },
                Instruction::Store { var_name: "p".to_string() },
                Instruction::Load { var_name: "p".to_string() },
                Instruction::PushInt(5),
                Instruction::SetField { field: 1 },
                Instruction::Load { var_name: "p".to_string() },
                Instruction::GetField { field: 1 },
                Instruction::Halt,
            ],
        }],
        vec![],
        vec![ConstantClass {
            name: "Point".to_string(),
            fields: vec!["x".to_string(), "y".to_string()],
            constructor_nb_args: 2,
        }],
        vec![],
    );
    let mut vm = Atlas77VM::new(p);
    vm.start().unwrap();
    run_until_request(&mut vm).unwrap();
    assert_eq!(top(&vm), VMData::I64(5));
}

#[test]
fn unknown_class_is_an_error() {
    let mut vm = Atlas77VM::new(main_only(vec![Instruction::NewObj { class_name: "Nope".to_string() }]));
    vm.start().unwrap();
    assert_eq!(run_until_request(&mut vm), Err(RuntimeError::InvalidOperation));
}

#[test]
fn extern_list_len_runs_in_the_vm() {
    let p = program(
        vec![Label {
            name: "main".to_string(),
            position: 0,
            body: vec![
                Instruction::PushUnsignedInt(4),
                Instruction::NewList,
                Instruction::ExternCall { function_name: "len".to_string(), nb_args: 1 },
                Instruction::Halt,
            ],
        }],
        vec![],
        vec![],
        vec!["std/list"],
    );
    let mut vm = Atlas77VM::new(p);
    vm.start().unwrap();
    run_until_request(&mut vm).unwrap();
    assert_eq!(top(&vm), VMData::I64(4));
}

#[test]
fn extern_of_a_library_not_imported_is_an_error() {
    let mut vm = Atlas77VM::new(main_only(vec![
        Instruction::PushInt(-3),
        Instruction::ExternCall { function_name: "abs".to_string(), nb_args: 1 },
    ]));
    vm.start().unwrap();
    assert_eq!(run_until_request(&mut vm), Err(RuntimeError::InvalidOperation));
}

#[test]
fn extern_math_in_the_vm() {
    let p = program(
        vec![Label {
            name: "main".to_string(),
            position: 0,
            body: vec![
                Instruction::PushInt(-3),
                Instruction::ExternCall { function_name: "abs".to_string(), nb_args: 1 },
                Instruction::PushInt(4),
                Instruction::ExternCall { function_name: "pow".to_string(), nb_args: 2 },
                Instruction::Halt,
            ],
        }],
        vec![],
        vec![],
        vec!["std/math"],
    );
    let mut vm = Atlas77VM::new(p);
    vm.start().unwrap();
    run_until_request(&mut vm).unwrap();
    assert_eq!(top(&vm), VMData::I64(81));
}

#[test]
fn print_is_handed_to_the_caller() {
    let p = program(
        vec![Label {
            name: "main".to_string(),
            position: 0,
            body: vec![
                Instruction::PushStr(0),
                Instruction::ExternCall { function_name: "println".to_string(), nb_args: 1 },
                Instruction::Halt,
            ],
        }],
        vec!["hello".to_string()],
        vec![],
        vec!["std/io"],
    );
    let mut vm = Atlas77VM::new(p);
    vm.start().unwrap();
    let out = run_until_request(&mut vm).unwrap();
    assert_eq!(out, Some(Outcome::Extern { function: ExternFunction::Println, nb_args: 1 }));
    match vm.pop_print_arg().unwrap() {
        PrintArg::Text(t) => assert_eq!(t, "hello"),
        _ => panic!("expected text"),
    }
    vm.complete_extern(VMData::Unit).unwrap();
    assert_eq!(run_until_request(&mut vm), Ok(None));
}

#[test]
fn trim_and_upper_in_the_vm() {
    let p = program(
        vec![Label {
            name: "main".to_string(),
            position: 0,
            body: vec![
                Instruction::PushStr(0),
                Instruction::Store { var_name: "s".to_string() },
                Instruction::Load { var_name: "s".to_string() },
                Instruction::ExternCall { function_name: "trim".to_string(), nb_args: 1 },
                Instruction::ExternCall { function_name: "to_upper".to_string(), nb_args: 1 },
                Instruction::Halt,
            ],
        }],
        vec!["  abc \t".to_string()],
        vec![],
        vec!["std/string"],
    );
    let mut vm = Atlas77VM::new(p);
    vm.start().unwrap();
    run_until_request(&mut vm).unwrap();
    let v = top(&vm);
    assert_eq!(text_of(&mut vm, v), "ABC");
}

#[test]
fn time_iso_format() {
    // The ISO description names components (`frac`, `offset`) that the time
    // crate does not know, so the description is refused.
    let p = program(
        vec![Label {
            name: "main".to_string(),
            position: 0,
            body: vec![Instruction::ExternCall { function_name: "format_time_iso".to_string(), nb_args: 1 }, Instruction::Halt],
        }],
        vec![],
        vec![],
        vec!["std/time"],
    );
    let mut vm = Atlas77VM::new(p);
    vm.start().unwrap();
    let t = vm.make_time(86400, 0).unwrap();
    vm.stack.push_with_rc(t, &mut vm.object_map).unwrap();
    assert_eq!(run_until_request(&mut vm), Err(RuntimeError::InvalidOperation));
}

#[test]
fn time_custom_format() {
    let p = program(
        vec![Label {
            name: "main".to_string(),
            position: 0,
            body: vec![Instruction::ExternCall { function_name: "format_time".to_string(), nb_args: 2 }, Instruction::Halt],
        }],
        vec![],
        vec![],
        vec!["std/time"],
    );
    let mut vm = Atlas77VM::new(p);
    vm.start().unwrap();
    let t = vm.make_time(86400 + 3600 + 120, 0).unwrap();
    vm.stack.push_with_rc(t, &mut vm.object_map).unwrap();
    let f = vm.store_string("[year]-[month]-[day] [hour]:[minute]".to_string()).unwrap();
    vm.stack.push_with_rc(f, &mut vm.object_map).unwrap();
    run_until_request(&mut vm).unwrap();
    let v = top(&vm);
    assert_eq!(text_of(&mut vm, v), "1970-01-02 01:02");
}

#[test]
fn library_names() {
    assert_eq!(library_name(&"std/io".to_string()), "io");
    assert_eq!(library_name(&"math".to_string()), "math");
    assert_eq!(StdLibrary::from_name(&"list".to_string()), Some(StdLibrary::List));
    assert_eq!(StdLibrary::from_name(&"net".to_string()), None);
    assert_eq!(ExternFunction::from_name(&"str_cmp".to_string()), Some(ExternFunction::StrCmp));
    assert_eq!(ExternFunction::from_name(&"nope".to_string()), None);
}

#[test]
fn reset_empties_the_vm() {
    let mut vm = Atlas77VM::new(main_only(vec![Instruction::PushInt(2), Instruction::Halt]));
    vm.start().unwrap();
    run_until_request(&mut vm).unwrap();
    vm.reset();
    assert_eq!(vm.stack.top(), 0);
    assert_eq!(vm.pc, 0);
}

#[test]
fn finish_reads_the_slot_above_the_top() {
    let mut vm = Atlas77VM::new(main_only(vec![
        Instruction::PushInt(2),
        Instruction::PushInt(3),
        Instruction::IAdd,
        Instruction::Halt,
    ]));
    vm.start().unwrap();
    run_until_request(&mut vm).unwrap();
    assert_eq!(vm.finish(), Ok(VMData::I64(3)));
}

#[test]
fn object_index_new() {
    assert_eq!(ObjectIndex::new(7).idx, 7);
}

#[test]
fn a_literal_string_cast_directly_drops_its_only_reference() {
    let p = program(
        vec![Label {
            name: "main".to_string(),
            position: 0,
            body: vec![Instruction::PushStr(0), Instruction::CastTo(Type::Integer)],
        }],
        vec!["5".to_string()],
        vec![],
        vec![],
    );
    let mut vm = Atlas77VM::new(p);
    vm.start().unwrap();
    assert_eq!(run_until_request(&mut vm), Err(RuntimeError::NullReference));
}
