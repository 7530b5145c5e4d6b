use atlas77::vm::error::RuntimeError;
use atlas77::vm::library::{
    abs, len, list_edit, list_get, min_max, pow, pow_i64, put_list, put_string, random, slice, split, str_cmp,
    str_len, text_map_fn, ListEdit, MinMax, TextMap,
};
use atlas77::vm::memory::{Class, Memory, ObjectKind};
use atlas77::vm::stack::{Stack, STACK_SIZE};
use atlas77::vm::text::{decimal_i64, decimal_u64, display, parse_bool, parse_i64, parse_u64, replace_at_byte};
use atlas77::vm::value::{ObjectIndex, VMData};
use atlas77::vm::vars::{Key, VarMap};

fn string_at(mem: &Memory, v: VMData) -> String {
    match mem.kind(v.as_object()) {
        ObjectKind::String(s) => s.clone(),
        _ => panic!("not a string"),
    }
}

#[test]
fn put_then_get_reads_back() {
    let mut mem = Memory::new(4);
    let i = mem.put(ObjectKind::String("abc".to_string())).unwrap();
    assert_eq!(i, ObjectIndex::new(0));
    match mem.get(i).unwrap() {
        ObjectKind::String(s) => assert_eq!(s, "abc"),
        _ => panic!("not a string"),
    }
}

#[test]
fn freed_slot_is_reused() {
    let mut mem = Memory::new(4);
    let a = mem.put(ObjectKind::String("a".to_string())).unwrap();
    let _b = mem.put(ObjectKind::String("b".to_string())).unwrap();
    mem.free(a).unwrap();
    let c = mem.put(ObjectKind::Class(Class::new(vec![VMData::Unit]))).unwrap();
    assert_eq!(c, a);
}

#[test]
fn reference_counts() {
    let mut mem = Memory::new(2);
    let a = mem.put(ObjectKind::String("a".to_string())).unwrap();
    mem.rc_inc(a).unwrap();
    mem.rc_dec(a).unwrap();
    mem.rc_dec(a).unwrap();
    assert_eq!(mem.rc_dec(a), Err(RuntimeError::NullReference));
    assert_eq!(mem.rc_inc(ObjectIndex::new(9)), Err(RuntimeError::IndexOutOfBounds));
}

#[test]
fn memory_grows_when_full() {
    let mut mem = Memory::new(2);
    mem.used_space = 2;
    let i = mem.put(ObjectKind::String("x".to_string())).unwrap();
    assert_eq!(mem.len(), 4);
    assert_eq!(i, ObjectIndex::new(3));
}

#[test]
fn freeing_a_list_drops_its_items() {
    let mut mem = Memory::new(4);
    let s = mem.put(ObjectKind::String("s".to_string())).unwrap();
    let l = mem.put(ObjectKind::List(vec![VMData::Str(s)])).unwrap();
    mem.free(l).unwrap();
    assert_eq!(mem.rc_dec(s), Err(RuntimeError::NullReference));
}

#[test]
fn stack_push_pop() {
    let mut st = Stack::new();
    st.push(VMData::I64(1)).unwrap();
    st.push(VMData::Bool(true)).unwrap();
    assert_eq!(st.pop(), Ok(VMData::Bool(true)));
    assert_eq!(st.pop(), Ok(VMData::I64(1)));
    assert_eq!(st.pop(), Err(RuntimeError::StackUnderflow));
}

#[test]
fn stack_overflow() {
    let mut st = Stack::new();
    for i in 0..STACK_SIZE {
        st.push(VMData::U64(i as u64)).unwrap();
    }
    assert_eq!(st.push(VMData::Unit), Err(RuntimeError::StackOverflow));
}

#[test]
fn stack_truncate_releases() {
    let mut mem = Memory::new(4);
    let s = mem.put(ObjectKind::String("s".to_string())).unwrap();
    let mut st = Stack::new();
    st.push(VMData::I64(1)).unwrap();
    st.push(VMData::Str(s)).unwrap();
    st.pop().unwrap();
    st.truncate(1, &mut mem).unwrap();
    assert_eq!(st.top(), 1);
    assert_eq!(mem.rc_dec(s), Err(RuntimeError::NullReference));
}

#[test]
fn variables_by_scope() {
    let mut mem = Memory::new(4);
    let mut vars = VarMap::new();
    vars.insert(Key { scope: 0, name: "x".to_string() }, VMData::I64(1), &mut mem).unwrap();
    vars.insert(Key { scope: 1, name: "x".to_string() }, VMData::I64(2), &mut mem).unwrap();
    assert_eq!(vars.get(&Key { scope: 0, name: "x".to_string() }), Some(VMData::I64(1)));
    assert_eq!(vars.get(&Key { scope: 1, name: "x".to_string() }), Some(VMData::I64(2)));
    vars.clean_scope(1, &mut mem).unwrap();
    assert_eq!(vars.get(&Key { scope: 1, name: "x".to_string() }), None);
    assert_eq!(vars.get(&Key { scope: 0, name: "x".to_string() }), Some(VMData::I64(1)));
}

#[test]
fn display_of_values() {
    assert_eq!(display(VMData::I64(-120)), Some("-120".to_string()));
    assert_eq!(display(VMData::U64(0)), Some("0".to_string()));
    assert_eq!(display(VMData::Bool(false)), Some("false".to_string()));
    assert_eq!(display(VMData::Char('z')), Some("'z'".to_string()));
    assert_eq!(display(VMData::Unit), Some("()".to_string()));
    assert_eq!(display(VMData::Null), Some("reserved".to_string()));
    assert_eq!(display(VMData::List(ObjectIndex::new(3))), Some("[@3]".to_string()));
    assert_eq!(display(VMData::Float(0)), None);
    assert_eq!(decimal_u64(u64::MAX), u64::MAX.to_string());
    assert_eq!(decimal_i64(i64::MIN), i64::MIN.to_string());
}

#[test]
fn parsing_text() {
    assert_eq!(parse_i64(&"-9223372036854775808".to_string()), Some(i64::MIN));
    assert_eq!(parse_i64(&"9223372036854775808".to_string()), None);
    assert_eq!(parse_i64(&"+12".to_string()), Some(12));
    assert_eq!(parse_i64(&"".to_string()), None);
    assert_eq!(parse_u64(&"-1".to_string()), None);
    assert_eq!(parse_u64(&"18446744073709551615".to_string()), Some(u64::MAX));
    assert_eq!(parse_bool(&"true".to_string()), Some(true));
    assert_eq!(parse_bool(&"True".to_string()), None);
}

#[test]
fn replacing_a_character_at_a_byte_offset() {
    assert_eq!(replace_at_byte(&"héllo".to_string(), 3, 'a'), Some("héalo".to_string()));
    assert_eq!(replace_at_byte(&"héllo".to_string(), 2, 'a'), None);
    assert_eq!(replace_at_byte(&"ab".to_string(), 2, 'a'), None);
}

fn setup() -> (Stack, Memory) {
    (Stack::new(), Memory::new(16))
}

#[test]
fn list_library() {
    let (mut st, mut mem) = setup();
    let l = put_list(&mut mem, vec![VMData::I64(1), VMData::I64(2), VMData::I64(3)]).unwrap();
    mem.rc_inc(l.as_object()).unwrap();
    mem.rc_inc(l.as_object()).unwrap();
    mem.rc_inc(l.as_object()).unwrap();
    st.push(l).unwrap();
    assert_eq!(len(&mut st, &mut mem), Ok(VMData::I64(3)));
    st.push(l).unwrap();
    st.push(VMData::I64(9)).unwrap();
    assert_eq!(list_edit(&mut st, &mut mem, ListEdit::Push), Ok(VMData::Unit));
    st.push(l).unwrap();
    assert_eq!(list_edit(&mut st, &mut mem, ListEdit::Pop), Ok(VMData::I64(9)));
    st.push(l).unwrap();
    st.push(VMData::I64(5)).unwrap();
    assert_eq!(list_get(&mut st, &mut mem), Err(RuntimeError::IndexOutOfBounds));
}

#[test]
fn list_slice_and_remove() {
    let (mut st, mut mem) = setup();
    let l = put_list(&mut mem, vec![VMData::I64(1), VMData::I64(2), VMData::I64(3)]).unwrap();
    mem.rc_inc(l.as_object()).unwrap();
    mem.rc_inc(l.as_object()).unwrap();
    st.push(l).unwrap();
    st.push(VMData::I64(1)).unwrap();
    st.push(VMData::I64(3)).unwrap();
    let s = slice(&mut st, &mut mem).unwrap();
    match mem.kind(s.as_object()) {
        ObjectKind::List(items) => assert_eq!(items, &vec![VMData::I64(2), VMData::I64(3)]),
        _ => panic!("not a list"),
    }
    st.push(l).unwrap();
    st.push(VMData::I64(0)).unwrap();
    assert_eq!(list_edit(&mut st, &mut mem, ListEdit::Remove), Ok(VMData::I64(1)));
}

#[test]
fn string_library() {
    let (mut st, mut mem) = setup();
    let a = put_string(&mut mem, "b,a,,c".to_string()).unwrap();
    let d = put_string(&mut mem, ",".to_string()).unwrap();
    mem.rc_inc(a.as_object()).unwrap();
    mem.rc_inc(d.as_object()).unwrap();
    st.push(a).unwrap();
    st.push(d).unwrap();
    let l = split(&mut st, &mut mem).unwrap();
    let items = match mem.kind(l.as_object()) {
        ObjectKind::List(items) => items.clone(),
        _ => panic!("not a list"),
    };
    let texts: Vec<String> = items.iter().map(|v| string_at(&mem, *v)).collect();
    assert_eq!(texts, vec!["b", "a", "", "c"]);

    let x = put_string(&mut mem, "héllo".to_string()).unwrap();
    st.push(x).unwrap();
    assert_eq!(str_len(&mut st, &mut mem), Ok(VMData::I64(6)));

    let p = put_string(&mut mem, "apple".to_string()).unwrap();
    let q = put_string(&mut mem, "apricot".to_string()).unwrap();
    st.push(p).unwrap();
    st.push(q).unwrap();
    assert_eq!(str_cmp(&mut st, &mut mem), Ok(VMData::I64(1)));

    let w = put_string(&mut mem, "MiXed".to_string()).unwrap();
    mem.rc_inc(w.as_object()).unwrap();
    st.push(w).unwrap();
    let low = text_map_fn(&mut st, &mut mem, TextMap::Lower).unwrap();
    assert_eq!(string_at(&mem, low), "mixed");
}

#[test]
fn math_library() {
    let (mut st, mut mem) = setup();
    st.push(VMData::I64(i64::MIN)).unwrap();
    assert_eq!(abs(&mut st, &mut mem), Err(RuntimeError::InvalidOperation));
    st.push(VMData::I64(-4)).unwrap();
    assert_eq!(abs(&mut st, &mut mem), Ok(VMData::I64(4)));
    st.push(VMData::I64(2)).unwrap();
    st.push(VMData::I64(62)).unwrap();
    assert_eq!(pow(&mut st, &mut mem), Ok(VMData::I64(1 << 62)));
    assert_eq!(pow_i64(2, 63), Err(RuntimeError::InvalidOperation));
    assert_eq!(pow_i64(-2, 63), Ok(VMData::I64(i64::MIN)));
    assert_eq!(pow_i64(7, 0), Ok(VMData::I64(1)));
    assert_eq!(pow_i64(-1, 5), Ok(VMData::I64(-1)));
    st.push(VMData::I64(3)).unwrap();
    st.push(VMData::I64(8)).unwrap();
    assert_eq!(min_max(&mut st, &mut mem, MinMax::Min), Ok(VMData::I64(3)));
    st.push(VMData::I64(3)).unwrap();
    st.push(VMData::I64(8)).unwrap();
    assert_eq!(min_max(&mut st, &mut mem, MinMax::Max), Ok(VMData::I64(8)));
}

#[test]
fn random_stays_in_range() {
    let (mut st, mut mem) = setup();
    for _ in 0..50 {
        st.push(VMData::I64(-3)).unwrap();
        st.push(VMData::I64(4)).unwrap();
        match random(&mut st, &mut mem) {
            Ok(VMData::I64(x)) => assert!((-3..4).contains(&x)),
            other => panic!("unexpected {:?}", other),
        }
    }
    st.push(VMData::I64(4)).unwrap();
    st.push(VMData::I64(4)).unwrap();
    assert_eq!(random(&mut st, &mut mem), Err(RuntimeError::InvalidOperation));
}

fn split_texts(text: &str, delim: &str) -> Vec<String> {
    let (mut st, mut mem) = setup();
    let a = put_string(&mut mem, text.to_string()).unwrap();
    let d = put_string(&mut mem, delim.to_string()).unwrap();
    mem.rc_inc(a.as_object()).unwrap();
    mem.rc_inc(d.as_object()).unwrap();
    st.push(a).unwrap();
    st.push(d).unwrap();
    let l = split(&mut st, &mut mem).unwrap();
    let items = match mem.kind(l.as_object()) {
        ObjectKind::List(items) => items.clone(),
        _ => panic!("not a list"),
    };
    items.iter().map(|v| string_at(&mem, *v)).collect()
}

#[test]
fn split_pieces_rejoin_and_count_the_matches() {
    let pieces = split_texts("aaaab", "aa");
    assert_eq!(pieces, vec!["", "", "b"]);
    assert_eq!(pieces.join("aa"), "aaaab");
    assert_eq!(split_texts("", ","), vec![""]);
    assert_eq!(split_texts("xy", ""), vec!["", "x", "y", ""]);
}
