//! The interpreter: the VM's state and the execution of one instruction at a
//! time, each against its meaning in `machine`.
use vstd::prelude::*;
use super::error::{RuntimeError, RuntimeResult};
use super::value::{VMData, ObjectIndex};
use super::memory::{
    Memory, MemModel, KindModel, ObjectKind, Class, dec_spec, inc_spec, in_bounds, slot, mem_ok,
    lemma_mem_ok_dec, lemma_mem_ok_put, new_spec, clear_spec,
};
use super::stack::{Stack, StackModel, STACK_SIZE, release_spec, push_spec};
use super::vars::{VarMap, Key, release_vars};
use super::instruction::{Instruction, Program, Type, ConstantClass, Label, ImportedLibrary};
use super::text::{display, parse_i64, parse_u64, parse_bool, chars_of, value_char, replace_at_byte};
use super::library::{
    get_obj_mut, lemma_put_back, heap, pop_string, pop_text, put_string, h_put_string, trim_text,
    trim_spec, put_string_list, store_strings_spec, texts, h_pop, as_text,
};
use super::externs::{
    StdLibrary, ExternFunction, call_extern, library_named, last_segment, library_name, put_object,
    h_put_object,
};
use super::machine::{
    VmModel, Outcome, OutcomeModel, FloatRequest, FloatArith, CastModel, result_view, IntOp, int_op,
    int_instr_spec, div_instr_spec, float_instr_spec, push_instr_spec, delete_spec, find_class,
    find_label, units, new_obj_spec, get_field_spec, set_field_spec, push_str_spec, jmpz_spec,
    jump_to, usize_range, truncated_div, RequestModel, cast_spec, cast_finish, text_cast_spec, value_cast_spec,
    store_spec, load_spec, pop_instr_spec, swap_spec, dup_spec, string_load_spec, list_load_spec,
    string_store_spec, list_store_spec, new_list_spec, extern_call_spec, call_to, direct_call_spec,
    named_call_spec, return_spec, step_spec, return_incs, v_push, v_push_rc, v_put, v_pop, advance,
};

verus! {

/// The virtual machine: the program, its stack, its memory of objects, its
/// variables and where it stands in the program.
pub struct Atlas77VM {
    pub program: Program,
    pub stack: Stack,
    /// The saved program counter and stack top of each call in progress.
    stack_frame: Vec<(usize, usize)>,
    pub object_map: Memory,
    pub var_map: VarMap,
    /// The standard libraries that the program imports.
    libs: Vec<StdLibrary>,
    pub pc: usize,
}

impl View for Atlas77VM {
    type V = VmModel;

    closed spec fn view(&self) -> VmModel {
        VmModel {
            stack: self.stack@,
            frames: self.stack_frame@,
            mem: self.object_map@,
            vars: self.var_map@,
            pc: self.pc,
            libs: self.libs@,
        }
    }
}

pub proof fn lemma_mem_ok_inc(m: MemModel, i: ObjectIndex)
    requires
        mem_ok(m),
    ensures
        mem_ok(inc_spec(m, i).0),
{
}

/// Releasing stack slots keeps the memory as the VM keeps it.
pub proof fn lemma_mem_ok_release(values: Seq<VMData>, m: MemModel, i: int, last: int)
    requires
        mem_ok(m),
    ensures
        mem_ok(release_spec(values, m, i, last).0),
    decreases last + 1 - i,
{
    if i <= last && 0 <= i < values.len() {
        match super::value::object_of(values[i]) {
            Some(o) => {
                lemma_mem_ok_dec(m, o);
                let (m1, r) = dec_spec(m, o);
                if r is Ok {
                    lemma_mem_ok_release(values, m1, i + 1, last);
                }
            },
            None => lemma_mem_ok_release(values, m, i + 1, last),
        }
    }
}

/// Releasing variables keeps the memory as the VM keeps it.
pub proof fn lemma_mem_ok_release_vars(vars: Seq<super::vars::VarEntry>, m: MemModel, scope: usize, k: int)
    requires
        mem_ok(m),
    ensures
        mem_ok(release_vars(vars, m, scope, k).0),
    decreases vars.len() - k,
{
    if 0 <= k < vars.len() {
        if vars[k].0 >= scope {
            match super::value::object_of(vars[k].2) {
                Some(o) => {
                    lemma_mem_ok_dec(m, o);
                    let (m1, r) = dec_spec(m, o);
                    if r is Ok {
                        lemma_mem_ok_release_vars(vars, m1, scope, k + 1);
                    }
                },
                None => lemma_mem_ok_release_vars(vars, m, scope, k + 1),
            }
        } else {
            lemma_mem_ok_release_vars(vars, m, scope, k + 1);
        }
    }
}

/// `n` units.
fn unit_values(n: usize) -> (r: Vec<VMData>)
    ensures
        r@ == units(n as nat),
{
    let mut v: Vec<VMData> = Vec::new();
    let mut i: usize = 0;
    while i < n
        invariant
            i <= n,
            v@ == units(i as nat),
        decreases n - i,
    {
        v.push(VMData::Unit);
        i += 1;
        assert(v@ =~= units(i as nat));
    }
    v
}

/// Rust's `/` on `i64`.
fn div_i64(b: i64, a: i64) -> (r: i64)
    requires
        a != 0,
        !(b == i64::MIN && a == -1),
    ensures
        r == truncated_div(b as int, a as int),
{
    let ub: u64 = if b < 0 { if b == i64::MIN { 9223372036854775808u64 } else { (-b) as u64 } } else { b as u64 };
    let ua: u64 = if a < 0 { if a == i64::MIN { 9223372036854775808u64 } else { (-a) as u64 } } else { a as u64 };
    let q = ub / ua;
    assert(q <= ub) by (nonlinear_arith)
        requires q == ub / ua, ua > 0;
    assert(ua >= 2 ==> q <= ub / 2) by (nonlinear_arith)
        requires q == ub / ua, ua > 0;
    if (b < 0) != (a < 0) {
        -(q as i128) as i64
    } else {
        q as i64
    }
}

impl Atlas77VM {
    /// The stack has its slots, the memory is kept as the VM keeps it, and the
    /// program's length fits in `usize`.
    pub closed spec fn wf(&self) -> bool {
        &&& self.stack.wf()
        &&& mem_ok(self.object_map@)
        &&& self.program.code().len() <= usize::MAX
    }

    /// The program that the VM runs.
    pub closed spec fn prog(&self) -> Program {
        self.program
    }

    /// Whether the standard library `lib` is imported.
    fn has_library(&self, lib: StdLibrary) -> (r: bool)
        ensures
            r == self.libs@.contains(lib),
    {
        let mut k: usize = 0;
        while k < self.libs.len()
            invariant
                k <= self.libs@.len(),
                forall|j: int| 0 <= j < k ==> self.libs@[j] != lib,
            decreases self.libs@.len() - k,
        {
            if self.libs[k] == lib {
                return true;
            }
            k += 1;
        }
        false
    }

    /// The position of the first class of that name in the constant pool.
    fn class_index(&self, name: &String) -> (r: Option<usize>)
        ensures
            match r {
                Some(i) => find_class(self.program.global.class_pool@, name@, 0) == Some(i as int)
                    && i < self.program.global.class_pool@.len(),
                None => find_class(self.program.global.class_pool@, name@, 0) is None,
            },
    {
        let pool = &self.program.global.class_pool;
        let mut k: usize = 0;
        while k < pool.len()
            invariant
                k <= pool@.len(),
                pool@ == self.program.global.class_pool@,
                find_class(pool@, name@, 0) == find_class(pool@, name@, k as int),
            decreases pool@.len() - k,
        {
            if pool[k].name.eq(name) {
                assert(pool@[k as int].name@ == name@);
                return Some(k);
            }
            k += 1;
        }
        None
    }

    /// The position of the first label of that name.
    fn label_index(&self, name: &String) -> (r: Option<usize>)
        ensures
            match r {
                Some(i) => find_label(self.program.labels@, name@, 0) == Some(i as int)
                    && i < self.program.labels@.len(),
                None => find_label(self.program.labels@, name@, 0) is None,
            },
    {
        let labels = &self.program.labels;
        let mut k: usize = 0;
        while k < labels.len()
            invariant
                k <= labels@.len(),
                labels@ == self.program.labels@,
                find_label(labels@, name@, 0) == find_label(labels@, name@, k as int),
            decreases labels@.len() - k,
        {
            if labels[k].name.eq(name) {
                assert(labels@[k as int].name@ == name@);
                return Some(k);
            }
            k += 1;
        }
        None
    }

    fn op_int(&mut self, op: IntOp) -> (r: RuntimeResult<Outcome>)
        requires
            old(self).wf(),
            old(self).pc < usize::MAX,
        ensures
            final(self).wf(),
            final(self).program == old(self).program,
            (final(self)@, result_view(r)) == int_instr_spec(old(self)@, op),
    {
        let a = self.stack.pop()?;
        let b = self.stack.pop()?;
        let v = int_op(op, b, a)?;
        self.stack.push(v)?;
        self.pc = self.pc + 1;
        Ok(Outcome::Continue)
    }

    fn op_div(&mut self, signed: bool) -> (r: RuntimeResult<Outcome>)
        requires
            old(self).wf(),
            old(self).pc < usize::MAX,
        ensures
            final(self).wf(),
            final(self).program == old(self).program,
            (final(self)@, result_view(r)) == div_instr_spec(old(self)@, signed),
    {
        let a = self.stack.pop()?;
        if (signed && a == VMData::I64(0)) || (!signed && a == VMData::U64(0)) {
            return Err(RuntimeError::DivisionByZero);
        }
        let b = self.stack.pop()?;
        let v = if signed {
            let x = b.as_i64();
            let y = a.as_i64();
            if y == 0 {
                return Err(RuntimeError::DivisionByZero);
            } else if x == i64::MIN && y == -1 {
                return Err(RuntimeError::InvalidOperation);
            }
            VMData::I64(div_i64(x, y))
        } else {
            let y = a.as_u64();
            if y == 0 {
                return Err(RuntimeError::DivisionByZero);
            }
            VMData::U64(b.as_u64() / y)
        };
        self.stack.push(v)?;
        self.pc = self.pc + 1;
        Ok(Outcome::Continue)
    }

    fn op_float(&mut self, op: FloatArith) -> (r: RuntimeResult<Outcome>)
        requires
            old(self).wf(),
        ensures
            final(self).wf(),
            final(self).program == old(self).program,
            (final(self)@, result_view(r)) == float_instr_spec(old(self)@, op),
    {
        let a = self.stack.pop()?;
        if op == FloatArith::Div {
            if let VMData::Float(bits) = a {
                if bits == 0 || bits == 0x8000_0000_0000_0000 {
                    return Err(RuntimeError::DivisionByZero);
                }
            }
        }
        let b = self.stack.pop()?;
        Ok(Outcome::Float(FloatRequest::Arith { op, lhs: b.bits(), rhs: a.bits() }))
    }

    fn op_push(&mut self, v: VMData) -> (r: RuntimeResult<Outcome>)
        requires
            old(self).wf(),
            old(self).pc < usize::MAX,
        ensures
            final(self).wf(),
            final(self).program == old(self).program,
            (final(self)@, result_view(r)) == push_instr_spec(old(self)@, v),
    {
        self.stack.push(v)?;
        self.pc = self.pc + 1;
        Ok(Outcome::Continue)
    }

    fn op_delete(&mut self) -> (r: RuntimeResult<Outcome>)
        requires
            old(self).wf(),
            old(self).pc < usize::MAX,
        ensures
            final(self).wf(),
            final(self).program == old(self).program,
            (final(self)@, result_view(r)) == delete_spec(old(self)@),
    {
        let v = self.stack.pop()?;
        let o = match v.object() {
            Some(o) => o,
            None => return Err(RuntimeError::TypeMismatchError),
        };
        proof { lemma_mem_ok_dec(self.object_map@, o); }
        self.object_map.free(o)?;
        self.pc = self.pc + 1;
        Ok(Outcome::Continue)
    }

    fn op_new_obj(&mut self, name: &String) -> (r: RuntimeResult<Outcome>)
        requires
            old(self).wf(),
            old(self).pc < usize::MAX,
        ensures
            final(self).wf(),
            final(self).program == old(self).program,
            (final(self)@, result_view(r)) == new_obj_spec(old(self)@, old(self).program, name@),
    {
        match self.class_index(name) {
            None => Err(RuntimeError::InvalidOperation),
            Some(ci) => {
                let n = self.program.global.class_pool[ci].fields.len();
                let fields = unit_values(n);
                proof { lemma_mem_ok_put(self.object_map@, KindModel::Class(fields@)); }
                let i = self.object_map.put(ObjectKind::Class(Class::new(fields)))?;
                self.stack.push(VMData::Object(i))?;
                self.pc = self.pc + 1;
                Ok(Outcome::Continue)
            },
        }
    }

    fn op_get_field(&mut self, field: usize) -> (r: RuntimeResult<Outcome>)
        requires
            old(self).wf(),
            old(self).pc < usize::MAX,
        ensures
            final(self).wf(),
            final(self).program == old(self).program,
            (final(self)@, result_view(r)) == get_field_spec(old(self)@, field),
    {
        let v = self.stack.pop()?;
        let o = match v.object() {
            Some(o) => o,
            None => return Err(RuntimeError::TypeMismatchError),
        };
        proof { lemma_mem_ok_dec(self.object_map@, o); }
        let k = self.object_map.get(o)?;
        match k {
            ObjectKind::Class(c) => {
                if field < c.fields.len() {
                    let fv = c.fields[field];
                    proof {
                        if let Some(fo) = super::value::object_of(fv) {
                            lemma_mem_ok_inc(self.object_map@, fo);
                        }
                    }
                    self.stack.push_with_rc(fv, &mut self.object_map)?;
                    self.pc = self.pc + 1;
                    Ok(Outcome::Continue)
                } else {
                    Err(RuntimeError::IndexOutOfBounds)
                }
            },
            _ => Err(RuntimeError::TypeMismatchError),
        }
    }

    fn op_set_field(&mut self, field: usize) -> (r: RuntimeResult<Outcome>)
        requires
            old(self).wf(),
            old(self).pc < usize::MAX,
        ensures
            final(self).wf(),
            final(self).program == old(self).program,
            (final(self)@, result_view(r)) == set_field_spec(old(self)@, field),
    {
        let val = self.stack.pop()?;
        match val.object() {
            Some(o1) => {
                proof { lemma_mem_ok_inc(self.object_map@, o1); }
                self.object_map.rc_inc(o1)?;
            },
            None => {},
        }
        let ov = self.stack.pop()?;
        let o = match ov.object() {
            Some(o) => o,
            None => return Err(RuntimeError::TypeMismatchError),
        };
        let ghost m3 = self.object_map@;
        let k = get_obj_mut(&mut self.object_map, o)?;
        let ghost m4 = dec_spec(m3, o).0;
        match k {
            ObjectKind::Class(c) => {
                let mut fields = c.fields;
                let ghost f0 = fields@;
                if field < fields.len() {
                    fields.set(field, val);
                    self.object_map.set_kind(o, ObjectKind::Class(Class::new(fields)));
                    proof { lemma_put_back(m4, o, KindModel::Class(f0.update(field as int, val))); }
                    self.pc = self.pc + 1;
                    Ok(Outcome::Continue)
                } else {
                    self.object_map.set_kind(o, ObjectKind::Class(Class::new(fields)));
                    proof {
                        lemma_put_back(m4, o, KindModel::Class(f0));
                        assert(m4.objs =~= self.object_map@.objs);
                    }
                    Err(RuntimeError::IndexOutOfBounds)
                }
            },
            other => {
                self.object_map.set_kind(o, other);
                proof {
                    lemma_put_back(m4, o, slot(m4, o).kind);
                    assert(m4.objs =~= self.object_map@.objs);
                }
                Err(RuntimeError::TypeMismatchError)
            },
        }
    }

    fn op_push_str(&mut self, u: usize) -> (r: RuntimeResult<Outcome>)
        requires
            old(self).wf(),
            old(self).pc < usize::MAX,
        ensures
            final(self).wf(),
            final(self).program == old(self).program,
            (final(self)@, result_view(r)) == push_str_spec(old(self)@, old(self).program, u),
    {
        if u >= self.program.global.string_pool.len() {
            return Err(RuntimeError::IndexOutOfBounds);
        }
        let txt = self.program.global.string_pool[u].clone();
        proof { lemma_mem_ok_put(self.object_map@, KindModel::String(txt@)); }
        let i = match self.object_map.put(ObjectKind::String(txt)) {
            Ok(i) => i,
            Err(_) => return Err(RuntimeError::OutOfMemory),
        };
        self.stack.push(VMData::Str(i))?;
        self.pc = self.pc + 1;
        Ok(Outcome::Continue)
    }

    fn op_jump(&mut self, target: i128) -> (r: RuntimeResult<Outcome>)
        requires
            -usize_range() <= target < 2 * usize_range(),
        ensures
            final(self).program == old(self).program,
            final(self).stack == old(self).stack,
            final(self).object_map == old(self).object_map,
            (final(self)@, result_view(r)) == jump_to(old(self)@, target as int),
    {
        let m: i128 = usize::MAX as i128 + 1;
        let w: i128 = if target < 0 {
            target + m
        } else if target > usize::MAX as i128 {
            target - m
        } else {
            target
        };
        proof {
            let t = target as int;
            let mm = usize_range();
            assert(mm > 0);
            if t < 0 {
                assert((t + mm) % mm == t % mm) by {
                    vstd::arithmetic::div_mod::lemma_mod_add_multiples_vanish(t, mm);
                }
                vstd::arithmetic::div_mod::lemma_small_mod((t + mm) as nat, mm as nat);
            } else if t >= mm {
                assert((t - mm) % mm == t % mm) by {
                    vstd::arithmetic::div_mod::lemma_mod_sub_multiples_vanish(t, mm);
                }
                vstd::arithmetic::div_mod::lemma_small_mod((t - mm) as nat, mm as nat);
            } else {
                vstd::arithmetic::div_mod::lemma_small_mod(t as nat, mm as nat);
            }
        }
        self.pc = w as usize;
        Ok(Outcome::Continue)
    }

    fn op_jmpz(&mut self, pos: isize) -> (r: RuntimeResult<Outcome>)
        requires
            old(self).wf(),
            old(self).pc < usize::MAX,
        ensures
            final(self).wf(),
            final(self).program == old(self).program,
            (final(self)@, result_view(r)) == jmpz_spec(old(self)@, pos),
    {
        let c = self.stack.pop()?;
        if !c.as_bool() {
            let target = self.pc as i128 + pos as i128 + 1;
            self.op_jump(target)
        } else {
            self.pc = self.pc + 1;
            Ok(Outcome::Continue)
        }
    }
}


/// What a cast gives: a value, float work for the caller, or no value.
pub enum CastResult {
    Value(VMData),
    Request(FloatRequest),
    Fail,
}

impl View for CastResult {
    type V = CastModel;

    open spec fn view(&self) -> CastModel {
        match self {
            CastResult::Value(v) => CastModel::Value(*v),
            CastResult::Request(q) => CastModel::Request(q@),
            CastResult::Fail => CastModel::Fail,
        }
    }
}

/// A cast of the text of a string.
pub fn text_cast(txt: &String, t: Type) -> (r: CastResult)
    ensures
        r@ == text_cast_spec(txt@, t),
{
    match t {
        Type::Char => {
            let cs = chars_of(txt);
            if cs.len() == 1 && (cs[0] as u32) < 128 {
                CastResult::Value(VMData::Char(cs[0]))
            } else {
                CastResult::Fail
            }
        },
        Type::Boolean => match parse_bool(txt) {
            Some(b) => CastResult::Value(VMData::Bool(b)),
            None => CastResult::Fail,
        },
        Type::Float => CastResult::Request(FloatRequest::FromText(txt.clone())),
        Type::Integer => match parse_i64(txt) {
            Some(v) => CastResult::Value(VMData::I64(v)),
            None => CastResult::Fail,
        },
        Type::UnsignedInteger => match parse_u64(txt) {
            Some(v) => CastResult::Value(VMData::U64(v)),
            None => CastResult::Fail,
        },
        Type::String => CastResult::Fail,
    }
}

/// A cast of a value that is not a string.
pub fn value_cast(v: VMData, t: Type) -> (r: CastResult)
    ensures
        r@ == value_cast_spec(v, t),
{
    match t {
        Type::Char => match value_char(v) {
            Some(c) => CastResult::Value(VMData::Char(c)),
            None => CastResult::Fail,
        },
        Type::Boolean => CastResult::Value(VMData::Bool(v.as_bool())),
        Type::Float => match v {
            VMData::U64(u) => CastResult::Request(FloatRequest::FromUInt(u)),
            VMData::I64(i) => CastResult::Request(FloatRequest::FromInt(i)),
            VMData::Bool(b) => CastResult::Value(VMData::Float(if b { 0x3FF0_0000_0000_0000 } else { 0 })),
            VMData::Char(c) => CastResult::Request(FloatRequest::FromInt(c as i64)),
            _ => CastResult::Fail,
        },
        Type::Integer => match v {
            VMData::U64(u) => CastResult::Value(VMData::I64(u as i64)),
            VMData::Float(b) => CastResult::Request(FloatRequest::ToInt(b)),
            VMData::Bool(b) => CastResult::Value(VMData::I64(if b { 1 } else { 0 })),
            VMData::Char(c) => CastResult::Value(VMData::I64(c as i64)),
            _ => CastResult::Fail,
        },
        Type::UnsignedInteger => match v {
            VMData::I64(i) => CastResult::Value(VMData::U64(i as u64)),
            VMData::Float(b) => CastResult::Request(FloatRequest::ToUInt(b)),
            VMData::Bool(b) => CastResult::Value(VMData::U64(if b { 1 } else { 0 })),
            VMData::Char(c) => CastResult::Value(VMData::U64(c as u64)),
            _ => CastResult::Fail,
        },
        Type::String => CastResult::Fail,
    }
}

impl Atlas77VM {
    fn op_cast_finish(&mut self, c: CastResult, tag: u8, t: Type) -> (r: RuntimeResult<Outcome>)
        requires
            old(self).wf(),
            old(self).pc < usize::MAX,
        ensures
            final(self).wf(),
            final(self).program == old(self).program,
            (final(self)@, result_view(r)) == cast_finish(old(self)@, c@, tag, t),
    {
        match c {
            CastResult::Value(v) => self.op_push(v),
            CastResult::Request(q) => Ok(Outcome::Float(q)),
            CastResult::Fail => Err(RuntimeError::InvalidCast(tag, t.number())),
        }
    }

    fn op_cast(&mut self, t: Type) -> (r: RuntimeResult<Outcome>)
        requires
            old(self).wf(),
            old(self).pc < usize::MAX,
        ensures
            final(self).wf(),
            final(self).program == old(self).program,
            (final(self)@, result_view(r)) == cast_spec(old(self)@, t),
    {
        proof {
            let (s1, r1) = super::stack::pop_spec(self.stack@);
            if let Ok(v) = r1 {
                if let Some(o) = super::value::object_of(v) {
                    lemma_mem_ok_dec(self.object_map@, o);
                }
            }
        }
        let val = self.stack.pop_with_rc(&mut self.object_map)?;
        if t == Type::String {
            match display(val) {
                Some(txt) => {
                    proof { lemma_mem_ok_put(self.object_map@, KindModel::String(txt@)); }
                    let i = match self.object_map.put(ObjectKind::String(txt)) {
                        Ok(i) => i,
                        Err(_) => return Err(RuntimeError::OutOfMemory),
                    };
                    self.op_push(VMData::Str(i))
                },
                None => Ok(Outcome::Float(FloatRequest::ToText(val.bits()))),
            }
        } else {
            match val {
                VMData::Str(o) => {
                    proof { lemma_mem_ok_dec(self.object_map@, o); }
                    let k = self.object_map.get(o)?;
                    match k {
                        ObjectKind::String(txt) => {
                            let c = text_cast(&txt, t);
                            self.op_cast_finish(c, val.tag(), t)
                        },
                        _ => Err(RuntimeError::TypeMismatchError),
                    }
                },
                _ => {
                    let c = value_cast(val, t);
                    self.op_cast_finish(c, val.tag(), t)
                },
            }
        }
    }

    fn op_store(&mut self, name: &String) -> (r: RuntimeResult<Outcome>)
        requires
            old(self).wf(),
            old(self).pc < usize::MAX,
        ensures
            final(self).wf(),
            final(self).program == old(self).program,
            (final(self)@, result_view(r)) == store_spec(old(self)@, name@),
    {
        let v = self.stack.pop()?;
        let key = Key { scope: self.stack_frame.len(), name: name.clone() };
        proof {
            match super::vars::find_var(self.var_map@, key.scope, key.name@) {
                Some(i) => if let Some(o) = super::value::object_of(self.var_map@[i].2) {
                    lemma_mem_ok_dec(self.object_map@, o);
                },
                None => {},
            }
        }
        self.var_map.insert(key, v, &mut self.object_map)?;
        self.pc = self.pc + 1;
        Ok(Outcome::Continue)
    }

    fn op_load(&mut self, name: &String) -> (r: RuntimeResult<Outcome>)
        requires
            old(self).wf(),
            old(self).pc < usize::MAX,
        ensures
            final(self).wf(),
            final(self).program == old(self).program,
            (final(self)@, result_view(r)) == load_spec(old(self)@, name@),
    {
        let key = Key { scope: self.stack_frame.len(), name: name.clone() };
        match self.var_map.get(&key) {
            None => Err(RuntimeError::NullReference),
            Some(v) => {
                proof {
                    if let Some(o) = super::value::object_of(v) {
                        lemma_mem_ok_inc(self.object_map@, o);
                    }
                }
                self.stack.push_with_rc(v, &mut self.object_map)?;
                self.pc = self.pc + 1;
                Ok(Outcome::Continue)
            },
        }
    }

    fn op_pop(&mut self) -> (r: RuntimeResult<Outcome>)
        requires
            old(self).wf(),
            old(self).pc < usize::MAX,
        ensures
            final(self).wf(),
            final(self).program == old(self).program,
            (final(self)@, result_view(r)) == pop_instr_spec(old(self)@),
    {
        proof {
            let (s1, r1) = super::stack::pop_spec(self.stack@);
            if let Ok(v) = r1 {
                if let Some(o) = super::value::object_of(v) {
                    lemma_mem_ok_dec(self.object_map@, o);
                }
            }
        }
        self.stack.pop_with_rc(&mut self.object_map)?;
        self.pc = self.pc + 1;
        Ok(Outcome::Continue)
    }

    fn op_swap(&mut self) -> (r: RuntimeResult<Outcome>)
        requires
            old(self).wf(),
            old(self).pc < usize::MAX,
        ensures
            final(self).wf(),
            final(self).program == old(self).program,
            (final(self)@, result_view(r)) == swap_spec(old(self)@),
    {
        let a = self.stack.pop()?;
        let b = self.stack.pop()?;
        self.stack.push(a)?;
        self.op_push(b)
    }

    fn op_dup(&mut self) -> (r: RuntimeResult<Outcome>)
        requires
            old(self).wf(),
            old(self).pc < usize::MAX,
        ensures
            final(self).wf(),
            final(self).program == old(self).program,
            (final(self)@, result_view(r)) == dup_spec(old(self)@),
    {
        let v = self.stack.last()?;
        proof {
            if let Some(o) = super::value::object_of(v) {
                lemma_mem_ok_inc(self.object_map@, o);
            }
        }
        self.stack.push_with_rc(v, &mut self.object_map)?;
        self.pc = self.pc + 1;
        Ok(Outcome::Continue)
    }

    fn op_string_load(&mut self) -> (r: RuntimeResult<Outcome>)
        requires
            old(self).wf(),
            old(self).pc < usize::MAX,
        ensures
            final(self).wf(),
            final(self).program == old(self).program,
            (final(self)@, result_view(r)) == string_load_spec(old(self)@),
    {
        let iv = self.stack.pop()?;
        let pv = self.stack.pop()?;
        let o = match pv.object() {
            Some(o) => o,
            None => return Err(RuntimeError::TypeMismatchError),
        };
        proof { lemma_mem_ok_dec(self.object_map@, o); }
        let k = self.object_map.get(o)?;
        match k {
            ObjectKind::String(txt) => {
                let cs = chars_of(&txt);
                let i = iv.bits();
                if i < cs.len() as u64 {
                    self.op_push(VMData::Char(cs[i as usize]))
                } else {
                    Err(RuntimeError::IndexOutOfBounds)
                }
            },
            _ => Err(RuntimeError::TypeMismatchError),
        }
    }

    fn op_list_load(&mut self) -> (r: RuntimeResult<Outcome>)
        requires
            old(self).wf(),
            old(self).pc < usize::MAX,
        ensures
            final(self).wf(),
            final(self).program == old(self).program,
            (final(self)@, result_view(r)) == list_load_spec(old(self)@),
    {
        let iv = self.stack.pop()?;
        let pv = self.stack.pop()?;
        let o = match pv.object() {
            Some(o) => o,
            None => return Err(RuntimeError::TypeMismatchError),
        };
        proof { lemma_mem_ok_dec(self.object_map@, o); }
        let k = self.object_map.get(o)?;
        match k {
            ObjectKind::List(l) => {
                let i = iv.bits();
                if i < l.len() as u64 {
                    let v = l[i as usize];
                    proof {
                        if let Some(vo) = super::value::object_of(v) {
                            lemma_mem_ok_inc(self.object_map@, vo);
                        }
                    }
                    self.stack.push_with_rc(v, &mut self.object_map)?;
                    self.pc = self.pc + 1;
                    Ok(Outcome::Continue)
                } else {
                    Err(RuntimeError::IndexOutOfBounds)
                }
            },
            _ => Err(RuntimeError::TypeMismatchError),
        }
    }
}


impl Atlas77VM {
    fn op_string_store(&mut self) -> (r: RuntimeResult<Outcome>)
        requires
            old(self).wf(),
            old(self).pc < usize::MAX,
        ensures
            final(self).wf(),
            final(self).program == old(self).program,
            (final(self)@, result_view(r)) == string_store_spec(old(self)@),
    {
        let cv = self.stack.pop()?;
        let c = match value_char(cv) {
            Some(c) => c,
            None => return Err(RuntimeError::TypeMismatchError),
        };
        let iv = self.stack.pop()?;
        let pv = self.stack.pop()?;
        let o = match pv.object() {
            Some(o) => o,
            None => return Err(RuntimeError::TypeMismatchError),
        };
        let ghost m3 = self.object_map@;
        let k = get_obj_mut(&mut self.object_map, o)?;
        let ghost m4 = dec_spec(m3, o).0;
        match k {
            ObjectKind::String(txt) => {
                let ghost t0 = txt@;
                match replace_at_byte(&txt, iv.bits(), c) {
                    Some(t2) => {
                        let ghost j = super::text::char_at_byte(t0, super::value::bits_of(iv) as nat)->Some_0;
                        self.object_map.set_kind(o, ObjectKind::String(t2));
                        proof { lemma_put_back(m4, o, KindModel::String(t0.update(j, c))); }
                        self.pc = self.pc + 1;
                        Ok(Outcome::Continue)
                    },
                    None => {
                        self.object_map.set_kind(o, ObjectKind::String(txt));
                        proof {
                            lemma_put_back(m4, o, KindModel::String(t0));
                            assert(m4.objs =~= self.object_map@.objs);
                        }
                        Err(RuntimeError::IndexOutOfBounds)
                    },
                }
            },
            other => {
                self.object_map.set_kind(o, other);
                proof {
                    lemma_put_back(m4, o, slot(m4, o).kind);
                    assert(m4.objs =~= self.object_map@.objs);
                }
                Err(RuntimeError::TypeMismatchError)
            },
        }
    }

    fn op_list_store(&mut self) -> (r: RuntimeResult<Outcome>)
        requires
            old(self).wf(),
            old(self).pc < usize::MAX,
        ensures
            final(self).wf(),
            final(self).program == old(self).program,
            (final(self)@, result_view(r)) == list_store_spec(old(self)@),
    {
        let val = self.stack.pop()?;
        let pv = self.stack.pop()?;
        let iv = self.stack.pop()?;
        let o = match pv.object() {
            Some(o) => o,
            None => return Err(RuntimeError::TypeMismatchError),
        };
        let ghost m3 = self.object_map@;
        let k = get_obj_mut(&mut self.object_map, o)?;
        let ghost m4 = dec_spec(m3, o).0;
        match k {
            ObjectKind::List(l) => {
                let mut l = l;
                let ghost l0 = l@;
                let i = iv.bits();
                if i < l.len() as u64 {
                    l.set(i as usize, val);
                    self.object_map.set_kind(o, ObjectKind::List(l));
                    proof { lemma_put_back(m4, o, KindModel::List(l0.update(i as int, val))); }
                    self.pc = self.pc + 1;
                    Ok(Outcome::Continue)
                } else {
                    self.object_map.set_kind(o, ObjectKind::List(l));
                    proof {
                        lemma_put_back(m4, o, KindModel::List(l0));
                        assert(m4.objs =~= self.object_map@.objs);
                    }
                    Err(RuntimeError::IndexOutOfBounds)
                }
            },
            other => {
                self.object_map.set_kind(o, other);
                proof {
                    lemma_put_back(m4, o, slot(m4, o).kind);
                    assert(m4.objs =~= self.object_map@.objs);
                }
                Err(RuntimeError::TypeMismatchError)
            },
        }
    }

    fn op_new_list(&mut self) -> (r: RuntimeResult<Outcome>)
        requires
            old(self).wf(),
            old(self).pc < usize::MAX,
        ensures
            final(self).wf(),
            final(self).program == old(self).program,
            (final(self)@, result_view(r)) == new_list_spec(old(self)@),
    {
        let sz = self.stack.pop()?;
        let n = sz.bits();
        if n as u128 * 16 > isize::MAX as u128 {
            return Err(RuntimeError::OutOfMemory);
        }
        let l = unit_values(n as usize);
        proof { lemma_mem_ok_put(self.object_map@, KindModel::List(l@)); }
        let i = self.object_map.put(ObjectKind::List(l))?;
        self.op_push(VMData::List(i))
    }

    fn op_extern(&mut self, name: &String, nb_args: u8) -> (r: RuntimeResult<Outcome>)
        requires
            old(self).wf(),
            old(self).pc < usize::MAX,
        ensures
            final(self).wf(),
            final(self).program == old(self).program,
            (final(self)@, result_view(r)) == extern_call_spec(old(self)@, name@, nb_args),
    {
        match ExternFunction::from_name(name) {
            None => Err(RuntimeError::InvalidOperation),
            Some(f) => {
                if !self.has_library(f.library()) {
                    return Err(RuntimeError::InvalidOperation);
                }
                if f.runs_in_vm() {
                    let v = call_extern(&mut self.stack, &mut self.object_map, f)?;
                    proof {
                        if let Some(o) = super::value::object_of(v) {
                            lemma_mem_ok_inc(self.object_map@, o);
                        }
                    }
                    self.stack.push_with_rc(v, &mut self.object_map)?;
                    self.pc = self.pc + 1;
                    Ok(Outcome::Continue)
                } else {
                    Ok(Outcome::Extern { function: f, nb_args })
                }
            },
        }
    }

    fn op_call_to(&mut self, target: usize, nb_args: u8) -> (r: RuntimeResult<Outcome>)
        requires
            old(self).wf(),
        ensures
            final(self).wf(),
            final(self).program == old(self).program,
            (final(self)@, result_view(r)) == call_to(old(self)@, target, nb_args),
    {
        let top = self.stack.top();
        if nb_args as usize > top {
            return Err(RuntimeError::StackUnderflow);
        }
        let sp = top - nb_args as usize;
        self.stack_frame.push((self.pc, sp));
        self.pc = target;
        Ok(Outcome::Continue)
    }

    fn op_direct_call(&mut self, pos: usize, args: u8) -> (r: RuntimeResult<Outcome>)
        requires
            old(self).wf(),
        ensures
            final(self).wf(),
            final(self).program == old(self).program,
            (final(self)@, result_view(r)) == direct_call_spec(old(self)@, pos, args),
    {
        if pos >= STACK_SIZE {
            return Err(RuntimeError::IndexOutOfBounds);
        }
        let fp = self.stack.get(pos);
        self.op_call_to(fp.bits() as usize, args)
    }

    fn op_named_call(&mut self, name: &String, nb_args: u8) -> (r: RuntimeResult<Outcome>)
        requires
            old(self).wf(),
        ensures
            final(self).wf(),
            final(self).program == old(self).program,
            (final(self)@, result_view(r)) == named_call_spec(old(self)@, old(self).program, name@, nb_args),
    {
        match self.label_index(name) {
            None => Err(RuntimeError::InvalidOperation),
            Some(li) => {
                let target = self.program.labels[li].position;
                self.op_call_to(target, nb_args)
            },
        }
    }

    fn return_inc(&mut self, ret: VMData) -> (r: RuntimeResult<()>)
        requires
            old(self).wf(),
        ensures
            final(self).wf(),
            final(self).program == old(self).program,
            (final(self)@, r) == return_incs(old(self)@, ret),
    {
        match ret {
            VMData::Str(o) | VMData::List(o) => {
                proof { lemma_mem_ok_inc(self.object_map@, o); }
                self.object_map.rc_inc(o)?;
                proof { lemma_mem_ok_inc(self.object_map@, o); }
                self.object_map.rc_inc(o)
            },
            VMData::Object(o) => {
                proof { lemma_mem_ok_inc(self.object_map@, o); }
                self.object_map.rc_inc(o)
            },
            _ => Ok(()),
        }
    }

    fn op_return(&mut self) -> (r: RuntimeResult<Outcome>)
        requires
            old(self).wf(),
        ensures
            final(self).wf(),
            final(self).program == old(self).program,
            (final(self)@, result_view(r)) == return_spec(old(self)@),
    {
        let n0 = self.stack_frame.len();
        let (pc0, sp) = match self.stack_frame.pop() {
            Some(f) => f,
            None => return Err(RuntimeError::InvalidOperation),
        };
        let ret = self.stack.last()?;
        self.return_inc(ret)?;
        proof { lemma_mem_ok_release(self.stack@.values, self.object_map@, sp as int, self.stack@.top as int); }
        self.stack.truncate(sp, &mut self.object_map)?;
        assert(self.stack_frame@.len() == n0 - 1);
        let scope = self.stack_frame.len() + 1;
        proof { lemma_mem_ok_release_vars(self.var_map@, self.object_map@, scope, 0); }
        self.var_map.clean_scope(scope, &mut self.object_map)?;
        if pc0 == usize::MAX {
            return Err(RuntimeError::InvalidOperation);
        }
        self.pc = pc0 + 1;
        self.stack.push(ret)?;
        Ok(Outcome::Continue)
    }

    /// Executes one instruction. Float work and the library functions that
    /// read or write files, the console or the clock, draw at random or compute
    /// on floats are handed back as the outcome; the caller completes them.
    pub fn execute_instruction(&mut self, instr: Instruction) -> (r: RuntimeResult<Outcome>)
        requires
            old(self).wf(),
            old(self)@.pc < usize::MAX,
        ensures
            final(self).wf(),
            final(self).prog() == old(self).prog(),
            (final(self)@, result_view(r)) == step_spec(old(self)@, old(self).prog(), instr),
    {
        match instr {
            Instruction::DeleteObj => self.op_delete(),
            Instruction::NewObj { class_name } => self.op_new_obj(&class_name),
            Instruction::GetField { field } => self.op_get_field(field),
            Instruction::SetField { field } => self.op_set_field(field),
            Instruction::PushInt(i) => self.op_push(VMData::I64(i)),
            Instruction::PushFloat(f) => self.op_push(VMData::Float(f)),
            Instruction::PushUnsignedInt(u) => self.op_push(VMData::U64(u)),
            Instruction::PushChar(c) => self.op_push(VMData::Char(c)),
            Instruction::PushUnit => self.op_push(VMData::Unit),
            Instruction::PushBool(b) => self.op_push(VMData::Bool(b)),
            Instruction::PushStr(u) => self.op_push_str(u),
            Instruction::Lt => self.op_int(IntOp::Lt),
            Instruction::Lte => self.op_int(IntOp::Lte),
            Instruction::Gt => self.op_int(IntOp::Gt),
            Instruction::Gte => self.op_int(IntOp::Gte),
            Instruction::Eq => self.op_int(IntOp::Eq),
            Instruction::Neq => self.op_int(IntOp::Neq),
            Instruction::JmpZ { pos } => self.op_jmpz(pos),
            Instruction::CastTo(t) => self.op_cast(t),
            Instruction::Jmp { pos } => {
                let target = self.pc as i128 + pos as i128;
                self.op_jump(target)
            },
            Instruction::Store { var_name } => self.op_store(&var_name),
            Instruction::Load { var_name } => self.op_load(&var_name),
            Instruction::Pop => self.op_pop(),
            Instruction::Swap => self.op_swap(),
            Instruction::Dup => self.op_dup(),
            Instruction::IMul => self.op_int(IntOp::IMul),
            Instruction::UIMul => self.op_int(IntOp::UIMul),
            Instruction::IAdd => self.op_int(IntOp::IAdd),
            Instruction::UIAdd => self.op_int(IntOp::UIAdd),
            Instruction::ISub => self.op_int(IntOp::ISub),
            Instruction::UISub => self.op_int(IntOp::UISub),
            Instruction::IMod => self.op_int(IntOp::IMod),
            Instruction::IDiv => self.op_div(true),
            Instruction::UIDiv => self.op_div(false),
            Instruction::FAdd => self.op_float(FloatArith::Add),
            Instruction::FSub => self.op_float(FloatArith::Sub),
            Instruction::FMul => self.op_float(FloatArith::Mul),
            Instruction::FDiv => self.op_float(FloatArith::Div),
            Instruction::StringLoad => self.op_string_load(),
            Instruction::ListLoad => self.op_list_load(),
            Instruction::StringStore => self.op_string_store(),
            Instruction::ListStore => self.op_list_store(),
            Instruction::NewList => self.op_new_list(),
            Instruction::ExternCall { function_name, nb_args } => self.op_extern(&function_name, nb_args),
            Instruction::DirectCall { pos, args } => self.op_direct_call(pos, args),
            Instruction::FunctionCall { function_name, nb_args } => self.op_named_call(&function_name, nb_args),
            Instruction::StaticCall { method_name, nb_args } => self.op_named_call(&method_name, nb_args),
            Instruction::MethodCall { method_name, nb_args } => self.op_named_call(&method_name, nb_args),
            Instruction::Return => self.op_return(),
            Instruction::Halt => {
                self.pc = self.program.len();
                Ok(Outcome::Continue)
            },
            _ => Err(RuntimeError::InvalidOperation),
        }
    }
}


/// The standard libraries that a program's imports bring, in order.
pub open spec fn std_libs(ls: Seq<ImportedLibrary>) -> Seq<StdLibrary>
    decreases ls.len(),
{
    if ls.len() == 0 {
        Seq::empty()
    } else {
        let rest = std_libs(ls.drop_last());
        let l = ls.last();
        if l.is_std {
            match library_named(last_segment(l.name@)) {
                Some(lib) => rest.push(lib),
                None => rest,
            }
        } else {
            rest
        }
    }
}

/// Whether every standard library that the program imports is one the VM has.
pub open spec fn known_libraries(ls: Seq<ImportedLibrary>) -> bool {
    forall|i: int| 0 <= i < ls.len() && #[trigger] ls[i].is_std ==> library_named(last_segment(ls[i].name@)) is Some
}

/// The function pointers that the program's function pool holds.
pub open spec fn fn_pointers(pool: Seq<usize>) -> Seq<VMData> {
    pool.map_values(|p: usize| VMData::FnPtr(p))
}

/// Starting a program: its function pointers are pushed, then the program
/// counter goes to the entry point.
pub open spec fn start_spec(s: VmModel, p: Program) -> (VmModel, RuntimeResult<()>) {
    let fps = fn_pointers(p.global.function_pool@);
    if s.stack.top + fps.len() >= STACK_SIZE {
        (s, Err(RuntimeError::StackOverflow))
    } else {
        let st = StackModel {
            values: s.stack.values.take(s.stack.top as int) + fps + s.stack.values.skip(s.stack.top + fps.len()),
            top: (s.stack.top + fps.len()) as usize,
        };
        let s1 = VmModel { stack: st, ..s };
        match find_label(p.labels@, p.entry_point@, 0) {
            Some(li) => (VmModel { pc: p.labels@[li].position, ..s1 }, Ok(())),
            None => (s1, Err(RuntimeError::EntryPointNotFound(p.entry_point))),
        }
    }
}

/// Completing an instruction with the value that the caller computed: it is
/// pushed and the program goes on.
pub open spec fn complete_spec(s: VmModel, v: VMData) -> (VmModel, RuntimeResult<()>) {
    let (s1, r) = v_push(s, v);
    match r {
        Err(e) => (s1, Err(e)),
        Ok(_) => (advance(s1), Ok(())),
    }
}

/// What a print function prints of a value.
pub enum PrintArg {
    Text(String),
    /// A float, as its bits, for the caller to write.
    Float(u64),
    /// A list or an object.
    Object(ObjectKind),
}

/// What a print function prints, as plain values.
pub enum PrintModel {
    Text(Seq<char>),
    Float(u64),
    Object(KindModel),
}

impl View for PrintArg {
    type V = PrintModel;

    open spec fn view(&self) -> PrintModel {
        match self {
            PrintArg::Text(s) => PrintModel::Text(s@),
            PrintArg::Float(b) => PrintModel::Float(*b),
            PrintArg::Object(k) => PrintModel::Object(k@),
        }
    }
}

/// Popping the value that `print` and `println` print: booleans and numbers as
/// they display, a string's text, a list or an object as its content.
pub open spec fn print_arg_spec(s: VmModel) -> (VmModel, RuntimeResult<PrintModel>) {
    let (s1, r) = v_pop(s);
    match r {
        Err(e) => (s1, Err(e)),
        Ok(v) => match v {
            VMData::Bool(_) | VMData::U64(_) | VMData::I64(_) => (s1, Ok(PrintModel::Text(super::text::display_of(v)->Some_0))),
            VMData::Float(b) => (s1, Ok(PrintModel::Float(b))),
            VMData::Str(o) | VMData::List(o) | VMData::Object(o) => {
                let (s2, rk) = super::machine::v_get(s1, o);
                match rk {
                    Err(e) => (s2, Err(e)),
                    Ok(k) => match v {
                        VMData::Str(_) => match as_text(k) {
                            Ok(t) => (s2, Ok(PrintModel::Text(t))),
                            Err(e) => (s2, Err(e)),
                        },
                        _ => (s2, Ok(PrintModel::Object(k))),
                    },
                }
            },
            _ => (s1, Err(RuntimeError::TypeMismatchError)),
        },
    }
}

impl Atlas77VM {
    /// A VM for `program`, with a fresh stack, a memory of 256 free slots, no
    /// variables, and the standard libraries that the program imports.
    pub fn new(program: Program) -> (r: Atlas77VM)
        requires
            known_libraries(program.libraries@),
            program.code().len() <= usize::MAX,
        ensures
            r.wf(),
            r.prog() == program,
            r@ == (VmModel {
                stack: StackModel { values: Seq::new(STACK_SIZE as nat, |i: int| VMData::Unit), top: 0 },
                frames: Seq::empty(),
                mem: new_spec(256),
                vars: Seq::empty(),
                pc: 0,
                libs: std_libs(program.libraries@),
            }),
    {
        let mut libs: Vec<StdLibrary> = Vec::new();
        let mut k: usize = 0;
        while k < program.libraries.len()
            invariant
                k <= program.libraries@.len(),
                known_libraries(program.libraries@),
                libs@ == std_libs(program.libraries@.take(k as int)),
            decreases program.libraries@.len() - k,
        {
            let lib = &program.libraries[k];
            proof { assert(program.libraries@.take(k as int + 1).drop_last() =~= program.libraries@.take(k as int)); }
            if lib.is_std {
                let name = library_name(&lib.name);
                match StdLibrary::from_name(&name) {
                    Some(l) => libs.push(l),
                    None => {
                        assert(program.libraries@[k as int].is_std);
                        assert(false);
                    },
                }
            }
            k += 1;
        }
        assert(program.libraries@.take(k as int) =~= program.libraries@);
        Atlas77VM {
            program,
            stack: Stack::new(),
            stack_frame: Vec::new(),
            object_map: Memory::new(256),
            var_map: VarMap::new(),
            libs,
            pc: 0,
        }
    }

    /// Empties the stack, the calls, the memory and the variables, and goes
    /// back to the start of the program.
    pub fn reset(&mut self)
        requires
            old(self).wf(),
        ensures
            final(self).wf(),
            final(self).prog() == old(self).prog(),
            final(self)@ == (VmModel {
                stack: StackModel { top: 0, ..old(self)@.stack },
                frames: Seq::empty(),
                mem: clear_spec(old(self)@.mem),
                vars: Seq::empty(),
                pc: 0,
                libs: old(self)@.libs,
            }),
    {
        self.stack.clear();
        self.stack_frame.clear();
        self.object_map.clear();
        self.var_map.clear();
        self.pc = 0;
    }

    /// Whether the program counter is still within the program.
    pub fn running(&self) -> (r: bool)
        requires
            self.wf(),
        ensures
            r == (self@.pc < self.prog().code().len()),
    {
        self.pc < self.program.len()
    }

    /// Pushes the program's function pointers and goes to its entry point.
    pub fn start(&mut self) -> (r: RuntimeResult<()>)
        requires
            old(self).wf(),
        ensures
            final(self).wf(),
            final(self).prog() == old(self).prog(),
            (final(self)@, r) == start_spec(old(self)@, old(self).prog()),
    {
        let mut fps: Vec<VMData> = Vec::new();
        let pool = &self.program.global.function_pool;
        let mut k: usize = 0;
        while k < pool.len()
            invariant
                k <= pool@.len(),
                fps@ == fn_pointers(pool@.take(k as int)),
            decreases pool@.len() - k,
        {
            fps.push(VMData::FnPtr(pool[k]));
            k += 1;
            assert(fps@ =~= fn_pointers(pool@.take(k as int)));
        }
        assert(pool@.take(k as int) =~= pool@);
        self.stack.extends(fps.as_slice())?;
        match self.label_index(&self.program.entry_point) {
            Some(li) => {
                self.pc = self.program.labels[li].position;
                Ok(())
            },
            None => Err(RuntimeError::EntryPointNotFound(self.program.entry_point.clone())),
        }
    }

    /// Executes the instruction at the program counter.
    pub fn step(&mut self) -> (r: RuntimeResult<Outcome>)
        requires
            old(self).wf(),
            old(self)@.pc < old(self).prog().code().len(),
        ensures
            final(self).wf(),
            final(self).prog() == old(self).prog(),
            (final(self)@, result_view(r)) == step_spec(old(self)@, old(self).prog(), old(self).prog().code()[old(self)@.pc as int]),
    {
        let instr = self.program.instruction(self.pc).copy();
        self.execute_instruction(instr)
    }

    /// Ends a run: the value in the slot at the stack top, which is raised by one.
    pub fn finish(&mut self) -> (r: RuntimeResult<VMData>)
        requires
            old(self).wf(),
            old(self)@.stack.top < usize::MAX,
        ensures
            final(self).wf(),
            final(self).prog() == old(self).prog(),
            final(self)@ == (VmModel { stack: StackModel { top: (old(self)@.stack.top + 1) as usize, ..old(self)@.stack }, ..old(self)@ }),
            old(self)@.stack.top + 1 <= STACK_SIZE ==> r == Ok::<VMData, RuntimeError>(old(self)@.stack.values[old(self)@.stack.top as int]),
            old(self)@.stack.top + 1 > STACK_SIZE ==> r == Err::<VMData, RuntimeError>(RuntimeError::IndexOutOfBounds),
    {
        let t = self.stack.top();
        self.stack.set_top(t + 1);
        self.stack.last()
    }

    /// Completes an instruction with the value that the caller computed for it
    /// (a float, or an integer cast from one).
    pub fn complete_value(&mut self, v: VMData) -> (r: RuntimeResult<()>)
        requires
            old(self).wf(),
            old(self)@.pc < usize::MAX,
        ensures
            final(self).wf(),
            final(self).prog() == old(self).prog(),
            (final(self)@, r) == complete_spec(old(self)@, v),
    {
        self.stack.push(v)?;
        self.pc = self.pc + 1;
        Ok(())
    }

    /// Completes a cast to a string with the text that the caller wrote.
    pub fn complete_string(&mut self, text: String) -> (r: RuntimeResult<()>)
        requires
            old(self).wf(),
            old(self)@.pc < usize::MAX,
        ensures
            final(self).wf(),
            final(self).prog() == old(self).prog(),
            (final(self)@, r) == ({
                let (s1, rr) = v_put(old(self)@, KindModel::String(text@));
                match rr {
                    Err(_) => (s1, Err(RuntimeError::OutOfMemory)),
                    Ok(i) => complete_spec(s1, VMData::Str(i)),
                }
            }),
    {
        proof { lemma_mem_ok_put(self.object_map@, KindModel::String(text@)); }
        let i = match self.object_map.put(ObjectKind::String(text)) {
            Ok(i) => i,
            Err(_) => return Err(RuntimeError::OutOfMemory),
        };
        self.complete_value(VMData::Str(i))
    }

    /// Completes a cast of a string to a float with what the caller parsed:
    /// the float's bits, or nothing where the text spells no float.
    pub fn complete_parsed(&mut self, bits: Option<u64>) -> (r: RuntimeResult<()>)
        requires
            old(self).wf(),
            old(self)@.pc < usize::MAX,
        ensures
            final(self).wf(),
            final(self).prog() == old(self).prog(),
            (final(self)@, r) == match bits {
                Some(b) => complete_spec(old(self)@, VMData::Float(b)),
                None => (old(self)@, Err(RuntimeError::InvalidCast(super::value::TAG_STR, 1))),
            },
    {
        match bits {
            Some(b) => self.complete_value(VMData::Float(b)),
            None => Err(RuntimeError::InvalidCast(super::value::TAG_STR, 1)),
        }
    }

    /// Completes a library call with the value that the caller's run of the
    /// function returned: it is pushed (adding a reference to what it refers
    /// to) and the program goes on.
    pub fn complete_extern(&mut self, v: VMData) -> (r: RuntimeResult<()>)
        requires
            old(self).wf(),
            old(self)@.pc < usize::MAX,
        ensures
            final(self).wf(),
            final(self).prog() == old(self).prog(),
            (final(self)@, r) == ({
                let (s1, rp) = v_push_rc(old(self)@, v);
                match rp {
                    Err(e) => (s1, Err(e)),
                    Ok(_) => (advance(s1), Ok(())),
                }
            }),
    {
        proof {
            if let Some(o) = super::value::object_of(v) {
                lemma_mem_ok_inc(self.object_map@, o);
            }
        }
        self.stack.push_with_rc(v, &mut self.object_map)?;
        self.pc = self.pc + 1;
        Ok(())
    }

    /// Pops an argument of a library function that the caller runs.
    pub fn pop_value(&mut self) -> (r: RuntimeResult<VMData>)
        requires
            old(self).wf(),
        ensures
            final(self).wf(),
            final(self).prog() == old(self).prog(),
            (final(self)@, r) == v_pop(old(self)@),
    {
        self.stack.pop()
    }

    /// Pops a string argument of a library function that the caller runs, and
    /// reads it (dropping a reference).
    pub fn pop_text_arg(&mut self) -> (r: RuntimeResult<String>)
        requires
            old(self).wf(),
        ensures
            final(self).wf(),
            final(self).prog() == old(self).prog(),
            final(self)@.frames == old(self)@.frames,
            final(self)@.vars == old(self)@.vars,
            final(self)@.pc == old(self)@.pc,
            final(self)@.libs == old(self)@.libs,
            pop_text(heap(old(self)@.stack, old(self)@.mem), false)
                == (heap(final(self)@.stack, final(self)@.mem), match r {
                    Ok(t) => Ok::<Seq<char>, RuntimeError>(t@),
                    Err(e) => Err(e),
                }),
    {
        pop_string(&mut self.stack, &mut self.object_map, false)
    }

    /// Pops the value that `print` or `println` prints.
    pub fn pop_print_arg(&mut self) -> (r: RuntimeResult<PrintArg>)
        requires
            old(self).wf(),
        ensures
            final(self).wf(),
            final(self).prog() == old(self).prog(),
            (final(self)@, match r {
                Ok(a) => Ok::<PrintModel, RuntimeError>(a@),
                Err(e) => Err(e),
            }) == print_arg_spec(old(self)@),
    {
        let v = self.stack.pop()?;
        match v {
            VMData::Bool(_) | VMData::U64(_) | VMData::I64(_) => match display(v) {
                Some(t) => Ok(PrintArg::Text(t)),
                None => Err(RuntimeError::TypeMismatchError),
            },
            VMData::Float(b) => Ok(PrintArg::Float(b)),
            VMData::Str(o) | VMData::List(o) | VMData::Object(o) => {
                proof { lemma_mem_ok_dec(self.object_map@, o); }
                let k = self.object_map.get(o)?;
                match v {
                    VMData::Str(_) => match k {
                        ObjectKind::String(t) => Ok(PrintArg::Text(t)),
                        _ => Err(RuntimeError::TypeMismatchError),
                    },
                    _ => Ok(PrintArg::Object(k)),
                }
            },
            _ => Err(RuntimeError::TypeMismatchError),
        }
    }

    /// Stores a string that a library function run by the caller made; any
    /// failure reads as `OutOfMemory`.
    pub fn store_string(&mut self, text: String) -> (r: RuntimeResult<VMData>)
        requires
            old(self).wf(),
        ensures
            final(self).wf(),
            final(self).prog() == old(self).prog(),
            final(self)@.stack == old(self)@.stack,
            final(self)@.frames == old(self)@.frames,
            final(self)@.vars == old(self)@.vars,
            final(self)@.pc == old(self)@.pc,
            final(self)@.libs == old(self)@.libs,
            h_put_string(heap(old(self)@.stack, old(self)@.mem), text@) == (heap(final(self)@.stack, final(self)@.mem), r),
    {
        put_string(&mut self.object_map, text)
    }

    /// Stores a line that `input` read, without its leading and trailing white
    /// space.
    pub fn store_input(&mut self, line: String) -> (r: RuntimeResult<VMData>)
        requires
            old(self).wf(),
        ensures
            final(self).wf(),
            final(self).prog() == old(self).prog(),
            final(self)@.stack == old(self)@.stack,
            final(self)@.frames == old(self)@.frames,
            final(self)@.vars == old(self)@.vars,
            final(self)@.pc == old(self)@.pc,
            final(self)@.libs == old(self)@.libs,
            h_put_string(heap(old(self)@.stack, old(self)@.mem), trim_spec(line@)) == (heap(final(self)@.stack, final(self)@.mem), r),
    {
        let t = trim_text(&line);
        put_string(&mut self.object_map, t)
    }

    /// Stores strings that a library function run by the caller made, then a
    /// list of them.
    pub fn store_strings(&mut self, items: Vec<String>) -> (r: RuntimeResult<VMData>)
        requires
            old(self).wf(),
        ensures
            final(self).wf(),
            final(self).prog() == old(self).prog(),
            final(self)@.stack == old(self)@.stack,
            final(self)@.frames == old(self)@.frames,
            final(self)@.vars == old(self)@.vars,
            final(self)@.pc == old(self)@.pc,
            final(self)@.libs == old(self)@.libs,
            store_strings_spec(heap(old(self)@.stack, old(self)@.mem), texts(items@)) == (heap(final(self)@.stack, final(self)@.mem), r),
    {
        put_string_list(&mut self.object_map, items)
    }

    /// Stores a time: an object of the seconds and nanoseconds since the UNIX
    /// epoch.
    pub fn make_time(&mut self, sec: i64, nsec: i64) -> (r: RuntimeResult<VMData>)
        requires
            old(self).wf(),
        ensures
            final(self).wf(),
            final(self).prog() == old(self).prog(),
            final(self)@.stack == old(self)@.stack,
            final(self)@.frames == old(self)@.frames,
            final(self)@.vars == old(self)@.vars,
            final(self)@.pc == old(self)@.pc,
            final(self)@.libs == old(self)@.libs,
            h_put_object(heap(old(self)@.stack, old(self)@.mem), seq![VMData::I64(sec), VMData::I64(nsec)])
                == (heap(final(self)@.stack, final(self)@.mem), r),
    {
        let fields = vec![VMData::I64(sec), VMData::I64(nsec)];
        assert(fields@ =~= seq![VMData::I64(sec), VMData::I64(nsec)]);
        put_object(&mut self.object_map, fields)
    }
}

} // verus!
