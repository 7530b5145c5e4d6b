//! The interpreter: one instruction at a time over the stack, the object memory
//! and the variables.
//!
//! Where the interpreter cannot go on (a wrong operand, an index out of range,
//! an arithmetic overflow, an unknown name), the instruction stops with an error.
//! Floating-point work and the library functions that do input and output are
//! handed to the caller as requests; it completes them with `complete_value`,
//! `complete_string` or `complete_extern`.
use vstd::prelude::*;
use super::error::{RuntimeError, RuntimeResult};
use super::value::{VMData, ObjectIndex, int_of, bits_of, bool_of, object_of, tag_of};
use super::memory::{MemModel, KindModel, ObjectModel, put_spec, dec_spec, inc_spec, free_spec, in_bounds, slot, with_slot};
use super::stack::{Stack, StackModel, STACK_SIZE, push_spec, pop_spec, push_rc_spec, pop_rc_spec, release_spec};
use super::vars::{VarEntry, insert_spec, find_var, kept, release_vars};
use super::instruction::{Instruction, Program, Type, ConstantClass, Label, type_number};
use super::text::{display_of, parse_integer, parse_boolean, char_of, char_at_byte};
use super::library::{heap, as_text, as_values};
use super::externs::{StdLibrary, ExternFunction, extern_named, library_of, runs_here, extern_spec};

verus! {

/// The state of the VM as plain values.
pub struct VmModel {
    pub stack: StackModel,
    /// The saved program counter and stack top of each call in progress.
    pub frames: Seq<(usize, usize)>,
    pub mem: MemModel,
    pub vars: Seq<VarEntry>,
    pub pc: usize,
    /// The standard libraries that the program imports.
    pub libs: Seq<StdLibrary>,
}

/// The arithmetic that a float instruction asks for.
#[derive(Debug, Clone, Copy, PartialEq, Eq, Structural)]
pub enum FloatArith {
    Add,
    Sub,
    Mul,
    Div,
}

/// Work on floats that the caller does for the VM, operands as IEEE-754 bits.
#[derive(Debug, Clone, PartialEq, Eq)]
pub enum FloatRequest {
    /// `lhs op rhs`, to be completed with the float.
    Arith { op: FloatArith, lhs: u64, rhs: u64 },
    /// The float's text, to be completed with the string.
    ToText(u64),
    /// The float that the text spells, to be completed with the float, or with
    /// nothing where the text spells none.
    FromText(String),
    /// The float cast to `i64`, to be completed with the integer.
    ToInt(u64),
    /// The float cast to `u64`, to be completed with the integer.
    ToUInt(u64),
    /// The integer cast to a float, to be completed with the float.
    FromInt(i64),
    /// The unsigned integer cast to a float, to be completed with the float.
    FromUInt(u64),
}

/// A float request as plain values.
pub enum RequestModel {
    Arith { op: FloatArith, lhs: u64, rhs: u64 },
    ToText(u64),
    FromText(Seq<char>),
    ToInt(u64),
    ToUInt(u64),
    FromInt(i64),
    FromUInt(u64),
}

impl View for FloatRequest {
    type V = RequestModel;

    open spec fn view(&self) -> RequestModel {
        match self {
            FloatRequest::Arith { op, lhs, rhs } => RequestModel::Arith { op: *op, lhs: *lhs, rhs: *rhs },
            FloatRequest::ToText(b) => RequestModel::ToText(*b),
            FloatRequest::FromText(s) => RequestModel::FromText(s@),
            FloatRequest::ToInt(b) => RequestModel::ToInt(*b),
            FloatRequest::ToUInt(b) => RequestModel::ToUInt(*b),
            FloatRequest::FromInt(i) => RequestModel::FromInt(*i),
            FloatRequest::FromUInt(u) => RequestModel::FromUInt(*u),
        }
    }
}

/// What an instruction leaves to do.
#[derive(Debug, Clone, PartialEq, Eq)]
pub enum Outcome {
    /// The instruction is done.
    Continue,
    /// Float work for the caller; the result is pushed by `complete_value`,
    /// `complete_string` or `complete_parsed`.
    Float(FloatRequest),
    /// A library function for the caller to run; its result is pushed by
    /// `complete_extern`.
    Extern { function: ExternFunction, nb_args: u8 },
}

/// An outcome as plain values.
pub enum OutcomeModel {
    Continue,
    Float(RequestModel),
    Extern { function: ExternFunction, nb_args: u8 },
}

impl View for Outcome {
    type V = OutcomeModel;

    open spec fn view(&self) -> OutcomeModel {
        match self {
            Outcome::Continue => OutcomeModel::Continue,
            Outcome::Float(q) => OutcomeModel::Float(q@),
            Outcome::Extern { function, nb_args } => OutcomeModel::Extern { function: *function, nb_args: *nb_args },
        }
    }
}

/// The outcome of an instruction, or its error, as plain values.
pub open spec fn result_view(r: RuntimeResult<Outcome>) -> RuntimeResult<OutcomeModel> {
    match r {
        Ok(o) => Ok(o@),
        Err(e) => Err(e),
    }
}

pub open spec fn with_stack(s: VmModel, st: StackModel) -> VmModel {
    VmModel { stack: st, ..s }
}

pub open spec fn with_mem(s: VmModel, m: MemModel) -> VmModel {
    VmModel { mem: m, ..s }
}

pub open spec fn v_pop(s: VmModel) -> (VmModel, RuntimeResult<VMData>) {
    let (st, r) = pop_spec(s.stack);
    (with_stack(s, st), r)
}

pub open spec fn v_push(s: VmModel, v: VMData) -> (VmModel, RuntimeResult<()>) {
    let (st, r) = push_spec(s.stack, v);
    (with_stack(s, st), r)
}

pub open spec fn v_push_rc(s: VmModel, v: VMData) -> (VmModel, RuntimeResult<()>) {
    let (st, m, r) = push_rc_spec(s.stack, s.mem, v);
    (VmModel { stack: st, mem: m, ..s }, r)
}

pub open spec fn v_pop_rc(s: VmModel) -> (VmModel, RuntimeResult<VMData>) {
    let (st, m, r) = pop_rc_spec(s.stack, s.mem);
    (VmModel { stack: st, mem: m, ..s }, r)
}

pub open spec fn v_put(s: VmModel, k: KindModel) -> (VmModel, RuntimeResult<ObjectIndex>) {
    let (m, r) = put_spec(s.mem, k);
    (with_mem(s, m), r)
}

/// Reading an object: its content, its reference being dropped.
pub open spec fn v_get(s: VmModel, i: ObjectIndex) -> (VmModel, RuntimeResult<KindModel>) {
    if !in_bounds(s.mem, i) {
        (s, Err(RuntimeError::IndexOutOfBounds))
    } else {
        let (m, r) = dec_spec(s.mem, i);
        match r {
            Ok(_) => (with_mem(s, m), Ok(slot(s.mem, i).kind)),
            Err(e) => (with_mem(s, m), Err(e)),
        }
    }
}

pub open spec fn v_dec(s: VmModel, i: ObjectIndex) -> (VmModel, RuntimeResult<()>) {
    let (m, r) = dec_spec(s.mem, i);
    (with_mem(s, m), r)
}

pub open spec fn v_inc(s: VmModel, i: ObjectIndex) -> (VmModel, RuntimeResult<()>) {
    let (m, r) = inc_spec(s.mem, i);
    (with_mem(s, m), r)
}

pub open spec fn advance(s: VmModel) -> VmModel {
    VmModel { pc: (s.pc + 1) as usize, ..s }
}

pub open spec fn done(s: VmModel) -> (VmModel, RuntimeResult<OutcomeModel>) {
    (advance(s), Ok(OutcomeModel::Continue))
}

/// The integer operations.
#[derive(Debug, Clone, Copy, PartialEq, Eq, Structural)]
pub enum IntOp {
    IAdd,
    ISub,
    IMul,
    IMod,
    UIAdd,
    UISub,
    UIMul,
    Eq,
    Neq,
    Gt,
    Gte,
    Lt,
    Lte,
}

pub open spec fn in_i64(v: int) -> bool {
    i64::MIN <= v <= i64::MAX
}

/// The result of `lhs op rhs`, operands read as the operation reads them.
pub open spec fn int_op_spec(op: IntOp, lhs: VMData, rhs: VMData) -> RuntimeResult<VMData> {
    let b = int_of(lhs) as int;
    let a = int_of(rhs) as int;
    let ub = bits_of(lhs) as int;
    let ua = bits_of(rhs) as int;
    match op {
        IntOp::IAdd => if in_i64(b + a) { Ok(VMData::I64((b + a) as i64)) } else { Err(RuntimeError::InvalidOperation) },
        IntOp::ISub => if in_i64(b - a) { Ok(VMData::I64((b - a) as i64)) } else { Err(RuntimeError::InvalidOperation) },
        IntOp::IMul => if in_i64(b * a) { Ok(VMData::I64((b * a) as i64)) } else { Err(RuntimeError::InvalidOperation) },
        IntOp::IMod => if a == 0 {
            Err(RuntimeError::DivisionByZero)
        } else if b == i64::MIN && a == -1 {
            Err(RuntimeError::InvalidOperation)
        } else {
            Ok(VMData::I64(truncated_rem(b, a) as i64))
        },
        IntOp::UIAdd => if ub + ua <= u64::MAX { Ok(VMData::U64((ub + ua) as u64)) } else { Err(RuntimeError::InvalidOperation) },
        IntOp::UISub => if ub - ua >= 0 { Ok(VMData::U64((ub - ua) as u64)) } else { Err(RuntimeError::InvalidOperation) },
        IntOp::UIMul => if ub * ua <= u64::MAX { Ok(VMData::U64((ub * ua) as u64)) } else { Err(RuntimeError::InvalidOperation) },
        IntOp::Eq => Ok(VMData::Bool(b == a)),
        IntOp::Neq => Ok(VMData::Bool(b != a)),
        IntOp::Gt => Ok(VMData::Bool(b > a)),
        IntOp::Gte => Ok(VMData::Bool(b >= a)),
        IntOp::Lt => Ok(VMData::Bool(b < a)),
        IntOp::Lte => Ok(VMData::Bool(b <= a)),
    }
}

/// Rust's `%` on integers: the remainder takes the sign of the dividend.
pub open spec fn truncated_rem(b: int, a: int) -> int {
    let r = abs_int(b) % abs_int(a);
    if b < 0 { -r } else { r }
}

/// Rust's `/` on integers: the quotient rounds toward zero.
pub open spec fn truncated_div(b: int, a: int) -> int {
    let q = abs_int(b) / abs_int(a);
    if (b < 0) != (a < 0) { -q } else { q }
}

pub open spec fn abs_int(x: int) -> int {
    if x < 0 { -x } else { x }
}

/// Pop `a`, pop `b`, push `b op a`.
pub open spec fn int_instr_spec(s: VmModel, op: IntOp) -> (VmModel, RuntimeResult<OutcomeModel>) {
    let (s1, ra) = v_pop(s);
    match ra {
        Err(e) => (s1, Err(e)),
        Ok(a) => {
            let (s2, rb) = v_pop(s1);
            match rb {
                Err(e) => (s2, Err(e)),
                Ok(b) => match int_op_spec(op, b, a) {
                    Err(e) => (s2, Err(e)),
                    Ok(v) => {
                        let (s3, rp) = v_push(s2, v);
                        match rp {
                            Err(e) => (s3, Err(e)),
                            Ok(_) => done(s3),
                        }
                    },
                },
            }
        },
    }
}

/// `IDiv` (signed) or `UIDiv` (unsigned): pop the divisor, fail on a zero of
/// the operation's own type before popping the dividend, then divide.
pub open spec fn div_instr_spec(s: VmModel, signed: bool) -> (VmModel, RuntimeResult<OutcomeModel>) {
    let (s1, ra) = v_pop(s);
    match ra {
        Err(e) => (s1, Err(e)),
        Ok(a) => if (signed && a == VMData::I64(0)) || (!signed && a == VMData::U64(0)) {
            (s1, Err(RuntimeError::DivisionByZero))
        } else {
            let (s2, rb) = v_pop(s1);
            match rb {
                Err(e) => (s2, Err(e)),
                Ok(b) => {
                    let res = if signed {
                        let (x, y) = (int_of(b) as int, int_of(a) as int);
                        if y == 0 {
                            Err(RuntimeError::DivisionByZero)
                        } else if x == i64::MIN && y == -1 {
                            Err(RuntimeError::InvalidOperation)
                        } else {
                            Ok(VMData::I64(truncated_div(x, y) as i64))
                        }
                    } else {
                        if bits_of(a) == 0 {
                            Err(RuntimeError::DivisionByZero)
                        } else {
                            Ok(VMData::U64((bits_of(b) / bits_of(a)) as u64))
                        }
                    };
                    match res {
                        Err(e) => (s2, Err(e)),
                        Ok(v) => {
                            let (s3, rp) = v_push(s2, v);
                            match rp {
                                Err(e) => (s3, Err(e)),
                                Ok(_) => done(s3),
                            }
                        },
                    }
                },
            }
        },
    }
}

/// Whether the bits are those of a float zero (positive or negative).
pub open spec fn is_float_zero(bits: u64) -> bool {
    bits == 0 || bits == 0x8000_0000_0000_0000
}

/// A float instruction: pop `a`, pop `b`, ask for `b op a`; a division fails on
/// a zero float divisor before the dividend is popped.
pub open spec fn float_instr_spec(s: VmModel, op: FloatArith) -> (VmModel, RuntimeResult<OutcomeModel>) {
    let (s1, ra) = v_pop(s);
    match ra {
        Err(e) => (s1, Err(e)),
        Ok(a) => if op == FloatArith::Div && a is Float && is_float_zero(bits_of(a)) {
            (s1, Err(RuntimeError::DivisionByZero))
        } else {
            let (s2, rb) = v_pop(s1);
            match rb {
                Err(e) => (s2, Err(e)),
                Ok(b) => (s2, Ok(OutcomeModel::Float(RequestModel::Arith { op, lhs: bits_of(b), rhs: bits_of(a) }))),
            }
        },
    }
}

/// Pushing a value that the instruction computed.
pub open spec fn push_instr_spec(s: VmModel, v: VMData) -> (VmModel, RuntimeResult<OutcomeModel>) {
    let (s1, r) = v_push(s, v);
    match r {
        Err(e) => (s1, Err(e)),
        Ok(_) => done(s1),
    }
}

/// `VmModel` with its variables and memory replaced.
pub open spec fn with_vars(s: VmModel, vars: Seq<VarEntry>, m: MemModel) -> VmModel {
    VmModel { vars: vars, mem: m, ..s }
}

/// The top value of the stack.
pub open spec fn v_last(s: VmModel) -> RuntimeResult<VMData> {
    if s.stack.top == 0 {
        Err(RuntimeError::StackUnderflow)
    } else if s.stack.top > STACK_SIZE {
        Err(RuntimeError::IndexOutOfBounds)
    } else {
        Ok(s.stack.values[s.stack.top - 1])
    }
}

/// Opening an object for change: its reference is dropped, then its content
/// (as it stands after that) is read.
pub open spec fn v_get_mut(s: VmModel, i: ObjectIndex) -> (VmModel, RuntimeResult<KindModel>) {
    if !in_bounds(s.mem, i) {
        (s, Err(RuntimeError::IndexOutOfBounds))
    } else {
        let (m, r) = dec_spec(s.mem, i);
        match r {
            Ok(_) => (with_mem(s, m), Ok(slot(m, i).kind)),
            Err(e) => (with_mem(s, m), Err(e)),
        }
    }
}

/// Writing `k` into object `i`, its reference count kept.
pub open spec fn v_set(s: VmModel, i: ObjectIndex, k: KindModel) -> VmModel {
    with_mem(s, with_slot(s.mem, i, ObjectModel { kind: k, rc: slot(s.mem, i).rc }))
}

/// Popping a value that refers to an object.
pub open spec fn v_pop_obj(s: VmModel) -> (VmModel, RuntimeResult<ObjectIndex>) {
    let (s1, r) = v_pop(s);
    match r {
        Err(e) => (s1, Err(e)),
        Ok(v) => match object_of(v) {
            Some(o) => (s1, Ok(o)),
            None => (s1, Err(RuntimeError::TypeMismatchError)),
        },
    }
}

/// `DeleteObj`: pop a reference and release its object.
pub open spec fn delete_spec(s: VmModel) -> (VmModel, RuntimeResult<OutcomeModel>) {
    let (s1, r) = v_pop_obj(s);
    match r {
        Err(e) => (s1, Err(e)),
        Ok(o) => {
            let (m, rr) = free_spec(s1.mem, o);
            match rr {
                Err(e) => (with_mem(s1, m), Err(e)),
                Ok(_) => done(with_mem(s1, m)),
            }
        },
    }
}

/// The position of the first class of that name from position `k` on.
pub open spec fn find_class(pool: Seq<ConstantClass>, name: Seq<char>, k: int) -> Option<int>
    decreases pool.len() - k,
{
    if k < 0 || k >= pool.len() {
        None
    } else if pool[k].name@ == name {
        Some(k)
    } else {
        find_class(pool, name, k + 1)
    }
}

/// The position of the first label of that name from position `k` on.
pub open spec fn find_label(labels: Seq<Label>, name: Seq<char>, k: int) -> Option<int>
    decreases labels.len() - k,
{
    if k < 0 || k >= labels.len() {
        None
    } else if labels[k].name@ == name {
        Some(k)
    } else {
        find_label(labels, name, k + 1)
    }
}

/// `n` units.
pub open spec fn units(n: nat) -> Seq<VMData> {
    Seq::new(n, |j: int| VMData::Unit)
}

/// `NewObj`: a new object of the named class, its fields unit.
pub open spec fn new_obj_spec(s: VmModel, p: Program, name: Seq<char>) -> (VmModel, RuntimeResult<OutcomeModel>) {
    match find_class(p.global.class_pool@, name, 0) {
        None => (s, Err(RuntimeError::InvalidOperation)),
        Some(ci) => {
            let n = p.global.class_pool@[ci].fields@.len();
            let (s1, r) = v_put(s, KindModel::Class(units(n)));
            match r {
                Err(e) => (s1, Err(e)),
                Ok(i) => push_instr_spec(s1, VMData::Object(i)),
            }
        },
    }
}

/// `GetField`: pop an object, push its field, adding a reference to what the
/// field refers to.
pub open spec fn get_field_spec(s: VmModel, field: usize) -> (VmModel, RuntimeResult<OutcomeModel>) {
    let (s1, r) = v_pop_obj(s);
    match r {
        Err(e) => (s1, Err(e)),
        Ok(o) => {
            let (s2, rk) = v_get(s1, o);
            match rk {
                Err(e) => (s2, Err(e)),
                Ok(KindModel::Class(fs)) => if field < fs.len() {
                    let (s3, rp) = v_push_rc(s2, fs[field as int]);
                    match rp {
                        Err(e) => (s3, Err(e)),
                        Ok(_) => done(s3),
                    }
                } else {
                    (s2, Err(RuntimeError::IndexOutOfBounds))
                },
                Ok(_) => (s2, Err(RuntimeError::TypeMismatchError)),
            }
        },
    }
}

/// `SetField`: pop a value (adding a reference to what it refers to), pop an
/// object, write the value into its field.
pub open spec fn set_field_spec(s: VmModel, field: usize) -> (VmModel, RuntimeResult<OutcomeModel>) {
    let (s1, rv) = v_pop(s);
    match rv {
        Err(e) => (s1, Err(e)),
        Ok(val) => {
            let (s2, ri) = match object_of(val) {
                Some(o1) => v_inc(s1, o1),
                None => (s1, Ok(())),
            };
            match ri {
                Err(e) => (s2, Err(e)),
                Ok(_) => {
                    let (s3, ro) = v_pop_obj(s2);
                    match ro {
                        Err(e) => (s3, Err(e)),
                        Ok(o) => {
                            let (s4, rk) = v_get_mut(s3, o);
                            match rk {
                                Err(e) => (s4, Err(e)),
                                Ok(KindModel::Class(fs)) => if field < fs.len() {
                                    done(v_set(s4, o, KindModel::Class(fs.update(field as int, val))))
                                } else {
                                    (s4, Err(RuntimeError::IndexOutOfBounds))
                                },
                                Ok(_) => (s4, Err(RuntimeError::TypeMismatchError)),
                            }
                        },
                    }
                },
            }
        },
    }
}

/// `PushStr`: a new string, a copy of the constant of that index.
pub open spec fn push_str_spec(s: VmModel, p: Program, u: usize) -> (VmModel, RuntimeResult<OutcomeModel>) {
    if u >= p.global.string_pool@.len() {
        (s, Err(RuntimeError::IndexOutOfBounds))
    } else {
        let (s1, r) = v_put(s, KindModel::String(p.global.string_pool@[u as int]@));
        match r {
            Err(_) => (s1, Err(RuntimeError::OutOfMemory)),
            Ok(i) => push_instr_spec(s1, VMData::Str(i)),
        }
    }
}

/// The number of values of a `usize`.
pub open spec fn usize_range() -> int {
    usize::MAX as int + 1
}

/// A relative jump to `target`: the program counter becomes `target` modulo
/// the `usize` range, as the position arithmetic wraps. A target before the
/// start thus lies far past the end of any program, and the run ends there.
pub open spec fn jump_to(s: VmModel, target: int) -> (VmModel, RuntimeResult<OutcomeModel>) {
    (VmModel { pc: (target % usize_range()) as usize, ..s }, Ok(OutcomeModel::Continue))
}

/// `JmpZ`: pop a condition; when false, jump `pos + 1` ahead.
pub open spec fn jmpz_spec(s: VmModel, pos: isize) -> (VmModel, RuntimeResult<OutcomeModel>) {
    let (s1, r) = v_pop(s);
    match r {
        Err(e) => (s1, Err(e)),
        Ok(c) => if !bool_of(c) { jump_to(s1, s.pc + pos + 1) } else { done(s1) },
    }
}

/// What a cast gives: a value, float work for the caller, or no value.
pub enum CastModel {
    Value(VMData),
    Request(RequestModel),
    Fail,
}

/// A cast of the text of a string.
pub open spec fn text_cast_spec(txt: Seq<char>, t: Type) -> CastModel {
    match t {
        Type::Char => if txt.len() == 1 && (txt[0] as u32) < 128 {
            CastModel::Value(VMData::Char(txt[0]))
        } else {
            CastModel::Fail
        },
        Type::Boolean => match parse_boolean(txt) {
            Some(b) => CastModel::Value(VMData::Bool(b)),
            None => CastModel::Fail,
        },
        Type::Float => CastModel::Request(RequestModel::FromText(txt)),
        Type::Integer => match parse_integer(txt, i64::MIN as int, i64::MAX as int) {
            Some(v) => CastModel::Value(VMData::I64(v as i64)),
            None => CastModel::Fail,
        },
        Type::UnsignedInteger => match parse_integer(txt, 0, u64::MAX as int) {
            Some(v) => CastModel::Value(VMData::U64(v as u64)),
            None => CastModel::Fail,
        },
        Type::String => CastModel::Fail,
    }
}

/// The bits of the float `1.0`.
pub open spec fn one_bits() -> u64 {
    0x3FF0_0000_0000_0000
}

/// A cast of a value that is not a string.
pub open spec fn value_cast_spec(v: VMData, t: Type) -> CastModel {
    match t {
        Type::Char => match char_of(v) {
            Some(c) => CastModel::Value(VMData::Char(c)),
            None => CastModel::Fail,
        },
        Type::Boolean => CastModel::Value(VMData::Bool(bool_of(v))),
        Type::Float => match v {
            VMData::U64(u) => CastModel::Request(RequestModel::FromUInt(u)),
            VMData::I64(i) => CastModel::Request(RequestModel::FromInt(i)),
            VMData::Bool(b) => CastModel::Value(VMData::Float(if b { one_bits() } else { 0 })),
            VMData::Char(c) => CastModel::Request(RequestModel::FromInt(c as i64)),
            _ => CastModel::Fail,
        },
        Type::Integer => match v {
            VMData::U64(u) => CastModel::Value(VMData::I64(u as i64)),
            VMData::Float(b) => CastModel::Request(RequestModel::ToInt(b)),
            VMData::Bool(b) => CastModel::Value(VMData::I64(if b { 1 } else { 0 })),
            VMData::Char(c) => CastModel::Value(VMData::I64(c as i64)),
            _ => CastModel::Fail,
        },
        Type::UnsignedInteger => match v {
            VMData::I64(i) => CastModel::Value(VMData::U64(i as u64)),
            VMData::Float(b) => CastModel::Request(RequestModel::ToUInt(b)),
            VMData::Bool(b) => CastModel::Value(VMData::U64(if b { 1 } else { 0 })),
            VMData::Char(c) => CastModel::Value(VMData::U64(c as u64)),
            _ => CastModel::Fail,
        },
        Type::String => CastModel::Fail,
    }
}

/// Ending a cast: push the value, hand the float work over, or fail.
pub open spec fn cast_finish(s: VmModel, c: CastModel, tag: u8, t: Type) -> (VmModel, RuntimeResult<OutcomeModel>) {
    match c {
        CastModel::Value(v) => push_instr_spec(s, v),
        CastModel::Request(q) => (s, Ok(OutcomeModel::Float(q))),
        CastModel::Fail => (s, Err(RuntimeError::InvalidCast(tag, type_number(t)))),
    }
}

/// `CastTo`: pop a value (dropping its reference) and convert it.
pub open spec fn cast_spec(s: VmModel, t: Type) -> (VmModel, RuntimeResult<OutcomeModel>) {
    let (s1, r) = v_pop_rc(s);
    match r {
        Err(e) => (s1, Err(e)),
        Ok(val) => if t == Type::String {
            match display_of(val) {
                Some(txt) => {
                    let (s2, rr) = v_put(s1, KindModel::String(txt));
                    match rr {
                        Err(_) => (s2, Err(RuntimeError::OutOfMemory)),
                        Ok(i) => push_instr_spec(s2, VMData::Str(i)),
                    }
                },
                None => (s1, Ok(OutcomeModel::Float(RequestModel::ToText(bits_of(val))))),
            }
        } else {
            match val {
                VMData::Str(o) => {
                    let (s2, rk) = v_get(s1, o);
                    match rk {
                        Err(e) => (s2, Err(e)),
                        Ok(k) => match as_text(k) {
                            Err(e) => (s2, Err(e)),
                            Ok(txt) => cast_finish(s2, text_cast_spec(txt, t), tag_of(val), t),
                        },
                    }
                },
                _ => cast_finish(s1, value_cast_spec(val, t), tag_of(val), t),
            }
        },
    }
}

/// `Store`: pop a value and bind the variable to it in the current scope.
pub open spec fn store_spec(s: VmModel, name: Seq<char>) -> (VmModel, RuntimeResult<OutcomeModel>) {
    let (s1, r) = v_pop(s);
    match r {
        Err(e) => (s1, Err(e)),
        Ok(v) => {
            let (vars, m, rr) = insert_spec(s1.vars, s1.mem, s1.frames.len() as usize, name, v);
            match rr {
                Err(e) => (with_vars(s1, vars, m), Err(e)),
                Ok(_) => done(with_vars(s1, vars, m)),
            }
        },
    }
}

/// `Load`: push the value of the variable of the current scope, adding a
/// reference to what it refers to; an unbound variable is a `NullReference`.
pub open spec fn load_spec(s: VmModel, name: Seq<char>) -> (VmModel, RuntimeResult<OutcomeModel>) {
    match find_var(s.vars, s.frames.len() as usize, name) {
        None => (s, Err(RuntimeError::NullReference)),
        Some(i) => {
            let (s1, r) = v_push_rc(s, s.vars[i].2);
            match r {
                Err(e) => (s1, Err(e)),
                Ok(_) => done(s1),
            }
        },
    }
}

/// `Pop`: pop a value, dropping its reference.
pub open spec fn pop_instr_spec(s: VmModel) -> (VmModel, RuntimeResult<OutcomeModel>) {
    let (s1, r) = v_pop_rc(s);
    match r {
        Err(e) => (s1, Err(e)),
        Ok(_) => done(s1),
    }
}

/// `Swap`: exchange the two top values.
pub open spec fn swap_spec(s: VmModel) -> (VmModel, RuntimeResult<OutcomeModel>) {
    let (s1, ra) = v_pop(s);
    match ra {
        Err(e) => (s1, Err(e)),
        Ok(a) => {
            let (s2, rb) = v_pop(s1);
            match rb {
                Err(e) => (s2, Err(e)),
                Ok(b) => {
                    let (s3, r3) = v_push(s2, a);
                    match r3 {
                        Err(e) => (s3, Err(e)),
                        Ok(_) => push_instr_spec(s3, b),
                    }
                },
            }
        },
    }
}

/// `Dup`: push the top value again, adding a reference to what it refers to.
pub open spec fn dup_spec(s: VmModel) -> (VmModel, RuntimeResult<OutcomeModel>) {
    match v_last(s) {
        Err(e) => (s, Err(e)),
        Ok(v) => {
            let (s1, r) = v_push_rc(s, v);
            match r {
                Err(e) => (s1, Err(e)),
                Ok(_) => done(s1),
            }
        },
    }
}

/// `StringLoad`: pop an index, pop a string, push its character at that index.
pub open spec fn string_load_spec(s: VmModel) -> (VmModel, RuntimeResult<OutcomeModel>) {
    let (s1, ri) = v_pop(s);
    match ri {
        Err(e) => (s1, Err(e)),
        Ok(iv) => {
            let (s2, ro) = v_pop_obj(s1);
            match ro {
                Err(e) => (s2, Err(e)),
                Ok(o) => {
                    let (s3, rk) = v_get(s2, o);
                    match rk {
                        Err(e) => (s3, Err(e)),
                        Ok(k) => match as_text(k) {
                            Err(e) => (s3, Err(e)),
                            Ok(txt) => if bits_of(iv) < txt.len() {
                                push_instr_spec(s3, VMData::Char(txt[bits_of(iv) as int]))
                            } else {
                                (s3, Err(RuntimeError::IndexOutOfBounds))
                            },
                        },
                    }
                },
            }
        },
    }
}

/// `ListLoad`: pop an index, pop a list, push its item at that index, adding a
/// reference to what the item refers to.
pub open spec fn list_load_spec(s: VmModel) -> (VmModel, RuntimeResult<OutcomeModel>) {
    let (s1, ri) = v_pop(s);
    match ri {
        Err(e) => (s1, Err(e)),
        Ok(iv) => {
            let (s2, ro) = v_pop_obj(s1);
            match ro {
                Err(e) => (s2, Err(e)),
                Ok(o) => {
                    let (s3, rk) = v_get(s2, o);
                    match rk {
                        Err(e) => (s3, Err(e)),
                        Ok(k) => match as_values(k) {
                            Err(e) => (s3, Err(e)),
                            Ok(l) => if bits_of(iv) < l.len() {
                                let (s4, rp) = v_push_rc(s3, l[bits_of(iv) as int]);
                                match rp {
                                    Err(e) => (s4, Err(e)),
                                    Ok(_) => done(s4),
                                }
                            } else {
                                (s3, Err(RuntimeError::IndexOutOfBounds))
                            },
                        },
                    }
                },
            }
        },
    }
}

/// `StringStore`: pop a character, a byte offset and a string; the character
/// that starts at that offset is replaced.
pub open spec fn string_store_spec(s: VmModel) -> (VmModel, RuntimeResult<OutcomeModel>) {
    let (s1, rv) = v_pop(s);
    match rv {
        Err(e) => (s1, Err(e)),
        Ok(cv) => match char_of(cv) {
            None => (s1, Err(RuntimeError::TypeMismatchError)),
            Some(c) => {
                let (s2, ri) = v_pop(s1);
                match ri {
                    Err(e) => (s2, Err(e)),
                    Ok(iv) => {
                        let (s3, rp) = v_pop(s2);
                        match rp {
                            Err(e) => (s3, Err(e)),
                            Ok(pv) => match object_of(pv) {
                                None => (s3, Err(RuntimeError::TypeMismatchError)),
                                Some(o) => {
                                    let (s4, rk) = v_get_mut(s3, o);
                                    match rk {
                                        Err(e) => (s4, Err(e)),
                                        Ok(KindModel::String(txt)) => match char_at_byte(txt, bits_of(iv) as nat) {
                                            Some(j) => done(v_set(s4, o, KindModel::String(txt.update(j, c)))),
                                            None => (s4, Err(RuntimeError::IndexOutOfBounds)),
                                        },
                                        Ok(_) => (s4, Err(RuntimeError::TypeMismatchError)),
                                    }
                                },
                            },
                        }
                    },
                }
            },
        },
    }
}

/// `ListStore`: pop a value, a list and an index; the item at that index
/// becomes the value.
pub open spec fn list_store_spec(s: VmModel) -> (VmModel, RuntimeResult<OutcomeModel>) {
    let (s1, rv) = v_pop(s);
    match rv {
        Err(e) => (s1, Err(e)),
        Ok(val) => {
            let (s2, rp) = v_pop(s1);
            match rp {
                Err(e) => (s2, Err(e)),
                Ok(pv) => {
                    let (s3, ri) = v_pop(s2);
                    match ri {
                        Err(e) => (s3, Err(e)),
                        Ok(iv) => match object_of(pv) {
                            None => (s3, Err(RuntimeError::TypeMismatchError)),
                            Some(o) => {
                                let (s4, rk) = v_get_mut(s3, o);
                                match rk {
                                    Err(e) => (s4, Err(e)),
                                    Ok(KindModel::List(l)) => if bits_of(iv) < l.len() {
                                        done(v_set(s4, o, KindModel::List(l.update(bits_of(iv) as int, val))))
                                    } else {
                                        (s4, Err(RuntimeError::IndexOutOfBounds))
                                    },
                                    Ok(_) => (s4, Err(RuntimeError::TypeMismatchError)),
                                }
                            },
                        },
                    }
                },
            }
        },
    }
}

/// The number of bytes of a value of the VM, by which a list's allocation is
/// bounded.
pub open spec fn value_size() -> int {
    16
}

/// `NewList`: pop a size, push a new list of that many units; a size whose
/// allocation exceeds `isize::MAX` bytes is `OutOfMemory`.
pub open spec fn new_list_spec(s: VmModel) -> (VmModel, RuntimeResult<OutcomeModel>) {
    let (s1, r) = v_pop(s);
    match r {
        Err(e) => (s1, Err(e)),
        Ok(sz) => if bits_of(sz) * value_size() > isize::MAX {
            (s1, Err(RuntimeError::OutOfMemory))
        } else {
            let (s2, rr) = v_put(s1, KindModel::List(units(bits_of(sz) as nat)));
            match rr {
                Err(e) => (s2, Err(e)),
                Ok(i) => push_instr_spec(s2, VMData::List(i)),
            }
        },
    }
}

/// `ExternCall`: a function of an imported library. Those that compute over the
/// stack and the memory run here and their result is pushed (adding a
/// reference to what it refers to); the others are handed to the caller.
pub open spec fn extern_call_spec(s: VmModel, name: Seq<char>, nb_args: u8) -> (VmModel, RuntimeResult<OutcomeModel>) {
    match extern_named(name) {
        Some(f) => if s.libs.contains(library_of(f)) {
            if runs_here(f) {
                let (h, r) = extern_spec(heap(s.stack, s.mem), f);
                let s1 = VmModel { stack: h.stack, mem: h.mem, ..s };
                match r {
                    Err(e) => (s1, Err(e)),
                    Ok(v) => {
                        let (s2, rp) = v_push_rc(s1, v);
                        match rp {
                            Err(e) => (s2, Err(e)),
                            Ok(_) => done(s2),
                        }
                    },
                }
            } else {
                (s, Ok(OutcomeModel::Extern { function: f, nb_args }))
            }
        } else {
            (s, Err(RuntimeError::InvalidOperation))
        },
        None => (s, Err(RuntimeError::InvalidOperation)),
    }
}

/// Entering a call: the current position and the stack top less the arguments
/// are saved, and the program goes on at `target`.
pub open spec fn call_to(s: VmModel, target: usize, nb_args: u8) -> (VmModel, RuntimeResult<OutcomeModel>) {
    if nb_args > s.stack.top {
        (s, Err(RuntimeError::StackUnderflow))
    } else {
        (VmModel {
            frames: s.frames.push((s.pc, (s.stack.top - nb_args) as usize)),
            pc: target,
            ..s
        }, Ok(OutcomeModel::Continue))
    }
}

/// `DirectCall`: a call of the function whose pointer is in stack slot `pos`.
pub open spec fn direct_call_spec(s: VmModel, pos: usize, args: u8) -> (VmModel, RuntimeResult<OutcomeModel>) {
    if pos >= STACK_SIZE {
        (s, Err(RuntimeError::IndexOutOfBounds))
    } else {
        call_to(s, bits_of(s.stack.values[pos as int]) as usize, args)
    }
}

/// `FunctionCall`, `StaticCall`, `MethodCall`: a call of the named function.
pub open spec fn named_call_spec(s: VmModel, p: Program, name: Seq<char>, nb_args: u8) -> (VmModel, RuntimeResult<OutcomeModel>) {
    match find_label(p.labels@, name, 0) {
        None => (s, Err(RuntimeError::InvalidOperation)),
        Some(li) => call_to(s, p.labels@[li].position, nb_args),
    }
}

/// The references that `Return` adds to the value it returns: two to a string
/// or a list, one to an object.
pub open spec fn return_incs(s: VmModel, ret: VMData) -> (VmModel, RuntimeResult<()>) {
    match ret {
        VMData::Str(o) | VMData::List(o) => {
            let (s1, r1) = v_inc(s, o);
            match r1 {
                Err(e) => (s1, Err(e)),
                Ok(_) => v_inc(s1, o),
            }
        },
        VMData::Object(o) => v_inc(s, o),
        _ => (s, Ok(())),
    }
}

/// `Return`: leave the current call. The top value is kept; the stack is cut
/// back to the saved top (dropping the references it held), the variables of
/// the call are removed (dropping theirs), the program goes on after the call,
/// and the value is pushed.
pub open spec fn return_spec(s: VmModel) -> (VmModel, RuntimeResult<OutcomeModel>) {
    if s.frames.len() == 0 {
        (s, Err(RuntimeError::InvalidOperation))
    } else {
        let (pc0, sp) = s.frames.last();
        let s1 = VmModel { frames: s.frames.drop_last(), ..s };
        match v_last(s1) {
            Err(e) => (s1, Err(e)),
            Ok(ret) => {
                let (s2, r2) = return_incs(s1, ret);
                match r2 {
                    Err(e) => (s2, Err(e)),
                    Ok(_) => {
                        let (m3, r3) = release_spec(s2.stack.values, s2.mem, sp as int, s2.stack.top as int);
                        let s3 = VmModel {
                            mem: m3,
                            stack: StackModel { top: if r3 is Ok { sp } else { s2.stack.top }, ..s2.stack },
                            ..s2
                        };
                        match r3 {
                            Err(e) => (s3, Err(e)),
                            Ok(_) => {
                                let scope = (s3.frames.len() + 1) as usize;
                                let (m4, r4) = release_vars(s3.vars, s3.mem, scope, 0);
                                let s4 = with_vars(s3, if r4 is Ok { kept(s3.vars, scope) } else { s3.vars }, m4);
                                match r4 {
                                    Err(e) => (s4, Err(e)),
                                    Ok(_) => if pc0 == usize::MAX {
                                        (s4, Err(RuntimeError::InvalidOperation))
                                    } else {
                                        let (s5, r5) = v_push(VmModel { pc: (pc0 + 1) as usize, ..s4 }, ret);
                                        match r5 {
                                            Err(e) => (s5, Err(e)),
                                            Ok(_) => (s5, Ok(OutcomeModel::Continue)),
                                        }
                                    },
                                }
                            },
                        }
                    },
                }
            },
        }
    }
}

/// What one instruction does to the state of the VM running program `p`.
pub open spec fn step_spec(s: VmModel, p: Program, instr: Instruction) -> (VmModel, RuntimeResult<OutcomeModel>) {
    match instr {
        Instruction::DeleteObj => delete_spec(s),
        Instruction::NewObj { class_name } => new_obj_spec(s, p, class_name@),
        Instruction::GetField { field } => get_field_spec(s, field),
        Instruction::SetField { field } => set_field_spec(s, field),
        Instruction::PushInt(i) => push_instr_spec(s, VMData::I64(i)),
        Instruction::PushFloat(f) => push_instr_spec(s, VMData::Float(f)),
        Instruction::PushUnsignedInt(u) => push_instr_spec(s, VMData::U64(u)),
        Instruction::PushChar(c) => push_instr_spec(s, VMData::Char(c)),
        Instruction::PushUnit => push_instr_spec(s, VMData::Unit),
        Instruction::PushBool(b) => push_instr_spec(s, VMData::Bool(b)),
        Instruction::PushStr(u) => push_str_spec(s, p, u),
        Instruction::Lt => int_instr_spec(s, IntOp::Lt),
        Instruction::Lte => int_instr_spec(s, IntOp::Lte),
        Instruction::Gt => int_instr_spec(s, IntOp::Gt),
        Instruction::Gte => int_instr_spec(s, IntOp::Gte),
        Instruction::Eq => int_instr_spec(s, IntOp::Eq),
        Instruction::Neq => int_instr_spec(s, IntOp::Neq),
        Instruction::JmpZ { pos } => jmpz_spec(s, pos),
        Instruction::CastTo(t) => cast_spec(s, t),
        Instruction::Jmp { pos } => jump_to(s, s.pc + pos),
        Instruction::Store { var_name } => store_spec(s, var_name@),
        Instruction::Load { var_name } => load_spec(s, var_name@),
        Instruction::Pop => pop_instr_spec(s),
        Instruction::Swap => swap_spec(s),
        Instruction::Dup => dup_spec(s),
        Instruction::IMul => int_instr_spec(s, IntOp::IMul),
        Instruction::UIMul => int_instr_spec(s, IntOp::UIMul),
        Instruction::IAdd => int_instr_spec(s, IntOp::IAdd),
        Instruction::UIAdd => int_instr_spec(s, IntOp::UIAdd),
        Instruction::ISub => int_instr_spec(s, IntOp::ISub),
        Instruction::UISub => int_instr_spec(s, IntOp::UISub),
        Instruction::IMod => int_instr_spec(s, IntOp::IMod),
        Instruction::IDiv => div_instr_spec(s, true),
        Instruction::UIDiv => div_instr_spec(s, false),
        Instruction::FAdd => float_instr_spec(s, FloatArith::Add),
        Instruction::FSub => float_instr_spec(s, FloatArith::Sub),
        Instruction::FMul => float_instr_spec(s, FloatArith::Mul),
        Instruction::FDiv => float_instr_spec(s, FloatArith::Div),
        Instruction::StringLoad => string_load_spec(s),
        Instruction::ListLoad => list_load_spec(s),
        Instruction::StringStore => string_store_spec(s),
        Instruction::ListStore => list_store_spec(s),
        Instruction::NewList => new_list_spec(s),
        Instruction::ExternCall { function_name, nb_args } => extern_call_spec(s, function_name@, nb_args),
        Instruction::DirectCall { pos, args } => direct_call_spec(s, pos, args),
        Instruction::FunctionCall { function_name, nb_args } => named_call_spec(s, p, function_name@, nb_args),
        Instruction::StaticCall { method_name, nb_args } => named_call_spec(s, p, method_name@, nb_args),
        Instruction::MethodCall { method_name, nb_args } => named_call_spec(s, p, method_name@, nb_args),
        Instruction::Return => return_spec(s),
        Instruction::Halt => (VmModel { pc: p.code().len() as usize, ..s }, Ok(OutcomeModel::Continue)),
        _ => (s, Err(RuntimeError::InvalidOperation)),
    }
}


/// Whether a step popped the two top values of `s` and pushed `Bool(x)` in
/// their place, the program going on with the next instruction.
pub open spec fn pushed_bool(r: (VmModel, RuntimeResult<OutcomeModel>), s: VmModel, x: bool) -> bool {
    &&& r.1 == Ok::<OutcomeModel, RuntimeError>(OutcomeModel::Continue)
    &&& r.0.stack.top == s.stack.top - 1
    &&& r.0.stack.values[s.stack.top - 2] == VMData::Bool(x)
    &&& r.0.pc == s.pc + 1
}

/// What the comparison instructions compute: with `I64(b)` below `I64(a)` on
/// top of the stack, `Eq`, `Neq`, `Gt`, `Gte`, `Lt` and `Lte` each replace the
/// two by whether `b == a`, `b != a`, `b > a`, `b >= a`, `b < a` and `b <= a`.
pub proof fn law_comparison_instructions(s: VmModel, p: Program, b: i64, a: i64)
    requires
        s.stack.values.len() == STACK_SIZE,
        2 <= s.stack.top <= STACK_SIZE,
        s.stack.values[s.stack.top - 1] == VMData::I64(a),
        s.stack.values[s.stack.top - 2] == VMData::I64(b),
        s.pc < usize::MAX,
    ensures
        pushed_bool(step_spec(s, p, Instruction::Eq), s, b == a),
        pushed_bool(step_spec(s, p, Instruction::Neq), s, b != a),
        pushed_bool(step_spec(s, p, Instruction::Gt), s, b > a),
        pushed_bool(step_spec(s, p, Instruction::Gte), s, b >= a),
        pushed_bool(step_spec(s, p, Instruction::Lt), s, b < a),
        pushed_bool(step_spec(s, p, Instruction::Lte), s, b <= a),
{
}

/// The comparisons agree with one another on any two integers: `Gte` holds
/// where `Gt` or `Eq` does, `Lte` where `Lt` or `Eq` does, `Lt` is `Gt` with
/// the operands swapped, and `Neq` is the negation of `Eq`.
pub proof fn law_comparisons_agree(b: VMData, a: VMData)
    requires
        b is I64,
        a is I64,
    ensures
        int_op_spec(IntOp::Gte, b, a) == Ok::<VMData, RuntimeError>(VMData::Bool(
            int_op_spec(IntOp::Gt, b, a) == Ok::<VMData, RuntimeError>(VMData::Bool(true))
            || int_op_spec(IntOp::Eq, b, a) == Ok::<VMData, RuntimeError>(VMData::Bool(true)))),
        int_op_spec(IntOp::Lte, b, a) == Ok::<VMData, RuntimeError>(VMData::Bool(
            int_op_spec(IntOp::Lt, b, a) == Ok::<VMData, RuntimeError>(VMData::Bool(true))
            || int_op_spec(IntOp::Eq, b, a) == Ok::<VMData, RuntimeError>(VMData::Bool(true)))),
        int_op_spec(IntOp::Lt, b, a) == int_op_spec(IntOp::Gt, a, b),
        int_op_spec(IntOp::Gte, b, b) == Ok::<VMData, RuntimeError>(VMData::Bool(true)),
        int_op_spec(IntOp::Neq, b, a) == Ok::<VMData, RuntimeError>(VMData::Bool(
            int_op_spec(IntOp::Eq, b, a) != Ok::<VMData, RuntimeError>(VMData::Bool(true)))),
{
}

/// A variable reads back as it was stored: after `Store name` pops a value,
/// `Load name` in the same call finds that value and pushes it.
pub proof fn law_store_then_load(s: VmModel, name: Seq<char>)
    requires
        store_spec(s, name).1 is Ok,
    ensures
        ({
            let s1 = store_spec(s, name).0;
            let v = pop_spec(s.stack).1->Ok_0;
            &&& find_var(s1.vars, s1.frames.len() as usize, name) matches Some(j) && s1.vars[j].2 == v
            &&& load_spec(s1, name) == ({
                let (s2, r) = v_push_rc(s1, v);
                match r {
                    Err(e) => (s2, Err::<OutcomeModel, RuntimeError>(e)),
                    Ok(_) => done(s2),
                }
            })
        }),
{
    let (s0, r) = v_pop(s);
    let v = r->Ok_0;
    super::vars::law_insert_then_find(s0.vars, s0.mem, s0.frames.len() as usize, name, v);
}

/// `Halt` ends the run: the program counter goes past the last instruction.
pub proof fn law_halt_stops(s: VmModel, p: Program)
    requires
        p.code().len() <= usize::MAX,
    ensures
        step_spec(s, p, Instruction::Halt).1 == Ok::<OutcomeModel, RuntimeError>(OutcomeModel::Continue),
        !(step_spec(s, p, Instruction::Halt).0.pc < p.code().len()),
{
}

/// Rust's `%` on `i64`.
fn rem_i64(b: i64, a: i64) -> (r: i64)
    requires
        a != 0,
        !(b == i64::MIN && a == -1),
    ensures
        r == truncated_rem(b as int, a as int),
{
    let ub: u64 = if b < 0 { if b == i64::MIN { 9223372036854775808u64 } else { (-b) as u64 } } else { b as u64 };
    let ua: u64 = if a < 0 { if a == i64::MIN { 9223372036854775808u64 } else { (-a) as u64 } } else { a as u64 };
    let m = ub % ua;
    assert(m < ua);
    assert(m <= ub) by (nonlinear_arith)
        requires m == ub % ua, ua > 0;
    if b < 0 { -(m as i128) as i64 } else { m as i64 }
}

/// `lhs op rhs`, operands read as the operation reads them.
pub fn int_op(op: IntOp, lhs: VMData, rhs: VMData) -> (r: RuntimeResult<VMData>)
    ensures
        r == int_op_spec(op, lhs, rhs),
{
    let b = lhs.as_i64() as i128;
    let a = rhs.as_i64() as i128;
    let ub = lhs.as_u64() as i128;
    let ua = rhs.as_u64() as i128;
    match op {
        IntOp::IAdd => if i64::MIN as i128 <= b + a && b + a <= i64::MAX as i128 {
            Ok(VMData::I64((b + a) as i64))
        } else {
            Err(RuntimeError::InvalidOperation)
        },
        IntOp::ISub => if i64::MIN as i128 <= b - a && b - a <= i64::MAX as i128 {
            Ok(VMData::I64((b - a) as i64))
        } else {
            Err(RuntimeError::InvalidOperation)
        },
        IntOp::IMul => {
            let bb = lhs.as_i64();
            let aa = rhs.as_i64();
            match bb.checked_mul(aa) {
                Some(p) => Ok(VMData::I64(p)),
                None => Err(RuntimeError::InvalidOperation),
            }
        },
        IntOp::IMod => {
            let bb = lhs.as_i64();
            let aa = rhs.as_i64();
            if aa == 0 {
                Err(RuntimeError::DivisionByZero)
            } else if bb == i64::MIN && aa == -1 {
                Err(RuntimeError::InvalidOperation)
            } else {
                Ok(VMData::I64(rem_i64(bb, aa)))
            }
        },
        IntOp::UIAdd => if ub + ua <= u64::MAX as i128 {
            Ok(VMData::U64((ub + ua) as u64))
        } else {
            Err(RuntimeError::InvalidOperation)
        },
        IntOp::UISub => if ub - ua >= 0 {
            Ok(VMData::U64((ub - ua) as u64))
        } else {
            Err(RuntimeError::InvalidOperation)
        },
        IntOp::UIMul => {
            let bb = lhs.as_u64();
            let aa = rhs.as_u64();
            match bb.checked_mul(aa) {
                Some(p) => Ok(VMData::U64(p)),
                None => Err(RuntimeError::InvalidOperation),
            }
        },
        IntOp::Eq => Ok(VMData::Bool(b == a)),
        IntOp::Neq => Ok(VMData::Bool(b != a)),
        IntOp::Gt => Ok(VMData::Bool(b > a)),
        IntOp::Gte => Ok(VMData::Bool(b >= a)),
        IntOp::Lt => Ok(VMData::Bool(b < a)),
        IntOp::Lte => Ok(VMData::Bool(b <= a)),
    }
}

} // verus!
