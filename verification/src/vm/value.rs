use vstd::prelude::*;

verus! {

/// Index of an object in the VM's object memory.
#[derive(Clone, Copy, Default, Debug, PartialEq, Eq, Structural, PartialOrd, Ord, Hash)]
pub struct ObjectIndex {
    pub idx: u64,
}

impl ObjectIndex {
    /// The index `i`.
    pub fn new(i: u64) -> (r: ObjectIndex)
        ensures
            r.idx == i,
    {
        ObjectIndex { idx: i }
    }
}

/// A value of the VM: a tag and its payload.
///
/// A float is carried as the bits of its IEEE-754 binary64 encoding.
#[derive(Clone, Copy, Debug, PartialEq, Eq, Structural)]
pub enum VMData {
    Unit,
    Null,
    U64(u64),
    I64(i64),
    Float(u64),
    Bool(bool),
    Char(char),
    StackPtr(usize),
    FnPtr(usize),
    Str(ObjectIndex),
    List(ObjectIndex),
    Object(ObjectIndex),
}

pub const TAG_UNIT: u8 = 0;
pub const TAG_NONE: u8 = 1;
pub const TAG_U64: u8 = 4;
pub const TAG_I64: u8 = 8;
pub const TAG_FLOAT: u8 = 9;
pub const TAG_BOOL: u8 = 10;
pub const TAG_STR: u8 = 11;
pub const TAG_CHAR: u8 = 12;
pub const TAG_STACK_PTR: u8 = 13;
pub const TAG_FN_PTR: u8 = 14;
pub const TAG_LIST: u8 = 15;
pub const TAG_OBJECT: u8 = 16;

/// The tag of a value.
pub open spec fn tag_of(d: VMData) -> u8 {
    match d {
        VMData::Unit => TAG_UNIT,
        VMData::Null => TAG_NONE,
        VMData::U64(_) => TAG_U64,
        VMData::I64(_) => TAG_I64,
        VMData::Float(_) => TAG_FLOAT,
        VMData::Bool(_) => TAG_BOOL,
        VMData::Char(_) => TAG_CHAR,
        VMData::StackPtr(_) => TAG_STACK_PTR,
        VMData::FnPtr(_) => TAG_FN_PTR,
        VMData::Str(_) => TAG_STR,
        VMData::List(_) => TAG_LIST,
        VMData::Object(_) => TAG_OBJECT,
    }
}

/// The index held by a string, list or object value.
pub open spec fn object_of(d: VMData) -> Option<ObjectIndex> {
    match d {
        VMData::Str(i) => Some(i),
        VMData::List(i) => Some(i),
        VMData::Object(i) => Some(i),
        _ => None,
    }
}

/// The 64 bits of a value's payload, a narrower payload zero-extended.
pub open spec fn bits_of(d: VMData) -> u64 {
    match d {
        VMData::Unit => 0,
        VMData::Null => 0,
        VMData::U64(u) => u,
        VMData::I64(i) => i as u64,
        VMData::Float(b) => b,
        VMData::Bool(b) => if b { 1 } else { 0 },
        VMData::Char(c) => c as u64,
        VMData::StackPtr(p) => p as u64,
        VMData::FnPtr(p) => p as u64,
        VMData::Str(i) => i.idx,
        VMData::List(i) => i.idx,
        VMData::Object(i) => i.idx,
    }
}

/// The payload read as a signed integer.
pub open spec fn int_of(d: VMData) -> i64 {
    match d {
        VMData::I64(i) => i,
        _ => bits_of(d) as i64,
    }
}

/// The payload read as a boolean: whether its lowest byte is not zero.
pub open spec fn bool_of(d: VMData) -> bool {
    bits_of(d) % 256 != 0
}

impl VMData {
    pub fn new_unit() -> (r: VMData)
        ensures
            r == VMData::Unit,
    {
        VMData::Unit
    }

    pub fn new_none() -> (r: VMData)
        ensures
            r == VMData::Null,
    {
        VMData::Null
    }

    pub fn new_object(val: ObjectIndex) -> (r: VMData)
        ensures
            r == VMData::Object(val),
    {
        VMData::Object(val)
    }

    pub fn new_string(val: ObjectIndex) -> (r: VMData)
        ensures
            r == VMData::Str(val),
    {
        VMData::Str(val)
    }

    pub fn new_list(val: ObjectIndex) -> (r: VMData)
        ensures
            r == VMData::List(val),
    {
        VMData::List(val)
    }

    /// The tag of the value.
    pub fn tag(&self) -> (r: u8)
        ensures
            r == tag_of(*self),
    {
        match self {
            VMData::Unit => TAG_UNIT,
            VMData::Null => TAG_NONE,
            VMData::U64(_) => TAG_U64,
            VMData::I64(_) => TAG_I64,
            VMData::Float(_) => TAG_FLOAT,
            VMData::Bool(_) => TAG_BOOL,
            VMData::Char(_) => TAG_CHAR,
            VMData::StackPtr(_) => TAG_STACK_PTR,
            VMData::FnPtr(_) => TAG_FN_PTR,
            VMData::Str(_) => TAG_STR,
            VMData::List(_) => TAG_LIST,
            VMData::Object(_) => TAG_OBJECT,
        }
    }

    pub fn is_unit(&self) -> (r: bool)
        ensures
            r == (*self is Unit),
    {
        matches!(self, VMData::Unit)
    }

    pub fn is_none(&self) -> (r: bool)
        ensures
            r == (*self is Null),
    {
        matches!(self, VMData::Null)
    }

    /// Whether the value refers to an object of the memory (string, list or object).
    pub fn is_object(&self) -> (r: bool)
        ensures
            r == object_of(*self).is_some(),
    {
        matches!(self, VMData::Str(_) | VMData::List(_) | VMData::Object(_))
    }

    /// The index of the object that the value refers to.
    pub fn as_object(&self) -> (r: ObjectIndex)
        requires
            object_of(*self).is_some(),
        ensures
            object_of(*self) == Some(r),
    {
        match self {
            VMData::Str(i) => *i,
            VMData::List(i) => *i,
            VMData::Object(i) => *i,
            _ => ObjectIndex { idx: 0 },
        }
    }

    /// The index of the object that the value refers to, if it refers to one.
    pub fn object(&self) -> (r: Option<ObjectIndex>)
        ensures
            r == object_of(*self),
    {
        match self {
            VMData::Str(i) => Some(*i),
            VMData::List(i) => Some(*i),
            VMData::Object(i) => Some(*i),
            _ => None,
        }
    }

    /// The payload's 64 bits.
    pub fn bits(&self) -> (r: u64)
        ensures
            r == bits_of(*self),
    {
        match self {
            VMData::Unit => 0,
            VMData::Null => 0,
            VMData::U64(u) => *u,
            VMData::I64(i) => *i as u64,
            VMData::Float(b) => *b,
            VMData::Bool(b) => if *b { 1 } else { 0 },
            VMData::Char(c) => *c as u64,
            VMData::StackPtr(p) => *p as u64,
            VMData::FnPtr(p) => *p as u64,
            VMData::Str(i) => i.idx,
            VMData::List(i) => i.idx,
            VMData::Object(i) => i.idx,
        }
    }

    /// The payload read as a signed integer.
    pub fn as_i64(&self) -> (r: i64)
        ensures
            r == int_of(*self),
    {
        match self {
            VMData::I64(i) => *i,
            _ => self.bits() as i64,
        }
    }

    /// The payload read as an unsigned integer.
    pub fn as_u64(&self) -> (r: u64)
        ensures
            r == bits_of(*self),
    {
        self.bits()
    }

    /// The payload read as a boolean.
    pub fn as_bool(&self) -> (r: bool)
        ensures
            r == bool_of(*self),
    {
        self.bits() % 256 != 0
    }
}

} // verus!
