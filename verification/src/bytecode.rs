//! The byte-code format: opcodes, and the constants that a compiled program
//! carries.
use vstd::prelude::*;

verus! {

/// # The opcodes for the VM
///
/// An instruction is a one-byte opcode followed by its immediate data.
#[derive(Debug, Clone, Copy, PartialEq, Eq, Structural)]
pub enum OpCode {
    /// No operation
    Nop,
    /// Push an immediate integer (the next 8 bytes)
    PushInteger,
    /// Push an immediate float (the next 8 bytes)
    PushFloat,
    /// Push an immediate unsigned integer (the next 8 bytes)
    PushUnsignedInteger,
    /// Push an immediate boolean (the next byte)
    PushBoolean,
    /// Push an immediate character (the next 4 bytes, in UTF-8)
    PushChar,
    /// Push a string of the constant pool (its index in the next 4 bytes)
    PushStr,
    /// Push a function pointer of the constant pool (its index in the next 4 bytes)
    PushFnPtr,
    /// Push a list of the constant pool (its index in the next 8 bytes)
    PushList,
    /// Push a unit
    PushUnit,
    /// Push a null, which is a unit
    PushNull,
    Pop,
    Swap,
    Dup,
    Get,
    Store,
    Mul,
    Div,
    Sub,
    Mod,
    Add,
    Eq,
    Neq,
    Gt,
    Gte,
    Lt,
    Lte,
    DJmp,
    RJmp,
    JmpZ,
    Call,
    DirectCall,
    ExternCall,
    Return,
    NewList,
    ListCopy,
    ListLoad,
    ListStore,
    Halt,
}

/// The byte of each opcode: its position in the declaration.
pub open spec fn opcode_byte(op: OpCode) -> u8 {
    match op {
        OpCode::Nop => 0,
        OpCode::PushInteger => 1,
        OpCode::PushFloat => 2,
        OpCode::PushUnsignedInteger => 3,
        OpCode::PushBoolean => 4,
        OpCode::PushChar => 5,
        OpCode::PushStr => 6,
        OpCode::PushFnPtr => 7,
        OpCode::PushList => 8,
        OpCode::PushUnit => 9,
        OpCode::PushNull => 10,
        OpCode::Pop => 11,
        OpCode::Swap => 12,
        OpCode::Dup => 13,
        OpCode::Get => 14,
        OpCode::Store => 15,
        OpCode::Mul => 16,
        OpCode::Div => 17,
        OpCode::Sub => 18,
        OpCode::Mod => 19,
        OpCode::Add => 20,
        OpCode::Eq => 21,
        OpCode::Neq => 22,
        OpCode::Gt => 23,
        OpCode::Gte => 24,
        OpCode::Lt => 25,
        OpCode::Lte => 26,
        OpCode::DJmp => 27,
        OpCode::RJmp => 28,
        OpCode::JmpZ => 29,
        OpCode::Call => 30,
        OpCode::DirectCall => 31,
        OpCode::ExternCall => 32,
        OpCode::Return => 33,
        OpCode::NewList => 34,
        OpCode::ListCopy => 35,
        OpCode::ListLoad => 36,
        OpCode::ListStore => 37,
        OpCode::Halt => 38,
    }
}

impl OpCode {
    /// The byte of the opcode.
    pub fn byte(&self) -> (r: u8)
        ensures
            r == opcode_byte(*self),
    {
        match self {
            OpCode::Nop => 0,
            OpCode::PushInteger => 1,
            OpCode::PushFloat => 2,
            OpCode::PushUnsignedInteger => 3,
            OpCode::PushBoolean => 4,
            OpCode::PushChar => 5,
            OpCode::PushStr => 6,
            OpCode::PushFnPtr => 7,
            OpCode::PushList => 8,
            OpCode::PushUnit => 9,
            OpCode::PushNull => 10,
            OpCode::Pop => 11,
            OpCode::Swap => 12,
            OpCode::Dup => 13,
            OpCode::Get => 14,
            OpCode::Store => 15,
            OpCode::Mul => 16,
            OpCode::Div => 17,
            OpCode::Sub => 18,
            OpCode::Mod => 19,
            OpCode::Add => 20,
            OpCode::Eq => 21,
            OpCode::Neq => 22,
            OpCode::Gt => 23,
            OpCode::Gte => 24,
            OpCode::Lt => 25,
            OpCode::Lte => 26,
            OpCode::DJmp => 27,
            OpCode::RJmp => 28,
            OpCode::JmpZ => 29,
            OpCode::Call => 30,
            OpCode::DirectCall => 31,
            OpCode::ExternCall => 32,
            OpCode::Return => 33,
            OpCode::NewList => 34,
            OpCode::ListCopy => 35,
            OpCode::ListLoad => 36,
            OpCode::ListStore => 37,
            OpCode::Halt => 38,
        }
    }

    /// The opcode of a byte, if it is one.
    pub fn from_byte(b: u8) -> (r: Option<OpCode>)
        ensures
            match r {
                Some(op) => opcode_byte(op) == b,
                None => forall|op: OpCode| opcode_byte(op) != b,
            },
    {
        match b {
            0 => Some(OpCode::Nop),
            1 => Some(OpCode::PushInteger),
            2 => Some(OpCode::PushFloat),
            3 => Some(OpCode::PushUnsignedInteger),
            4 => Some(OpCode::PushBoolean),
            5 => Some(OpCode::PushChar),
            6 => Some(OpCode::PushStr),
            7 => Some(OpCode::PushFnPtr),
            8 => Some(OpCode::PushList),
            9 => Some(OpCode::PushUnit),
            10 => Some(OpCode::PushNull),
            11 => Some(OpCode::Pop),
            12 => Some(OpCode::Swap),
            13 => Some(OpCode::Dup),
            14 => Some(OpCode::Get),
            15 => Some(OpCode::Store),
            16 => Some(OpCode::Mul),
            17 => Some(OpCode::Div),
            18 => Some(OpCode::Sub),
            19 => Some(OpCode::Mod),
            20 => Some(OpCode::Add),
            21 => Some(OpCode::Eq),
            22 => Some(OpCode::Neq),
            23 => Some(OpCode::Gt),
            24 => Some(OpCode::Gte),
            25 => Some(OpCode::Lt),
            26 => Some(OpCode::Lte),
            27 => Some(OpCode::DJmp),
            28 => Some(OpCode::RJmp),
            29 => Some(OpCode::JmpZ),
            30 => Some(OpCode::Call),
            31 => Some(OpCode::DirectCall),
            32 => Some(OpCode::ExternCall),
            33 => Some(OpCode::Return),
            34 => Some(OpCode::NewList),
            35 => Some(OpCode::ListCopy),
            36 => Some(OpCode::ListLoad),
            37 => Some(OpCode::ListStore),
            38 => Some(OpCode::Halt),
            _ => None,
        }
    }
}

/// Decoding the byte of an opcode gives the opcode back: no two opcodes
/// share a byte.
pub proof fn law_opcode_byte_round_trip(op: OpCode)
    ensures
        forall|other: OpCode| opcode_byte(other) == opcode_byte(op) ==> other == op,
{
}

/// A compiled program: its bytes.
#[derive(Debug, Clone, PartialEq, Eq)]
pub struct Program {
    pub instructions: Vec<u8>,
}

/// A function that a program calls: its name and its number of arguments.
#[derive(Debug, Clone, PartialEq, Eq)]
pub struct FunctionDescriptor {
    pub name: String,
    pub nb_args: u8,
}

/// The constants of a compiled program.
#[derive(Debug, Clone, PartialEq, Eq)]
pub struct ConstantPool {
    pub strings: Vec<String>,
    pub functions: Vec<FunctionDescriptor>,
}

/// The functions of a compiled program.
#[derive(Debug, Clone, PartialEq, Eq)]
pub struct FunctionPool {
    pub functions: Vec<FunctionDescriptor>,
}

} // verus!
