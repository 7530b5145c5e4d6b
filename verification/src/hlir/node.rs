//! The operators and results of the high-level lowered representation.
use vstd::prelude::*;

verus! {

/// The data type of the lowered representation: a type identity.
pub type HlirDataType = u64;

/// What a lowering step gives back.
#[derive(Debug, Clone, Copy, PartialEq, Eq, Structural)]
pub enum HlirResult {
    Success,
    VariableID(usize),
}

#[derive(Debug, Clone, Copy, PartialEq, Eq, Structural)]
pub enum HlirBinOp {
    OpAdd,
    OpSub,
    OpMul,
    OpDiv,
    OpMod,
    OpEq,
    OpNe,
    OpLt,
    OpLe,
    OpGt,
    OpGe,
    OpAnd,
    OpOr,
}

#[derive(Debug, Clone, Copy, PartialEq, Eq, Structural)]
pub enum HlirUnaryOp {
    OpSub,
    OpNot,
}

/// An error of the lowering.
#[derive(Debug, Clone, PartialEq, Eq)]
pub enum HlirError {
    NoMainFunction,
    /// A variable of that name already exists in the scope; the number of
    /// variables of the function.
    VariableAlreadyExists(String, usize),
    VariableNotFound(String, usize),
    TypeMismatch { type1: HlirDataType, type2: HlirDataType, start: usize, end: usize },
}

} // verus!
