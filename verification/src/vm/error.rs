use vstd::prelude::*;

verus! {

/// The ways in which executing a program on the VM can fail.
#[derive(Debug, Clone, PartialEq, Eq)]
pub enum RuntimeError {
    OutOfMemory,
    StackOverflow,
    StackUnderflow,
    NullReference,
    DivisionByZero,
    IndexOutOfBounds,
    InvalidOperation,
    TypeMismatchError,
    EntryPointNotFound(String),
    /// A value with the given tag cannot be cast to the given type (its number in `Type`).
    InvalidCast(u8, u8),
}

/// Result of an operation of the VM.
pub type RuntimeResult<T> = Result<T, RuntimeError>;

} // verus!
