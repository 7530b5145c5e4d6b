//! The Atlas77 virtual machine: values, object memory, stack and interpreter.
pub mod error;
pub mod value;
pub mod memory;
pub mod stack;
pub mod instruction;
pub mod vars;
pub mod text;
pub mod library;
pub mod externs;
pub mod machine;
pub mod interp;
