//! Atlas77: the bytecode virtual machine, its memory model, and the front and
//! middle ends of the Atlas77 compiler, with their contracts proved by Verus.
pub mod varmap;
pub mod vm;
pub mod bytecode;
pub mod span;
pub mod hir;
pub mod frontend;
pub mod hlir;
pub mod codegen;
