//! The high-level intermediate representation of the compiler: its types and
//! their identities, operators, expressions, statements, signatures and
//! modules, and the passes over it.
pub mod ty;
pub mod ops;
pub mod names;
pub mod expr;
pub mod stmt;
pub mod signature;
pub mod item;
pub mod error;
pub mod type_check;
pub mod lowering;
