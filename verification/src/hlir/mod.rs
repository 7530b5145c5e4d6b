//! The high-level lowered representation: its operators, its errors and the
//! context that names variables and orders functions.
pub mod node;
pub mod context;
