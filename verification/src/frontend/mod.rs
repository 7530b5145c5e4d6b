//! The front end of the compiler: tokens, the syntax tree and the parser.
pub mod token;
pub mod ast;
pub mod error;
pub mod grammar;
pub mod parser;
pub mod syntax;
