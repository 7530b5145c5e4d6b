//! The errors of the parser.
use vstd::prelude::*;
use super::token::{Token, TokenKind};

verus! {

/// What the parser expected where it found something else.
#[derive(Debug, Clone, PartialEq, Eq)]
pub enum Expected {
    Item,
    Identifier,
    PrimaryExpression,
    StringLiteral,
    Type,
    Kind(TokenKind),
}

/// A span of the source as the error report gives it: an offset and a length.
#[derive(Debug, Clone, Copy, PartialEq, Eq, Structural)]
pub struct SourceSpan {
    pub offset: usize,
    pub length: usize,
}

/// The input ended where more was needed.
#[derive(Debug, Clone, PartialEq, Eq)]
pub struct UnexpectedEndOfFileError {
    pub span: SourceSpan,
    pub src: String,
}

/// A token that cannot stand where it was found.
#[derive(Debug, Clone, PartialEq, Eq)]
pub struct UnexpectedTokenError {
    pub token: Token,
    pub expected: Expected,
    pub span: SourceSpan,
    pub src: String,
}

/// An error of the parser.
#[derive(Debug, Clone, PartialEq, Eq)]
pub enum ParseError {
    UnexpectedEndOfFile(UnexpectedEndOfFileError),
    UnexpectedToken(UnexpectedTokenError),
    /// An item of a kind that the parser does not read yet (functions), at
    /// this span.
    NotImplemented(SourceSpan),
}

pub type ParseResult<T> = Result<T, ParseError>;

} // verus!
