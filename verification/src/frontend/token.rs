//! The tokens that the lexer hands to the parser.
use vstd::prelude::*;
use crate::span::Span;

verus! {

/// A literal token. A float literal is carried as the bits of its IEEE-754
/// binary64 encoding.
#[derive(Debug, Clone, PartialEq, Eq)]
pub enum Literal {
    Bool(bool),
    Float(u64),
    F64(u64),
    U64(u64),
    Int(i64),
    I64(i64),
    StringLiteral(String),
    Identifier(String),
}

/// The kind of a token.
#[derive(Debug, Clone, PartialEq, Eq)]
pub enum TokenKind {
    Literal(Literal),
    KwStruct,
    KwInclude,
    KwExtern,
    KwFunc,
    KwAs,
    KwTrue,
    KwFalse,
    Colon,
    Comma,
    LParen,
    RParen,
    LBrace,
    RBrace,
    Semicolon,
    RArrow,
    OpAssign,
    OpAdd,
    OpSub,
    OpMul,
    OpDiv,
    OpMod,
    OpEq,
    OpNEq,
    OpGreaterThan,
    OpGreaterThanEq,
    OpLessThan,
    OpLessThanEq,
    Bang,
    Ampersand,
    I64Ty,
    F64Ty,
    U64Ty,
    BoolTy,
    StrTy,
    UnitTy,
    SoI,
    EoI,
}

/// A token: its kind and where it stands in the source.
#[derive(Debug, Clone, PartialEq, Eq)]
pub struct Token {
    pub kind: TokenKind,
    pub span: Span,
}

/// Whether two literals are the same, strings compared by their text.
pub open spec fn literal_eq(a: Literal, b: Literal) -> bool {
    match (a, b) {
        (Literal::StringLiteral(x), Literal::StringLiteral(y)) => x@ == y@,
        (Literal::Identifier(x), Literal::Identifier(y)) => x@ == y@,
        (Literal::StringLiteral(_), _) | (Literal::Identifier(_), _) => false,
        (_, Literal::StringLiteral(_)) | (_, Literal::Identifier(_)) => false,
        _ => a == b,
    }
}

/// Whether two token kinds are the same, strings compared by their text.
pub open spec fn kind_eq(a: TokenKind, b: TokenKind) -> bool {
    match (a, b) {
        (TokenKind::Literal(x), TokenKind::Literal(y)) => literal_eq(x, y),
        (TokenKind::Literal(_), _) | (_, TokenKind::Literal(_)) => false,
        _ => a == b,
    }
}

impl Literal {
    /// A copy of the literal.
    pub fn copy(&self) -> (r: Literal)
        ensures
            r == *self,
    {
        match self {
            Literal::Bool(b) => Literal::Bool(*b),
            Literal::Float(f) => Literal::Float(*f),
            Literal::F64(f) => Literal::F64(*f),
            Literal::U64(u) => Literal::U64(*u),
            Literal::Int(i) => Literal::Int(*i),
            Literal::I64(i) => Literal::I64(*i),
            Literal::StringLiteral(s) => Literal::StringLiteral(s.clone()),
            Literal::Identifier(s) => Literal::Identifier(s.clone()),
        }
    }

    /// Whether two literals are the same.
    pub fn same(&self, other: &Literal) -> (r: bool)
        ensures
            r == literal_eq(*self, *other),
    {
        match (self, other) {
            (Literal::Bool(x), Literal::Bool(y)) => *x == *y,
            (Literal::Float(x), Literal::Float(y)) => *x == *y,
            (Literal::F64(x), Literal::F64(y)) => *x == *y,
            (Literal::U64(x), Literal::U64(y)) => *x == *y,
            (Literal::Int(x), Literal::Int(y)) => *x == *y,
            (Literal::I64(x), Literal::I64(y)) => *x == *y,
            (Literal::StringLiteral(x), Literal::StringLiteral(y)) => x.eq(y),
            (Literal::Identifier(x), Literal::Identifier(y)) => x.eq(y),
            _ => false,
        }
    }
}

impl TokenKind {
    /// A copy of the kind.
    pub fn copy(&self) -> (r: TokenKind)
        ensures
            r == *self,
    {
        match self {
            TokenKind::Literal(l) => TokenKind::Literal(l.copy()),
            TokenKind::KwStruct => TokenKind::KwStruct,
            TokenKind::KwInclude => TokenKind::KwInclude,
            TokenKind::KwExtern => TokenKind::KwExtern,
            TokenKind::KwFunc => TokenKind::KwFunc,
            TokenKind::KwAs => TokenKind::KwAs,
            TokenKind::KwTrue => TokenKind::KwTrue,
            TokenKind::KwFalse => TokenKind::KwFalse,
            TokenKind::Colon => TokenKind::Colon,
            TokenKind::Comma => TokenKind::Comma,
            TokenKind::LParen => TokenKind::LParen,
            TokenKind::RParen => TokenKind::RParen,
            TokenKind::LBrace => TokenKind::LBrace,
            TokenKind::RBrace => TokenKind::RBrace,
            TokenKind::Semicolon => TokenKind::Semicolon,
            TokenKind::RArrow => TokenKind::RArrow,
            TokenKind::OpAssign => TokenKind::OpAssign,
            TokenKind::OpAdd => TokenKind::OpAdd,
            TokenKind::OpSub => TokenKind::OpSub,
            TokenKind::OpMul => TokenKind::OpMul,
            TokenKind::OpDiv => TokenKind::OpDiv,
            TokenKind::OpMod => TokenKind::OpMod,
            TokenKind::OpEq => TokenKind::OpEq,
            TokenKind::OpNEq => TokenKind::OpNEq,
            TokenKind::OpGreaterThan => TokenKind::OpGreaterThan,
            TokenKind::OpGreaterThanEq => TokenKind::OpGreaterThanEq,
            TokenKind::OpLessThan => TokenKind::OpLessThan,
            TokenKind::OpLessThanEq => TokenKind::OpLessThanEq,
            TokenKind::Bang => TokenKind::Bang,
            TokenKind::Ampersand => TokenKind::Ampersand,
            TokenKind::I64Ty => TokenKind::I64Ty,
            TokenKind::F64Ty => TokenKind::F64Ty,
            TokenKind::U64Ty => TokenKind::U64Ty,
            TokenKind::BoolTy => TokenKind::BoolTy,
            TokenKind::StrTy => TokenKind::StrTy,
            TokenKind::UnitTy => TokenKind::UnitTy,
            TokenKind::SoI => TokenKind::SoI,
            TokenKind::EoI => TokenKind::EoI,
        }
    }

    /// Whether two kinds are the same.
    pub fn same(&self, other: &TokenKind) -> (r: bool)
        ensures
            r == kind_eq(*self, *other),
    {
        match (self, other) {
            (TokenKind::Literal(x), TokenKind::Literal(y)) => x.same(y),
            (TokenKind::Literal(_), _) | (_, TokenKind::Literal(_)) => false,
            (TokenKind::KwStruct, TokenKind::KwStruct) => true,
            (TokenKind::KwInclude, TokenKind::KwInclude) => true,
            (TokenKind::KwExtern, TokenKind::KwExtern) => true,
            (TokenKind::KwFunc, TokenKind::KwFunc) => true,
            (TokenKind::KwAs, TokenKind::KwAs) => true,
            (TokenKind::KwTrue, TokenKind::KwTrue) => true,
            (TokenKind::KwFalse, TokenKind::KwFalse) => true,
            (TokenKind::Colon, TokenKind::Colon) => true,
            (TokenKind::Comma, TokenKind::Comma) => true,
            (TokenKind::LParen, TokenKind::LParen) => true,
            (TokenKind::RParen, TokenKind::RParen) => true,
            (TokenKind::LBrace, TokenKind::LBrace) => true,
            (TokenKind::RBrace, TokenKind::RBrace) => true,
            (TokenKind::Semicolon, TokenKind::Semicolon) => true,
            (TokenKind::RArrow, TokenKind::RArrow) => true,
            (TokenKind::OpAssign, TokenKind::OpAssign) => true,
            (TokenKind::OpAdd, TokenKind::OpAdd) => true,
            (TokenKind::OpSub, TokenKind::OpSub) => true,
            (TokenKind::OpMul, TokenKind::OpMul) => true,
            (TokenKind::OpDiv, TokenKind::OpDiv) => true,
            (TokenKind::OpMod, TokenKind::OpMod) => true,
            (TokenKind::OpEq, TokenKind::OpEq) => true,
            (TokenKind::OpNEq, TokenKind::OpNEq) => true,
            (TokenKind::OpGreaterThan, TokenKind::OpGreaterThan) => true,
            (TokenKind::OpGreaterThanEq, TokenKind::OpGreaterThanEq) => true,
            (TokenKind::OpLessThan, TokenKind::OpLessThan) => true,
            (TokenKind::OpLessThanEq, TokenKind::OpLessThanEq) => true,
            (TokenKind::Bang, TokenKind::Bang) => true,
            (TokenKind::Ampersand, TokenKind::Ampersand) => true,
            (TokenKind::I64Ty, TokenKind::I64Ty) => true,
            (TokenKind::F64Ty, TokenKind::F64Ty) => true,
            (TokenKind::U64Ty, TokenKind::U64Ty) => true,
            (TokenKind::BoolTy, TokenKind::BoolTy) => true,
            (TokenKind::StrTy, TokenKind::StrTy) => true,
            (TokenKind::UnitTy, TokenKind::UnitTy) => true,
            (TokenKind::SoI, TokenKind::SoI) => true,
            (TokenKind::EoI, TokenKind::EoI) => true,
            _ => false,
        }
    }
}

impl Token {
    pub fn new(span: Span, kind: TokenKind) -> (r: Token)
        ensures
            r == (Token { kind, span }),
    {
        Token { kind, span }
    }

    /// A copy of the token.
    pub fn copy(&self) -> (r: Token)
        ensures
            r == *self,
    {
        Token { kind: self.kind.copy(), span: self.span }
    }

    /// A copy of the token's kind.
    pub fn kind(&self) -> (r: TokenKind)
        ensures
            r == self.kind,
    {
        self.kind.copy()
    }

    pub fn span(&self) -> (r: Span)
        ensures
            r == self.span,
    {
        self.span
    }

    pub fn start(&self) -> (r: usize)
        ensures
            r == self.span.start,
    {
        self.span.start
    }

    pub fn end(&self) -> (r: usize)
        ensures
            r == self.span.end,
    {
        self.span.end
    }
}

} // verus!
