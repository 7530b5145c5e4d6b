//! The syntax tree that the lowering pass reads: items, statements,
//! expressions and types, each node with its span.
use vstd::prelude::*;
use crate::span::Span;
use crate::frontend::ast::AstIdentifier;

verus! {

/// The top-level node: the items of a program, in order.
#[derive(Debug)]
pub struct AstProgram {
    pub items: Vec<AstItem>,
}

/// Anything that can be declared at the top level.
#[derive(Debug)]
pub enum AstItem {
    Struct(AstStruct),
    ExternFunction(AstExternFunction),
    Func(AstFunction),
    Enum(AstEnum),
    Union(AstUnion),
    Import(AstImport),
}

#[derive(Debug)]
pub struct AstFunction {
    pub span: Span,
    pub name: AstIdentifier,
    pub args: Vec<AstObjField>,
    pub ret: AstType,
    pub body: AstBlock,
}

#[derive(Debug)]
pub struct AstUnion {
    pub span: Span,
    pub name: AstIdentifier,
    pub variants: Vec<AstUnionVariant>,
}

#[derive(Debug)]
pub struct AstUnionVariant {
    pub span: Span,
    pub name: AstIdentifier,
    pub fields: Vec<AstObjField>,
}

#[derive(Debug)]
pub struct AstEnum {
    pub span: Span,
    pub name: AstIdentifier,
    pub variants: Vec<AstEnumVariant>,
}

/// A variant of an enum; variants carry no values yet.
#[derive(Debug)]
pub struct AstEnumVariant {
    pub span: Span,
    pub name: AstIdentifier,
}

#[derive(Debug)]
pub struct AstStruct {
    pub span: Span,
    pub name: AstIdentifier,
    pub fields: Vec<AstObjField>,
}

/// `name: ty`, as a field or a parameter.
#[derive(Debug)]
pub struct AstObjField {
    pub span: Span,
    pub name: AstIdentifier,
    pub ty: AstType,
}

#[derive(Debug)]
pub struct AstExternFunction {
    pub span: Span,
    pub name: AstIdentifier,
    pub args: Vec<AstType>,
    pub ret: AstType,
}

#[derive(Debug)]
pub struct AstImport {
    pub span: Span,
    pub path: String,
    pub alias: Option<AstIdentifier>,
}

#[derive(Debug)]
pub enum AstStatement {
    Let(AstLetExpr),
    Const(AstConstExpr),
    IfElse(AstIfElseExpr),
    Match(AstMatchExpr),
    InnerFunc(AstFunction),
    Block(AstBlock),
    Call(AstCallExpr),
    While(AstWhileExpr),
    Expr(AstExpr),
    Break(Span),
    Continue(Span),
    Return(AstReturnStmt),
}

/// The span of a statement.
pub open spec fn stmt_span(s: AstStatement) -> Span {
    match s {
        AstStatement::Let(e) => e.span,
        AstStatement::Const(e) => e.span,
        AstStatement::IfElse(e) => e.span,
        AstStatement::Match(e) => e.span,
        AstStatement::InnerFunc(e) => e.span,
        AstStatement::Block(e) => e.span,
        AstStatement::Call(e) => e.span,
        AstStatement::While(e) => e.span,
        AstStatement::Expr(e) => expr_span(e),
        AstStatement::Break(s) => s,
        AstStatement::Continue(s) => s,
        AstStatement::Return(e) => e.span,
    }
}

impl AstStatement {
    /// The span of the statement.
    pub fn span(&self) -> (r: Span)
        ensures
            r == stmt_span(*self),
    {
        match self {
            AstStatement::Let(e) => e.span,
            AstStatement::Const(e) => e.span,
            AstStatement::IfElse(e) => e.span,
            AstStatement::Match(e) => e.span,
            AstStatement::InnerFunc(e) => e.span,
            AstStatement::Block(e) => e.span,
            AstStatement::Call(e) => e.span,
            AstStatement::While(e) => e.span,
            AstStatement::Expr(e) => e.span(),
            AstStatement::Break(s) => *s,
            AstStatement::Continue(s) => *s,
            AstStatement::Return(e) => e.span,
        }
    }
}

#[derive(Debug)]
pub struct AstConstExpr {
    pub span: Span,
    pub name: AstIdentifier,
    pub ty: Option<AstType>,
    pub value: AstExpr,
}

#[derive(Debug)]
pub struct AstWhileExpr {
    pub span: Span,
    pub condition: AstExpr,
    pub body: AstBlock,
}

#[derive(Debug)]
pub struct AstAssignExpr {
    pub span: Span,
    pub target: Box<AstExpr>,
    pub value: Box<AstExpr>,
}

#[derive(Debug)]
pub enum AstExpr {
    Let(AstLetExpr),
    Lambda(AstLambdaExpr),
    CompTime(AstCompTimeExpr),
    Match(AstMatchExpr),
    IfElse(AstIfElseExpr),
    BinaryOp(AstBinaryOpExpr),
    UnaryOp(AstUnaryOpExpr),
    Call(AstCallExpr),
    Literal(AstLiteral),
    Identifier(AstIdentifier),
    Indexing(AstIndexingExpr),
    FieldAccess(AstFieldAccessExpr),
    NewObj(AstNewObjExpr),
    Block(AstBlock),
    Assign(AstAssignExpr),
}

/// The span of an expression.
pub open spec fn expr_span(e: AstExpr) -> Span {
    match e {
        AstExpr::Let(e) => e.span,
        AstExpr::Lambda(e) => e.span,
        AstExpr::CompTime(e) => e.span,
        AstExpr::Match(e) => e.span,
        AstExpr::IfElse(e) => e.span,
        AstExpr::BinaryOp(e) => e.span,
        AstExpr::UnaryOp(e) => e.span,
        AstExpr::Call(e) => e.span,
        AstExpr::Literal(l) => literal_span(l),
        AstExpr::Identifier(e) => e.span,
        AstExpr::Indexing(e) => e.span,
        AstExpr::FieldAccess(e) => e.span,
        AstExpr::NewObj(e) => e.span,
        AstExpr::Block(e) => e.span,
        AstExpr::Assign(e) => e.span,
    }
}

impl AstExpr {
    /// The span of the expression.
    pub fn span(&self) -> (r: Span)
        ensures
            r == expr_span(*self),
    {
        match self {
            AstExpr::Let(e) => e.span,
            AstExpr::Lambda(e) => e.span,
            AstExpr::CompTime(e) => e.span,
            AstExpr::Match(e) => e.span,
            AstExpr::IfElse(e) => e.span,
            AstExpr::BinaryOp(e) => e.span,
            AstExpr::UnaryOp(e) => e.span,
            AstExpr::Call(e) => e.span,
            AstExpr::Literal(l) => l.span(),
            AstExpr::Identifier(e) => e.span,
            AstExpr::Indexing(e) => e.span,
            AstExpr::FieldAccess(e) => e.span,
            AstExpr::NewObj(e) => e.span,
            AstExpr::Block(e) => e.span,
            AstExpr::Assign(e) => e.span,
        }
    }
}

#[derive(Debug)]
pub struct AstReturnStmt {
    pub span: Span,
    pub value: AstExpr,
}

#[derive(Debug)]
pub struct AstBlock {
    pub span: Span,
    pub stmts: Vec<AstStatement>,
}

#[derive(Debug)]
pub struct AstNewObjExpr {
    pub span: Span,
    pub ty: AstType,
    pub fields: Vec<AstFieldInit>,
}

#[derive(Debug)]
pub struct AstFieldInit {
    pub span: Span,
    pub name: AstIdentifier,
    pub value: AstExpr,
}

#[derive(Debug)]
pub struct AstFieldAccessExpr {
    pub span: Span,
    pub target: Box<AstExpr>,
    pub field: AstIdentifier,
}

#[derive(Debug)]
pub struct AstIndexingExpr {
    pub span: Span,
    pub target: Box<AstExpr>,
    pub index: Box<AstExpr>,
}

#[derive(Debug)]
pub struct AstCallExpr {
    pub span: Span,
    pub callee: Box<AstExpr>,
    pub args: Vec<AstExpr>,
}

#[derive(Debug)]
pub struct AstUnaryOpExpr {
    pub span: Span,
    pub expr: Box<AstExpr>,
    pub op: Option<AstUnaryOp>,
}

#[derive(Debug, Clone, Copy, PartialEq, Eq, Structural)]
pub enum AstUnaryOp {
    Neg,
    Not,
    Deref,
    AsRef,
}

#[derive(Debug)]
pub struct AstBinaryOpExpr {
    pub span: Span,
    pub lhs: Box<AstExpr>,
    pub rhs: Box<AstExpr>,
    pub op: AstBinaryOp,
}

#[derive(Debug, Clone, Copy, PartialEq, Eq, Structural)]
pub enum AstBinaryOp {
    Add,
    Sub,
    Mul,
    Div,
    Mod,
    Pow,
    Eq,
    NEq,
    Lt,
    Lte,
    Gt,
    Gte,
    And,
    Or,
}

#[derive(Debug)]
pub struct AstIfElseExpr {
    pub span: Span,
    pub condition: Box<AstExpr>,
    pub body: AstBlock,
    pub else_body: Option<AstBlock>,
}

#[derive(Debug)]
pub struct AstMatchExpr {
    pub span: Span,
    pub expr: Box<AstExpr>,
    pub arms: Vec<AstMatchArm>,
    pub default: Option<Box<AstExpr>>,
}

#[derive(Debug)]
pub struct AstMatchArm {
    pub span: Span,
    pub pattern: AstPattern,
    pub body: AstBlock,
}

#[derive(Debug)]
pub struct AstPattern {
    pub span: Span,
    pub kind: AstPatternKind,
}

#[derive(Debug)]
pub enum AstPatternKind {
    Identifier(AstIdentifier),
    Literal(AstLiteral),
}

#[derive(Debug)]
pub struct AstLetExpr {
    pub span: Span,
    pub name: AstIdentifier,
    pub ty: Option<AstType>,
    pub value: Box<AstExpr>,
}

#[derive(Debug)]
pub struct AstLambdaExpr {
    pub span: Span,
    pub args: Vec<AstIdentifier>,
    pub body: Box<AstExpr>,
}

#[derive(Debug)]
pub struct AstCompTimeExpr {
    pub span: Span,
    pub expr: Box<AstExpr>,
}

/// A literal. A float is carried as the bits of its IEEE-754 binary64
/// encoding.
#[derive(Debug)]
pub enum AstLiteral {
    Integer { span: Span, value: i64 },
    UnsignedIntegerer { span: Span, value: u64 },
    Float { span: Span, value: u64 },
    String { span: Span, value: String },
    Boolean { span: Span, value: bool },
    List { span: Span, items: Vec<AstExpr> },
}

/// The span of a literal.
pub open spec fn literal_span(l: AstLiteral) -> Span {
    match l {
        AstLiteral::Integer { span, .. } => span,
        AstLiteral::UnsignedIntegerer { span, .. } => span,
        AstLiteral::Float { span, .. } => span,
        AstLiteral::String { span, .. } => span,
        AstLiteral::Boolean { span, .. } => span,
        AstLiteral::List { span, .. } => span,
    }
}

impl AstLiteral {
    /// The span of the literal.
    pub fn span(&self) -> (r: Span)
        ensures
            r == literal_span(*self),
    {
        match self {
            AstLiteral::Integer { span, .. } => *span,
            AstLiteral::UnsignedIntegerer { span, .. } => *span,
            AstLiteral::Float { span, .. } => *span,
            AstLiteral::String { span, .. } => *span,
            AstLiteral::Boolean { span, .. } => *span,
            AstLiteral::List { span, .. } => *span,
        }
    }
}

#[derive(Debug)]
pub enum AstType {
    Unit(Span),
    Boolean(Span),
    Integer(Span),
    Float(Span),
    UnsignedIntegerer(Span),
    String(Span),
    Named { span: Span, name: AstIdentifier },
    Pointer { span: Span, inner: Box<AstType> },
    Function { span: Span, args: Vec<AstType>, ret: Box<AstType> },
    List { span: Span, inner: Box<AstType> },
    Mapping { span: Span, key: Box<AstType>, value: Box<AstType> },
}

/// The span of a type.
pub open spec fn type_span(t: AstType) -> Span {
    match t {
        AstType::Unit(s) => s,
        AstType::Boolean(s) => s,
        AstType::Integer(s) => s,
        AstType::Float(s) => s,
        AstType::UnsignedIntegerer(s) => s,
        AstType::String(s) => s,
        AstType::Named { span, .. } => span,
        AstType::Pointer { span, .. } => span,
        AstType::Function { span, .. } => span,
        AstType::List { span, .. } => span,
        AstType::Mapping { span, .. } => span,
    }
}

impl AstType {
    /// The span of the type.
    pub fn span(&self) -> (r: Span)
        ensures
            r == type_span(*self),
    {
        match self {
            AstType::Unit(s) => *s,
            AstType::Boolean(s) => *s,
            AstType::Integer(s) => *s,
            AstType::Float(s) => *s,
            AstType::UnsignedIntegerer(s) => *s,
            AstType::String(s) => *s,
            AstType::Named { span, .. } => *span,
            AstType::Pointer { span, .. } => *span,
            AstType::Function { span, .. } => *span,
            AstType::List { span, .. } => *span,
            AstType::Mapping { span, .. } => *span,
        }
    }
}

} // verus!
