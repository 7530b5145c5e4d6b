//! The syntax tree that the parser builds, and its plain-value models for the
//! nodes that hold lists.
use vstd::prelude::*;
use crate::span::Span;

verus! {

#[derive(Debug, Clone, PartialEq, Eq)]
pub struct AstIdentifier {
    pub span: Span,
    pub name: String,
}

#[derive(Debug, Clone, Copy, PartialEq, Eq, Structural)]
pub enum AstUnaryOp {
    Neg,
    Not,
}

#[derive(Debug, Clone, Copy, PartialEq, Eq, Structural)]
pub enum AstBinaryOp {
    Add,
    Sub,
    Mul,
    Div,
    Mod,
    Eq,
    NEq,
    Gt,
    Gte,
    Lt,
    Lte,
    And,
    Or,
}

/// A literal. A float is carried as the bits of its IEEE-754 binary64 encoding.
#[derive(Debug, Clone, PartialEq, Eq)]
pub enum AstLiteral {
    Integer { span: Span, value: i64 },
    UnsignedIntegerer { span: Span, value: u64 },
    Float { span: Span, value: u64 },
    String { span: Span, value: String },
    Boolean { span: Span, value: bool },
}

#[derive(Debug)]
pub struct AstBinaryOpExpr {
    pub span: Span,
    pub lhs: Box<AstExpr>,
    pub rhs: Box<AstExpr>,
    pub op: AstBinaryOp,
}

#[derive(Debug)]
pub struct AstUnaryOpExpr {
    pub span: Span,
    pub expr: Box<AstExpr>,
    pub op: Option<AstUnaryOp>,
}

/// An expression.
#[derive(Debug)]
pub enum AstExpr {
    BinaryOp(AstBinaryOpExpr),
    UnaryOp(AstUnaryOpExpr),
    Literal(AstLiteral),
}

/// The span of a literal.
pub open spec fn literal_span(l: AstLiteral) -> Span {
    match l {
        AstLiteral::Integer { span, .. } => span,
        AstLiteral::UnsignedIntegerer { span, .. } => span,
        AstLiteral::Float { span, .. } => span,
        AstLiteral::String { span, .. } => span,
        AstLiteral::Boolean { span, .. } => span,
    }
}

/// The span of an expression.
pub open spec fn expr_span(e: AstExpr) -> Span {
    match e {
        AstExpr::BinaryOp(b) => b.span,
        AstExpr::UnaryOp(u) => u.span,
        AstExpr::Literal(l) => literal_span(l),
    }
}

impl AstExpr {
    pub fn span(&self) -> (r: Span)
        ensures
            r == expr_span(*self),
    {
        match self {
            AstExpr::BinaryOp(b) => b.span,
            AstExpr::UnaryOp(u) => u.span,
            AstExpr::Literal(l) => match l {
                AstLiteral::Integer { span, .. } => *span,
                AstLiteral::UnsignedIntegerer { span, .. } => *span,
                AstLiteral::Float { span, .. } => *span,
                AstLiteral::String { span, .. } => *span,
                AstLiteral::Boolean { span, .. } => *span,
            },
        }
    }
}

/// A type as written in the source.
#[derive(Debug)]
pub enum AstType {
    Unit(Span),
    Boolean(Span),
    Integer(Span),
    Float(Span),
    UnsignedIntegerer(Span),
    String(Span),
    Named { span: Span, name: Box<AstIdentifier> },
    Pointer { span: Span, inner: Box<AstType> },
    Function { span: Span, args: Vec<AstType>, ret: Box<AstType> },
}

/// A type as plain values.
pub enum TypeModel {
    Unit(Span),
    Boolean(Span),
    Integer(Span),
    Float(Span),
    UnsignedIntegerer(Span),
    String(Span),
    Named { span: Span, name: AstIdentifier },
    Pointer { span: Span, inner: Box<TypeModel> },
    Function { span: Span, args: Seq<TypeModel>, ret: Box<TypeModel> },
}

/// The model of a type.
pub open spec fn type_model(t: AstType) -> TypeModel
    decreases t, 0int,
{
    match t {
        AstType::Unit(s) => TypeModel::Unit(s),
        AstType::Boolean(s) => TypeModel::Boolean(s),
        AstType::Integer(s) => TypeModel::Integer(s),
        AstType::Float(s) => TypeModel::Float(s),
        AstType::UnsignedIntegerer(s) => TypeModel::UnsignedIntegerer(s),
        AstType::String(s) => TypeModel::String(s),
        AstType::Named { span, name } => TypeModel::Named { span, name: *name },
        AstType::Pointer { span, inner } => TypeModel::Pointer { span, inner: Box::new(type_model(*inner)) },
        AstType::Function { span, args, ret } => TypeModel::Function {
            span,
            args: types_model(args@, args@.len() as int),
            ret: Box::new(type_model(*ret)),
        },
    }
}

/// The models of the first `n` types of `ts`.
pub open spec fn types_model(ts: Seq<AstType>, n: int) -> Seq<TypeModel>
    decreases ts, n,
{
    if n <= 0 || n > ts.len() {
        Seq::empty()
    } else {
        types_model(ts, n - 1).push(type_model(ts[n - 1]))
    }
}

impl View for AstType {
    type V = TypeModel;

    open spec fn view(&self) -> TypeModel {
        type_model(*self)
    }
}

/// The span of a type.
pub open spec fn type_span(t: TypeModel) -> Span {
    match t {
        TypeModel::Unit(s) => s,
        TypeModel::Boolean(s) => s,
        TypeModel::Integer(s) => s,
        TypeModel::Float(s) => s,
        TypeModel::UnsignedIntegerer(s) => s,
        TypeModel::String(s) => s,
        TypeModel::Named { span, .. } => span,
        TypeModel::Pointer { span, .. } => span,
        TypeModel::Function { span, .. } => span,
    }
}

impl AstType {
    pub fn span(&self) -> (r: Span)
        ensures
            r == type_span(self@),
    {
        match self {
            AstType::Unit(s) => *s,
            AstType::Boolean(s) => *s,
            AstType::Integer(s) => *s,
            AstType::Float(s) => *s,
            AstType::UnsignedIntegerer(s) => *s,
            AstType::String(s) => *s,
            AstType::Named { span, .. } => *span,
            AstType::Pointer { span, .. } => *span,
            AstType::Function { span, .. } => *span,
        }
    }
}

/// A field of a structure: its name and type.
#[derive(Debug)]
pub struct AstObjField {
    pub span: Span,
    pub name: Box<AstIdentifier>,
    pub ty: Box<AstType>,
}

pub struct FieldModel {
    pub span: Span,
    pub name: AstIdentifier,
    pub ty: TypeModel,
}

impl View for AstObjField {
    type V = FieldModel;

    open spec fn view(&self) -> FieldModel {
        FieldModel { span: self.span, name: *self.name, ty: self.ty@ }
    }
}

/// `let name: ty = value`.
#[derive(Debug)]
pub struct AstLetExpr {
    pub span: Span,
    pub name: Box<AstIdentifier>,
    pub ty: Option<Box<AstType>>,
    pub value: Box<AstExpr>,
}

pub struct LetModel {
    pub span: Span,
    pub name: AstIdentifier,
    pub ty: Option<TypeModel>,
    pub value: AstExpr,
}

impl View for AstLetExpr {
    type V = LetModel;

    open spec fn view(&self) -> LetModel {
        LetModel {
            span: self.span,
            name: *self.name,
            ty: match self.ty {
                Some(t) => Some(t@),
                None => None,
            },
            value: *self.value,
        }
    }
}

/// `struct Name(field: ty, ...)`.
#[derive(Debug)]
pub struct AstStruct {
    pub span: Span,
    pub name: Box<AstIdentifier>,
    pub fields: Vec<AstObjField>,
}

pub struct StructModel {
    pub span: Span,
    pub name: AstIdentifier,
    pub fields: Seq<FieldModel>,
}

impl View for AstStruct {
    type V = StructModel;

    open spec fn view(&self) -> StructModel {
        StructModel { span: self.span, name: *self.name, fields: self.fields@.map_values(|f: AstObjField| f@) }
    }
}

/// `extern name(ty, ...) -> ty`.
#[derive(Debug)]
pub struct AstExternFunction {
    pub span: Span,
    pub name: Box<AstIdentifier>,
    pub args: Vec<AstType>,
    pub ret: Box<AstType>,
}

pub struct ExternModel {
    pub span: Span,
    pub name: AstIdentifier,
    pub args: Seq<TypeModel>,
    pub ret: TypeModel,
}

impl View for AstExternFunction {
    type V = ExternModel;

    open spec fn view(&self) -> ExternModel {
        ExternModel { span: self.span, name: *self.name, args: self.args@.map_values(|t: AstType| t@), ret: self.ret@ }
    }
}

/// `include "path"` or `include "path" as alias`.
#[derive(Debug, Clone, PartialEq, Eq)]
pub struct AstInclude {
    pub span: Span,
    pub path: String,
    pub alias: Option<Box<AstIdentifier>>,
}

/// `func name(args) -> ret { body }`: the body is a block of expressions,
/// in order.
#[derive(Debug)]
pub struct AstFunction {
    pub span: Span,
    pub name: Box<AstIdentifier>,
    pub args: Vec<AstObjField>,
    pub ret: Box<AstType>,
    pub body: Vec<AstExpr>,
}

pub struct FuncModel {
    pub span: Span,
    pub name: AstIdentifier,
    pub args: Seq<FieldModel>,
    pub ret: TypeModel,
    pub body: Seq<AstExpr>,
}

impl View for AstFunction {
    type V = FuncModel;

    open spec fn view(&self) -> FuncModel {
        FuncModel {
            span: self.span,
            name: *self.name,
            args: self.args@.map_values(|f: AstObjField| f@),
            ret: self.ret@,
            body: self.body@,
        }
    }
}

/// An item of a program.
#[derive(Debug)]
pub enum AstItem {
    Struct(AstStruct),
    ExternFunction(AstExternFunction),
    Func(AstFunction),
    Include(AstInclude),
}

pub enum ItemModel {
    Struct(StructModel),
    ExternFunction(ExternModel),
    Func(FuncModel),
    Include(AstInclude),
}

impl View for AstItem {
    type V = ItemModel;

    open spec fn view(&self) -> ItemModel {
        match self {
            AstItem::Struct(s) => ItemModel::Struct(s@),
            AstItem::ExternFunction(e) => ItemModel::ExternFunction(e@),
            AstItem::Func(f) => ItemModel::Func(f@),
            AstItem::Include(i) => ItemModel::Include(*i),
        }
    }
}

/// A program: its items, in order.
#[derive(Debug)]
pub struct AstProgram {
    pub items: Vec<AstItem>,
}

impl View for AstProgram {
    type V = Seq<ItemModel>;

    open spec fn view(&self) -> Seq<ItemModel> {
        self.items@.map_values(|i: AstItem| i@)
    }
}

} // verus!
