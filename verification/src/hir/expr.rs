//! Expressions of the high-level intermediate representation. Each carries its
//! span and its type (filled in by the type checker where the lowering pass
//! could not know it).
use vstd::prelude::*;
use crate::span::Span;
use crate::hir::ty::{HirTy, TyView, ty_view, tys_view};
use crate::hir::ops::{HirBinaryOp, UnaryOp};

verus! {

#[derive(Debug)]
pub struct HirAssignExpr {
    pub span: Span,
    pub lhs: Box<HirExpr>,
    pub rhs: Box<HirExpr>,
    pub ty: HirTy,
}

#[derive(Debug)]
pub struct HirFunctionCallExpr {
    pub span: Span,
    pub callee: Box<HirExpr>,
    pub callee_span: Span,
    pub args: Vec<HirExpr>,
    pub args_ty: Vec<HirTy>,
    /// The type of the result of the call.
    pub ty: HirTy,
}

#[derive(Debug)]
pub struct HirBinaryOpExpr {
    pub span: Span,
    pub op: HirBinaryOp,
    pub op_span: Span,
    pub lhs: Box<HirExpr>,
    pub rhs: Box<HirExpr>,
    /// The type of the operands (the type checker sets it to the type of `lhs`).
    pub ty: HirTy,
}

#[derive(Debug)]
pub struct UnaryOpExpr {
    pub span: Span,
    pub op: Option<UnaryOp>,
    pub expr: Box<HirExpr>,
    /// The type of the result of the expression.
    pub ty: HirTy,
}

/// `expr as ty`.
#[derive(Debug)]
pub struct HirCastExpr {
    pub span: Span,
    pub expr: Box<HirExpr>,
    pub ty: HirTy,
}

/// `target[index]`.
#[derive(Debug)]
pub struct HirIndexingExpr {
    pub span: Span,
    pub target: Box<HirExpr>,
    pub index: Box<HirExpr>,
    pub ty: HirTy,
}

/// `[items...]`.
#[derive(Debug)]
pub struct HirListLiteralExpr {
    pub span: Span,
    pub items: Vec<HirExpr>,
    pub ty: HirTy,
}

/// A new list of `size` elements, of type `ty`.
#[derive(Debug)]
pub struct HirNewArrayExpr {
    pub span: Span,
    pub size: Box<HirExpr>,
    pub ty: HirTy,
}

/// A float literal, carried as the bits of its IEEE-754 binary64 encoding.
#[derive(Debug)]
pub struct HirFloatLiteralExpr {
    pub value: u64,
    pub span: Span,
    pub ty: HirTy,
}

#[derive(Debug)]
pub struct HirUnsignedIntegerLiteralExpr {
    pub value: u64,
    pub span: Span,
    pub ty: HirTy,
}

#[derive(Debug)]
pub struct HirIntegerLiteralExpr {
    pub value: i64,
    pub span: Span,
    pub ty: HirTy,
}

#[derive(Debug)]
pub struct HirBooleanLiteralExpr {
    pub value: bool,
    pub span: Span,
    pub ty: HirTy,
}

#[derive(Debug)]
pub struct HirCharLiteralExpr {
    pub value: char,
    pub span: Span,
    pub ty: HirTy,
}

#[derive(Debug)]
pub struct HirUnitLiteralExpr {
    pub span: Span,
    pub ty: HirTy,
}

#[derive(Debug)]
pub struct HirStringLiteralExpr {
    pub value: String,
    pub span: Span,
    pub ty: HirTy,
}

#[derive(Debug)]
pub struct HirIdentExpr {
    pub name: String,
    pub span: Span,
    pub ty: HirTy,
}

/// An expression.
#[derive(Debug)]
pub enum HirExpr {
    Assign(HirAssignExpr),
    HirBinaryOp(HirBinaryOpExpr),
    Call(HirFunctionCallExpr),
    Ident(HirIdentExpr),
    Unary(UnaryOpExpr),
    Casting(HirCastExpr),
    Indexing(HirIndexingExpr),
    FloatLiteral(HirFloatLiteralExpr),
    IntegerLiteral(HirIntegerLiteralExpr),
    UnsignedIntegerLiteral(HirUnsignedIntegerLiteralExpr),
    BooleanLiteral(HirBooleanLiteralExpr),
    CharLiteral(HirCharLiteralExpr),
    UnitLiteral(HirUnitLiteralExpr),
    StringLiteral(HirStringLiteralExpr),
    ListLiteral(HirListLiteralExpr),
    NewArray(HirNewArrayExpr),
}

/// The span of an expression.
pub open spec fn expr_span(e: HirExpr) -> Span {
    match e {
        HirExpr::Assign(x) => x.span,
        HirExpr::HirBinaryOp(x) => x.span,
        HirExpr::Call(x) => x.span,
        HirExpr::Ident(x) => x.span,
        HirExpr::Unary(x) => x.span,
        HirExpr::Casting(x) => x.span,
        HirExpr::Indexing(x) => x.span,
        HirExpr::FloatLiteral(x) => x.span,
        HirExpr::IntegerLiteral(x) => x.span,
        HirExpr::UnsignedIntegerLiteral(x) => x.span,
        HirExpr::BooleanLiteral(x) => x.span,
        HirExpr::CharLiteral(x) => x.span,
        HirExpr::UnitLiteral(x) => x.span,
        HirExpr::StringLiteral(x) => x.span,
        HirExpr::ListLiteral(x) => x.span,
        HirExpr::NewArray(x) => x.span,
    }
}

/// The type that an expression carries.
pub open spec fn expr_ty(e: HirExpr) -> HirTy {
    match e {
        HirExpr::Assign(x) => x.ty,
        HirExpr::HirBinaryOp(x) => x.ty,
        HirExpr::Call(x) => x.ty,
        HirExpr::Ident(x) => x.ty,
        HirExpr::Unary(x) => x.ty,
        HirExpr::Casting(x) => x.ty,
        HirExpr::Indexing(x) => x.ty,
        HirExpr::FloatLiteral(x) => x.ty,
        HirExpr::IntegerLiteral(x) => x.ty,
        HirExpr::UnsignedIntegerLiteral(x) => x.ty,
        HirExpr::BooleanLiteral(x) => x.ty,
        HirExpr::CharLiteral(x) => x.ty,
        HirExpr::UnitLiteral(x) => x.ty,
        HirExpr::StringLiteral(x) => x.ty,
        HirExpr::ListLiteral(x) => x.ty,
        HirExpr::NewArray(x) => x.ty,
    }
}

impl HirExpr {
    /// The span of the expression.
    pub fn span(&self) -> (r: Span)
        ensures
            r == expr_span(*self),
            r == ev_span(self@),
    {
        match self {
            HirExpr::Assign(x) => x.span,
            HirExpr::HirBinaryOp(x) => x.span,
            HirExpr::Call(x) => x.span,
            HirExpr::Ident(x) => x.span,
            HirExpr::Unary(x) => x.span,
            HirExpr::Casting(x) => x.span,
            HirExpr::Indexing(x) => x.span,
            HirExpr::FloatLiteral(x) => x.span,
            HirExpr::IntegerLiteral(x) => x.span,
            HirExpr::UnsignedIntegerLiteral(x) => x.span,
            HirExpr::BooleanLiteral(x) => x.span,
            HirExpr::CharLiteral(x) => x.span,
            HirExpr::UnitLiteral(x) => x.span,
            HirExpr::StringLiteral(x) => x.span,
            HirExpr::ListLiteral(x) => x.span,
            HirExpr::NewArray(x) => x.span,
        }
    }

    /// The type that the expression carries.
    pub fn ty(&self) -> (r: &HirTy)
        ensures
            *r == expr_ty(*self),
            r@ == ev_ty(self@),
    {
        match self {
            HirExpr::Assign(x) => &x.ty,
            HirExpr::HirBinaryOp(x) => &x.ty,
            HirExpr::Call(x) => &x.ty,
            HirExpr::Ident(x) => &x.ty,
            HirExpr::Unary(x) => &x.ty,
            HirExpr::Casting(x) => &x.ty,
            HirExpr::Indexing(x) => &x.ty,
            HirExpr::FloatLiteral(x) => &x.ty,
            HirExpr::IntegerLiteral(x) => &x.ty,
            HirExpr::UnsignedIntegerLiteral(x) => &x.ty,
            HirExpr::BooleanLiteral(x) => &x.ty,
            HirExpr::CharLiteral(x) => &x.ty,
            HirExpr::UnitLiteral(x) => &x.ty,
            HirExpr::StringLiteral(x) => &x.ty,
            HirExpr::ListLiteral(x) => &x.ty,
            HirExpr::NewArray(x) => &x.ty,
        }
    }
}


/// An expression as a plain value: its lists sequences, its types views.
pub enum ExprView {
    Assign { span: Span, lhs: Box<ExprView>, rhs: Box<ExprView>, ty: TyView },
    Binary { span: Span, op: HirBinaryOp, op_span: Span, lhs: Box<ExprView>, rhs: Box<ExprView>, ty: TyView },
    Call { span: Span, callee: Box<ExprView>, callee_span: Span, args: Seq<ExprView>, args_ty: Seq<TyView>, ty: TyView },
    Ident { name: String, span: Span, ty: TyView },
    Unary { span: Span, op: Option<UnaryOp>, expr: Box<ExprView>, ty: TyView },
    Casting { span: Span, expr: Box<ExprView>, ty: TyView },
    Indexing { span: Span, target: Box<ExprView>, index: Box<ExprView>, ty: TyView },
    FloatLiteral { value: u64, span: Span, ty: TyView },
    IntegerLiteral { value: i64, span: Span, ty: TyView },
    UnsignedIntegerLiteral { value: u64, span: Span, ty: TyView },
    BooleanLiteral { value: bool, span: Span, ty: TyView },
    CharLiteral { value: char, span: Span, ty: TyView },
    UnitLiteral { span: Span, ty: TyView },
    StringLiteral { value: String, span: Span, ty: TyView },
    ListLiteral { span: Span, items: Seq<ExprView>, ty: TyView },
    NewArray { span: Span, size: Box<ExprView>, ty: TyView },
}

/// The plain value of an expression.
pub open spec fn expr_view(e: HirExpr) -> ExprView
    decreases e, 0int,
{
    match e {
        HirExpr::Assign(x) => ExprView::Assign {
            span: x.span, lhs: Box::new(expr_view(*x.lhs)), rhs: Box::new(expr_view(*x.rhs)), ty: ty_view(x.ty),
        },
        HirExpr::HirBinaryOp(x) => ExprView::Binary {
            span: x.span, op: x.op, op_span: x.op_span, lhs: Box::new(expr_view(*x.lhs)),
            rhs: Box::new(expr_view(*x.rhs)), ty: ty_view(x.ty),
        },
        HirExpr::Call(x) => ExprView::Call {
            span: x.span, callee: Box::new(expr_view(*x.callee)), callee_span: x.callee_span,
            args: exprs_view(x.args@, x.args@.len() as int),
            args_ty: tys_view(x.args_ty@, x.args_ty@.len() as int), ty: ty_view(x.ty),
        },
        HirExpr::Ident(x) => ExprView::Ident { name: x.name, span: x.span, ty: ty_view(x.ty) },
        HirExpr::Unary(x) => ExprView::Unary {
            span: x.span, op: x.op, expr: Box::new(expr_view(*x.expr)), ty: ty_view(x.ty),
        },
        HirExpr::Casting(x) => ExprView::Casting { span: x.span, expr: Box::new(expr_view(*x.expr)), ty: ty_view(x.ty) },
        HirExpr::Indexing(x) => ExprView::Indexing {
            span: x.span, target: Box::new(expr_view(*x.target)), index: Box::new(expr_view(*x.index)),
            ty: ty_view(x.ty),
        },
        HirExpr::FloatLiteral(x) => ExprView::FloatLiteral { value: x.value, span: x.span, ty: ty_view(x.ty) },
        HirExpr::IntegerLiteral(x) => ExprView::IntegerLiteral { value: x.value, span: x.span, ty: ty_view(x.ty) },
        HirExpr::UnsignedIntegerLiteral(x) => ExprView::UnsignedIntegerLiteral {
            value: x.value, span: x.span, ty: ty_view(x.ty),
        },
        HirExpr::BooleanLiteral(x) => ExprView::BooleanLiteral { value: x.value, span: x.span, ty: ty_view(x.ty) },
        HirExpr::CharLiteral(x) => ExprView::CharLiteral { value: x.value, span: x.span, ty: ty_view(x.ty) },
        HirExpr::UnitLiteral(x) => ExprView::UnitLiteral { span: x.span, ty: ty_view(x.ty) },
        HirExpr::StringLiteral(x) => ExprView::StringLiteral { value: x.value, span: x.span, ty: ty_view(x.ty) },
        HirExpr::ListLiteral(x) => ExprView::ListLiteral {
            span: x.span, items: exprs_view(x.items@, x.items@.len() as int), ty: ty_view(x.ty),
        },
        HirExpr::NewArray(x) => ExprView::NewArray { span: x.span, size: Box::new(expr_view(*x.size)), ty: ty_view(x.ty) },
    }
}

/// The plain values of the first `n` expressions of `es`.
pub open spec fn exprs_view(es: Seq<HirExpr>, n: int) -> Seq<ExprView>
    decreases es, n,
{
    if n <= 0 || n > es.len() {
        Seq::empty()
    } else {
        exprs_view(es, n - 1).push(expr_view(es[n - 1]))
    }
}

/// `exprs_view` keeps the length and takes each expression's view.
pub proof fn lemma_exprs_view(es: Seq<HirExpr>, n: int)
    requires
        0 <= n <= es.len(),
    ensures
        exprs_view(es, n).len() == n,
        forall|i: int| 0 <= i < n ==> #[trigger] exprs_view(es, n)[i] == expr_view(es[i]),
    decreases n,
{
    if n > 0 {
        lemma_exprs_view(es, n - 1);
    }
}

/// The view of all of `es`.
pub open spec fn all_exprs_view(es: Seq<HirExpr>) -> Seq<ExprView> {
    exprs_view(es, es.len() as int)
}

impl View for HirExpr {
    type V = ExprView;

    open spec fn view(&self) -> ExprView {
        expr_view(*self)
    }
}

/// The span of an expression's view.
pub open spec fn ev_span(e: ExprView) -> Span {
    match e {
        ExprView::Assign { span, .. } => span,
        ExprView::Binary { span, .. } => span,
        ExprView::Call { span, .. } => span,
        ExprView::Ident { span, .. } => span,
        ExprView::Unary { span, .. } => span,
        ExprView::Casting { span, .. } => span,
        ExprView::Indexing { span, .. } => span,
        ExprView::FloatLiteral { span, .. } => span,
        ExprView::IntegerLiteral { span, .. } => span,
        ExprView::UnsignedIntegerLiteral { span, .. } => span,
        ExprView::BooleanLiteral { span, .. } => span,
        ExprView::CharLiteral { span, .. } => span,
        ExprView::UnitLiteral { span, .. } => span,
        ExprView::StringLiteral { span, .. } => span,
        ExprView::ListLiteral { span, .. } => span,
        ExprView::NewArray { span, .. } => span,
    }
}

/// The type that an expression's view carries.
pub open spec fn ev_ty(e: ExprView) -> TyView {
    match e {
        ExprView::Assign { ty, .. } => ty,
        ExprView::Binary { ty, .. } => ty,
        ExprView::Call { ty, .. } => ty,
        ExprView::Ident { ty, .. } => ty,
        ExprView::Unary { ty, .. } => ty,
        ExprView::Casting { ty, .. } => ty,
        ExprView::Indexing { ty, .. } => ty,
        ExprView::FloatLiteral { ty, .. } => ty,
        ExprView::IntegerLiteral { ty, .. } => ty,
        ExprView::UnsignedIntegerLiteral { ty, .. } => ty,
        ExprView::BooleanLiteral { ty, .. } => ty,
        ExprView::CharLiteral { ty, .. } => ty,
        ExprView::UnitLiteral { ty, .. } => ty,
        ExprView::StringLiteral { ty, .. } => ty,
        ExprView::ListLiteral { ty, .. } => ty,
        ExprView::NewArray { ty, .. } => ty,
    }
}


/// Replacing one expression replaces its view.
pub proof fn lemma_exprs_view_update(es: Seq<HirExpr>, k: int, e: HirExpr)
    requires
        0 <= k < es.len(),
    ensures
        exprs_view(es.update(k, e), es.len() as int) == exprs_view(es, es.len() as int).update(k, expr_view(e)),
{
    lemma_exprs_view(es, es.len() as int);
    lemma_exprs_view(es.update(k, e), es.len() as int);
    assert(exprs_view(es.update(k, e), es.len() as int) =~= exprs_view(es, es.len() as int).update(k, expr_view(e)));
}

} // verus!
