//! Statements of the high-level intermediate representation.
use vstd::prelude::*;
use crate::span::Span;
use crate::hir::ty::{HirTy, TyView, ty_view};
use crate::hir::expr::{HirExpr, ExprView, expr_view};

verus! {

/// A statement. Most could be expression statements; blocks and returns are
/// what the structure needs.
#[derive(Debug)]
pub enum HirStatement {
    _Block(HirBlock),
    Return(HirReturn),
    Expr(HirExprStmt),
    Let(HirLetStmt),
    /// A constant: a `let` whose variable cannot be assigned.
    Const(HirLetStmt),
    IfElse(HirIfElseStmt),
    While(HirWhileStmt),
    Break(Span),
    Continue(Span),
}

/// The span of a statement.
pub open spec fn stmt_span(s: HirStatement) -> Span {
    match s {
        HirStatement::_Block(b) => b.span,
        HirStatement::Return(r) => r.span,
        HirStatement::Expr(e) => e.span,
        HirStatement::Let(l) => l.span,
        HirStatement::Const(c) => c.span,
        HirStatement::IfElse(i) => i.span,
        HirStatement::While(w) => w.span,
        HirStatement::Break(s) => s,
        HirStatement::Continue(s) => s,
    }
}

impl HirStatement {
    /// The span of the statement.
    pub fn span(&self) -> (r: Span)
        ensures
            r == stmt_span(*self),
    {
        match self {
            HirStatement::_Block(b) => b.span,
            HirStatement::Return(r) => r.span,
            HirStatement::Expr(e) => e.span,
            HirStatement::Let(l) => l.span,
            HirStatement::Const(c) => c.span,
            HirStatement::IfElse(i) => i.span,
            HirStatement::While(w) => w.span,
            HirStatement::Break(s) => *s,
            HirStatement::Continue(s) => *s,
        }
    }
}

#[derive(Debug)]
pub struct HirExprStmt {
    pub span: Span,
    pub expr: HirExpr,
}

#[derive(Debug)]
pub struct HirWhileStmt {
    pub span: Span,
    pub condition: HirExpr,
    pub body: HirBlock,
}

/// `let name: ty = value;` (the type may be left out, and is then that of the
/// value).
#[derive(Debug)]
pub struct HirLetStmt {
    pub span: Span,
    pub name: String,
    pub name_span: Span,
    pub ty: Option<HirTy>,
    pub ty_span: Option<Span>,
    pub value: HirExpr,
}

#[derive(Debug)]
pub struct HirIfElseStmt {
    pub span: Span,
    pub condition: HirExpr,
    pub then_branch: HirBlock,
    pub else_branch: Option<HirBlock>,
}

#[derive(Debug)]
pub struct HirReturn {
    pub span: Span,
    pub value: HirExpr,
    pub ty: HirTy,
}

#[derive(Debug)]
pub struct HirBlock {
    pub span: Span,
    pub statements: Vec<HirStatement>,
}


/// A `let` or a constant as a plain value.
pub struct LetView {
    pub span: Span,
    pub name: String,
    pub name_span: Span,
    pub ty: Option<TyView>,
    pub ty_span: Option<Span>,
    pub value: ExprView,
}

/// A block as a plain value.
pub struct BlockView {
    pub span: Span,
    pub statements: Seq<StmtView>,
}

/// A statement as a plain value.
pub enum StmtView {
    Block(BlockView),
    Return { span: Span, value: ExprView, ty: TyView },
    Expr { span: Span, expr: ExprView },
    Let(LetView),
    Const(LetView),
    IfElse { span: Span, condition: ExprView, then_branch: BlockView, else_branch: Option<BlockView> },
    While { span: Span, condition: ExprView, body: BlockView },
    Break(Span),
    Continue(Span),
}

/// The plain value of an optional type.
pub open spec fn opt_ty_view(t: Option<HirTy>) -> Option<TyView> {
    match t {
        Some(t) => Some(ty_view(t)),
        None => None,
    }
}

/// The plain value of a `let` or constant.
pub open spec fn let_view(l: HirLetStmt) -> LetView {
    LetView {
        span: l.span,
        name: l.name,
        name_span: l.name_span,
        ty: opt_ty_view(l.ty),
        ty_span: l.ty_span,
        value: expr_view(l.value),
    }
}

/// The plain value of a statement.
pub open spec fn stmt_view(s: HirStatement) -> StmtView
    decreases s, 0int,
{
    match s {
        HirStatement::_Block(b) => StmtView::Block(block_view(b)),
        HirStatement::Return(r) => StmtView::Return { span: r.span, value: expr_view(r.value), ty: ty_view(r.ty) },
        HirStatement::Expr(e) => StmtView::Expr { span: e.span, expr: expr_view(e.expr) },
        HirStatement::Let(l) => StmtView::Let(let_view(l)),
        HirStatement::Const(l) => StmtView::Const(let_view(l)),
        HirStatement::IfElse(i) => StmtView::IfElse {
            span: i.span,
            condition: expr_view(i.condition),
            then_branch: block_view(i.then_branch),
            else_branch: match i.else_branch {
                Some(b) => Some(block_view(b)),
                None => None,
            },
        },
        HirStatement::While(w) => StmtView::While { span: w.span, condition: expr_view(w.condition), body: block_view(w.body) },
        HirStatement::Break(s) => StmtView::Break(s),
        HirStatement::Continue(s) => StmtView::Continue(s),
    }
}

/// The plain value of a block.
pub open spec fn block_view(b: HirBlock) -> BlockView
    decreases b, 1int,
{
    BlockView { span: b.span, statements: stmts_view(b.statements@, b.statements@.len() as int) }
}

/// The plain values of the first `n` statements of `ss`.
pub open spec fn stmts_view(ss: Seq<HirStatement>, n: int) -> Seq<StmtView>
    decreases ss, n,
{
    if n <= 0 || n > ss.len() {
        Seq::empty()
    } else {
        stmts_view(ss, n - 1).push(stmt_view(ss[n - 1]))
    }
}

/// `stmts_view` keeps the length and takes each statement's view.
pub proof fn lemma_stmts_view(ss: Seq<HirStatement>, n: int)
    requires
        0 <= n <= ss.len(),
    ensures
        stmts_view(ss, n).len() == n,
        forall|i: int| 0 <= i < n ==> #[trigger] stmts_view(ss, n)[i] == stmt_view(ss[i]),
    decreases n,
{
    if n > 0 {
        lemma_stmts_view(ss, n - 1);
    }
}

impl View for HirStatement {
    type V = StmtView;

    open spec fn view(&self) -> StmtView {
        stmt_view(*self)
    }
}

impl View for HirBlock {
    type V = BlockView;

    open spec fn view(&self) -> BlockView {
        block_view(*self)
    }
}

/// The span of a statement's view.
pub open spec fn sv_span(s: StmtView) -> Span {
    match s {
        StmtView::Block(b) => b.span,
        StmtView::Return { span, .. } => span,
        StmtView::Expr { span, .. } => span,
        StmtView::Let(l) => l.span,
        StmtView::Const(l) => l.span,
        StmtView::IfElse { span, .. } => span,
        StmtView::While { span, .. } => span,
        StmtView::Break(s) => s,
        StmtView::Continue(s) => s,
    }
}


/// Replacing one statement replaces its view.
pub proof fn lemma_stmts_view_update(ss: Seq<HirStatement>, k: int, st: HirStatement)
    requires
        0 <= k < ss.len(),
    ensures
        stmts_view(ss.update(k, st), ss.len() as int) == stmts_view(ss, ss.len() as int).update(k, stmt_view(st)),
{
    lemma_stmts_view(ss, ss.len() as int);
    lemma_stmts_view(ss.update(k, st), ss.len() as int);
    assert(stmts_view(ss.update(k, st), ss.len() as int) =~= stmts_view(ss, ss.len() as int).update(k, stmt_view(st)));
}

} // verus!
