//! The type checker: it computes the type of each expression of a module,
//! writes down the types that the code generator reads (of variables, of
//! binary operations, of `let` bindings), and reports the first mismatch.
use vstd::prelude::*;
use crate::span::Span;
use crate::hir::ty::{HirTy, HirTyId, TyView, ty_id, ty_text, ty_view, tys_view, lemma_tys_view, HirIntegerTy, HirFloatTy, HirUnsignedIntTy, HirBooleanTy, HirUnitTy, HirCharTy, HirStringTy, HirListTy, HirFunctionTy};
use crate::hir::ops::{HirBinaryOp, UnaryOp};
use crate::hir::expr::{HirExpr, ExprView, ev_span, ev_ty, exprs_view, lemma_exprs_view, expr_view, lemma_exprs_view_update, HirFunctionCallExpr};
use crate::hir::stmt::{HirStatement, HirBlock, HirLetStmt, StmtView, BlockView, LetView, stmts_view, lemma_stmts_view, stmt_view, block_view, let_view, lemma_stmts_view_update};
use crate::hir::signature::{HirModuleSignature, HirFunctionSignature, HirFunctionParameterSignature, SigView, ParamView, param_views};
use crate::hir::item::{HirModule, HirFunction};
use crate::hir::names::{lookup, ordered};
use crate::hir::error::{HirError, HirResult, ErrView};

verus! {

/// A variable of a scope, as a plain value.
pub struct VarView {
    pub name: String,
    pub name_span: Span,
    pub ty: TyView,
    pub ty_span: Span,
    pub is_mut: bool,
    pub span: Span,
}

/// The first variable of a scope with that name.
pub open spec fn scope_find(sc: Seq<VarView>, name: Seq<char>) -> Option<VarView>
    decreases sc.len(),
{
    if sc.len() == 0 {
        None
    } else if sc[0].name@ == name {
        Some(sc[0])
    } else {
        scope_find(sc.drop_first(), name)
    }
}

/// The variable that `name` denotes: that of the innermost of the first `k`
/// scopes that has one.
pub open spec fn find_var(scopes: Seq<Seq<VarView>>, name: Seq<char>, k: int) -> Option<VarView>
    decreases k,
{
    if k <= 0 || k > scopes.len() {
        None
    } else {
        match scope_find(scopes[k - 1], name) {
            Some(v) => Some(v),
            None => find_var(scopes, name, k - 1),
        }
    }
}

/// The variable that `name` denotes in `scopes`.
pub open spec fn lookup_var(scopes: Seq<Seq<VarView>>, name: Seq<char>) -> Option<VarView> {
    find_var(scopes, name, scopes.len() as int)
}

/// The index of the first variable of a scope with that name, if any.
pub open spec fn scope_index(sc: Seq<VarView>, name: Seq<char>) -> Option<int>
    decreases sc.len(),
{
    if sc.len() == 0 {
        None
    } else if sc[0].name@ == name {
        Some(0)
    } else {
        match scope_index(sc.drop_first(), name) {
            Some(i) => Some(i + 1),
            None => None,
        }
    }
}

/// A scope after declaring `v`: it replaces the variable of that name, if any.
pub open spec fn scope_insert(sc: Seq<VarView>, v: VarView) -> Seq<VarView> {
    match scope_index(sc, v.name@) {
        Some(i) => sc.update(i, v),
        None => sc.push(v),
    }
}

/// Scopes after declaring `v` in the innermost one.
pub open spec fn declare(scopes: Seq<Seq<VarView>>, v: VarView) -> Seq<Seq<VarView>> {
    scopes.update(scopes.len() - 1, scope_insert(scopes.last(), v))
}

/// Where a scope has a variable of a name, the index of the first is in range.
pub proof fn lemma_scope_index_bound(sc: Seq<VarView>, name: Seq<char>)
    ensures
        scope_index(sc, name) matches Some(i) ==> 0 <= i < sc.len(),
    decreases sc.len(),
{
    if sc.len() > 0 {
        lemma_scope_index_bound(sc.drop_first(), name);
    }
}

/// The type of a binary operation on two operands of one type: every
/// comparison (`==`, `!=`, `<`, `<=`, `>`, `>=`) and `&&`, `||` are booleans;
/// `+`, `-`, `*`, `/` and `%` have the operands' type.
pub proof fn law_binary_types(sig: Seq<(String, SigView)>, ctx: Option<Seq<Seq<VarView>>>, span: Span, op: HirBinaryOp, op_span: Span, lhs: ExprView, rhs: ExprView, ty: TyView)
    requires
        check_expr(sig, ctx, lhs) is Some,
        check_expr(sig, ctx, lhs).unwrap().res is Ok,
        check_expr(sig, ctx, rhs) is Some,
        check_expr(sig, ctx, rhs).unwrap().res is Ok,
        ty_id(check_expr(sig, ctx, lhs).unwrap().res->Ok_0) == ty_id(check_expr(sig, ctx, rhs).unwrap().res->Ok_0),
    ensures
        check_expr(sig, ctx, ExprView::Binary { span, op, op_span, lhs: Box::new(lhs), rhs: Box::new(rhs), ty }) is Some,
        (op is Eq || op is Neq || op is Lt || op is Lte || op is Gt || op is Gte || op is And || op is Or)
            ==> check_expr(sig, ctx, ExprView::Binary { span, op, op_span, lhs: Box::new(lhs), rhs: Box::new(rhs), ty }).unwrap().res
                == Ok::<TyView, ErrView>(TyView::Boolean),
        (op is Add || op is Sub || op is Mul || op is Div || op is Mod)
            ==> check_expr(sig, ctx, ExprView::Binary { span, op, op_span, lhs: Box::new(lhs), rhs: Box::new(rhs), ty }).unwrap().res
                == check_expr(sig, ctx, lhs).unwrap().res,
{
}

/// A scope after `v` is put in it holds `v` under its name.
pub proof fn lemma_scope_find_inserted(sc: Seq<VarView>, v: VarView)
    ensures
        scope_find(scope_insert(sc, v), v.name@) == Some(v),
    decreases sc.len(),
{
    if sc.len() > 0 {
        let t = sc.drop_first();
        lemma_scope_find_inserted(t, v);
        if sc[0].name@ != v.name@ {
            match scope_index(t, v.name@) {
                Some(i) => {
                    lemma_scope_index_bound(t, v.name@);
                    assert(scope_index(sc, v.name@) == Some(i + 1));
                    assert(scope_insert(sc, v).drop_first() =~= scope_insert(t, v));
                },
                None => {
                    assert(scope_insert(sc, v).drop_first() =~= scope_insert(t, v));
                },
            }
        }
    }
}

/// A variable declared in the innermost scope is what its name denotes.
pub proof fn law_declared_variable_is_found(scopes: Seq<Seq<VarView>>, v: VarView)
    requires
        scopes.len() >= 1,
    ensures
        lookup_var(declare(scopes, v), v.name@) == Some(v),
{
    lemma_scope_find_inserted(scopes.last(), v);
    assert(declare(scopes, v)[scopes.len() - 1] == scope_insert(scopes.last(), v));
}

/// Leaving a scope undoes entering it: the variables declared inside are
/// gone and the outer scopes are as they were.
pub proof fn law_leave_undoes_enter(scopes: Seq<Seq<VarView>>, declared: Seq<VarView>)
    requires
        scopes.len() >= 1,
    ensures
        leave(Some(scopes.push(Seq::<VarView>::empty()))) == Some(scopes),
        leave(Some(scopes.push(declared))) == Some(scopes),
{
    assert(scopes.push(Seq::<VarView>::empty()).drop_last() =~= scopes);
    assert(scopes.push(declared).drop_last() =~= scopes);
}

/// What checking an expression gives: the expression with the types that the
/// checker writes down, and its type or the error.
pub struct Checked {
    pub expr: ExprView,
    pub res: Result<TyView, ErrView>,
}

/// Types whose values can be cast.
pub open spec fn castable(t: TyView) -> bool {
    t is Int64 || t is Float64 || t is UInt64 || t is Boolean || t is Char || t is String
}

/// Operators whose result is a boolean.
pub open spec fn is_condition(op: HirBinaryOp) -> bool {
    op is And || op is Eq || op is Neq || op is Or || op is Gt || op is Gte || op is Lt || op is Lte
}

/// The name of the type parameter that a parameter type is made of, if any
/// (`T` in `T` and in `[T]`).
pub open spec fn generic_name(t: TyView) -> Option<String>
    decreases t,
{
    match t {
        TyView::List(inner) => generic_name(*inner),
        TyView::Named(n, _) => Some(n),
        _ => None,
    }
}

/// A return type with its type parameter replaced by `actual`.
pub open spec fn generic_ret_ty(t: TyView, actual: TyView) -> TyView
    decreases t,
{
    match t {
        TyView::List(inner) => TyView::List(Box::new(generic_ret_ty(*inner, actual))),
        _ => actual,
    }
}

/// The type that a type parameter stands for, where a parameter of type `t`
/// is given a value of type `given`.
pub open spec fn generic_ty(t: TyView, given: TyView) -> Option<TyView>
    decreases t,
{
    match (t, given) {
        (TyView::List(a), TyView::List(b)) => generic_ty(*a, *b),
        (TyView::Named(_, _), _) => Some(given),
        _ => None,
    }
}

/// The text of a function's type: its parameter types and its return type.
pub open spec fn fn_text(f: SigView) -> Seq<char> {
    ty_text(TyView::Function(Box::new(f.return_ty), f.params.map_values(|p: ParamView| p.ty)))
}

/// A mismatch between an actual and an expected type.
pub open spec fn mismatch(actual: TyView, actual_loc: Span, expected: Seq<char>, expected_loc: Span) -> ErrView {
    ErrView::TypeMismatch { actual_type: ty_text(actual), actual_loc, expected_type: expected, expected_loc }
}

/// What checking the first `n` arguments of a call gives: the arguments (the
/// first ones checked), their types, and the error, if any. Where `params` is
/// given, each argument must have the type of its parameter.
pub struct CheckedArgs {
    pub args: Seq<ExprView>,
    pub tys: Seq<TyView>,
    pub err: Option<ErrView>,
}

/// Checking the first `n` arguments of `args`, in order, until one fails.
pub open spec fn check_args(sig: Seq<(String, SigView)>, ctx: Option<Seq<Seq<VarView>>>, args: Seq<ExprView>, n: int, params: Option<Seq<ParamView>>) -> Option<CheckedArgs>
    decreases args, n,
{
    if n <= 0 || n > args.len() {
        Some(CheckedArgs { args, tys: Seq::empty(), err: None })
    } else {
        match check_args(sig, ctx, args, n - 1, params) {
            None => None,
            Some(p) => if p.err is Some {
                Some(p)
            } else {
                match check_expr(sig, ctx, args[n - 1]) {
                    None => None,
                    Some(c) => {
                        let a2 = p.args.update(n - 1, c.expr);
                        match c.res {
                            Err(e) => Some(CheckedArgs { args: a2, tys: p.tys, err: Some(e) }),
                            Ok(t) => match params {
                                Some(ps) => if n - 1 < ps.len() && ty_id(t) != ty_id(ps[n - 1].ty) {
                                    Some(CheckedArgs {
                                        args: a2,
                                        tys: p.tys.push(t),
                                        err: Some(mismatch(t, ev_span(c.expr), ty_text(ps[n - 1].ty), ps[n - 1].span)),
                                    })
                                } else {
                                    Some(CheckedArgs { args: a2, tys: p.tys.push(t), err: None })
                                },
                                None => Some(CheckedArgs { args: a2, tys: p.tys.push(t), err: None }),
                            },
                        }
                    },
                }
            },
        }
    }
}

/// The type parameters that the first `n` parameters of an external function
/// are given, with the types they stand for; or the mismatch of the first
/// argument whose type does not fit its parameter.
pub open spec fn bind_generics(params: Seq<ParamView>, tys: Seq<TyView>, args: Seq<ExprView>, n: int) -> Result<Seq<(String, TyView)>, ErrView>
    decreases n,
{
    if n <= 0 || n > params.len() || n > tys.len() || n > args.len() {
        Ok(Seq::empty())
    } else {
        match bind_generics(params, tys, args, n - 1) {
            Err(e) => Err(e),
            Ok(gs) => match generic_name(params[n - 1].ty) {
                None => Ok(gs),
                Some(name) => match generic_ty(params[n - 1].ty, tys[n - 1]) {
                    None => Err(mismatch(tys[n - 1], ev_span(args[n - 1]), ty_text(params[n - 1].ty), params[n - 1].span)),
                    Some(t) => Ok(gs.push((name, t))),
                },
            },
        }
    }
}

/// The type bound to the first type parameter of that name.
pub open spec fn find_generic(gs: Seq<(String, TyView)>, name: Seq<char>) -> Option<TyView>
    decreases gs.len(),
{
    if gs.len() == 0 {
        None
    } else if gs[0].0@ == name {
        Some(gs[0].1)
    } else {
        find_generic(gs.drop_first(), name)
    }
}

/// The return type of a call of the external function `f` with arguments of
/// types `tys`; `None` where the return type names a type parameter that no
/// parameter binds (the checker stops there).
pub open spec fn extern_ret(f: SigView, tys: Seq<TyView>, args: Seq<ExprView>) -> Option<Result<TyView, ErrView>> {
    let n = if f.params.len() <= tys.len() { f.params.len() as int } else { tys.len() as int };
    match bind_generics(f.params, tys, args, n) {
        Err(e) => Some(Err(e)),
        Ok(gs) => match generic_name(f.return_ty) {
            None => Some(Ok(f.return_ty)),
            Some(name) => match find_generic(gs, name@) {
                None => None,
                Some(t) => Some(Ok(generic_ret_ty(f.return_ty, t))),
            },
        },
    }
}

/// The expression with its result set from a checked part.
pub open spec fn with(expr: ExprView, res: Result<TyView, ErrView>) -> Option<Checked> {
    Some(Checked { expr, res })
}

/// Checking a call of an external function with type parameters: every
/// argument, then the type parameters bound from the arguments' types, which
/// give the return type.
pub open spec fn extern_call(sig: Seq<(String, SigView)>, ctx: Option<Seq<Seq<VarView>>>, e: ExprView, f: SigView) -> Option<Checked>
    decreases e, 0int,
{
    match e {
        ExprView::Call { span, callee, callee_span, args, args_ty, ty } => match check_args(sig, ctx, args, args.len() as int, None) {
            None => None,
            Some(p) => {
                let e2 = ExprView::Call { span, callee, callee_span, args: p.args, args_ty, ty };
                match p.err {
                    Some(err) => with(e2, Err(err)),
                    None => match extern_ret(f, p.tys, p.args) {
                        None => None,
                        Some(r) => with(e2, r),
                    },
                }
            },
        },
        _ => None,
    }
}

/// Checking a call (see `check_expr`).
pub open spec fn check_call(sig: Seq<(String, SigView)>, ctx: Option<Seq<Seq<VarView>>>, e: ExprView) -> Option<Checked>
    decreases e, 1int,
{
    match e {
        ExprView::Call { span, callee, callee_span, args, args_ty, ty } => match *callee {
            ExprView::Ident { name, .. } => match lookup(sig, name@) {
                None => with(e, Err(ErrView::UnknownType { name: name@, span })),
                Some(f) => {
                    if f.params.len() != args.len() {
                        with(e, Err(ErrView::FunctionTypeMismatch { expected_ty: fn_text(f), span }))
                    } else if f.is_external && f.generics is Some {
                        extern_call(sig, ctx, e, f)
                    } else {
                        match check_args(sig, ctx, args, args.len() as int, Some(f.params)) {
                            None => None,
                            Some(p) => {
                                let e2 = ExprView::Call { span, callee, callee_span, args: p.args, args_ty, ty };
                                match p.err {
                                    Some(err) => with(e2, Err(err)),
                                    None => with(e2, Ok(f.return_ty)),
                                }
                            },
                        }
                    }
                },
            },
            _ => None,
        },
        _ => None,
    }
}

/// Checking the items of a list literal after the first, against the type
/// `t0` of the first: the first `n` items, in order, until one fails.
pub open spec fn check_items(sig: Seq<(String, SigView)>, ctx: Option<Seq<Seq<VarView>>>, items: Seq<ExprView>, n: int, t0: TyView, span: Span) -> Option<CheckedArgs>
    decreases items, n,
{
    if n <= 1 || n > items.len() {
        Some(CheckedArgs { args: items, tys: Seq::empty(), err: None })
    } else {
        match check_items(sig, ctx, items, n - 1, t0, span) {
            None => None,
            Some(p) => if p.err is Some {
                Some(p)
            } else {
                match check_expr(sig, ctx, items[n - 1]) {
                    None => None,
                    Some(c) => {
                        let a2 = p.args.update(n - 1, c.expr);
                        match c.res {
                            Err(e) => Some(CheckedArgs { args: a2, tys: p.tys, err: Some(e) }),
                            Ok(t) => if ty_id(t) != ty_id(t0) {
                                Some(CheckedArgs { args: a2, tys: p.tys, err: Some(mismatch(t, ev_span(c.expr), ty_text(t0), span)) })
                            } else {
                                Some(CheckedArgs { args: a2, tys: p.tys, err: None })
                            },
                        }
                    },
                }
            },
        }
    }
}

/// Checking the items of a list literal: the first gives the type that the
/// others must have. The items with the types written down, and the list's
/// type or the first error.
pub open spec fn check_list_items(sig: Seq<(String, SigView)>, ctx: Option<Seq<Seq<VarView>>>, items: Seq<ExprView>, span: Span) -> Option<(Seq<ExprView>, Result<TyView, ErrView>)>
    decreases items, items.len() + 1,
{
    if items.len() == 0 {
        None
    } else {
        match check_expr(sig, ctx, items[0]) {
            None => None,
            Some(c0) => match c0.res {
                Err(x) => Some((items.update(0, c0.expr), Err(x))),
                Ok(t0) => match check_items(sig, ctx, items, items.len() as int, t0, span) {
                    None => None,
                    Some(p) => Some((p.args.update(0, c0.expr), match p.err {
                        Some(x) => Err(x),
                        None => Ok(TyView::List(Box::new(t0))),
                    })),
                },
            },
        }
    }
}

/// Checking an expression in the variables `ctx` (`None` where no function is
/// being checked) and the functions `sig`: the expression with the types that
/// the checker writes down (of variables and of binary operations), and its
/// type or the first error; `None` where the checker stops without a result.
pub open spec fn check_expr(sig: Seq<(String, SigView)>, ctx: Option<Seq<Seq<VarView>>>, e: ExprView) -> Option<Checked>
    decreases e, 2int,
{
    match e {
        ExprView::IntegerLiteral { .. } => with(e, Ok(TyView::Int64)),
        ExprView::FloatLiteral { .. } => with(e, Ok(TyView::Float64)),
        ExprView::UnsignedIntegerLiteral { .. } => with(e, Ok(TyView::UInt64)),
        ExprView::BooleanLiteral { .. } => with(e, Ok(TyView::Boolean)),
        ExprView::UnitLiteral { .. } => with(e, Ok(TyView::Unit)),
        ExprView::CharLiteral { .. } => with(e, Ok(TyView::Char)),
        ExprView::StringLiteral { .. } => with(e, Ok(TyView::String)),
        ExprView::NewArray { span, size, ty } => match check_expr(sig, ctx, *size) {
            None => None,
            Some(c) => {
                let e2 = ExprView::NewArray { span, size: Box::new(c.expr), ty };
                match c.res {
                    Err(x) => with(e2, Err(x)),
                    Ok(st) => if ty_id(st) != ty_id(TyView::UInt64) && ty_id(st) != ty_id(TyView::Int64) {
                        with(e2, Err(mismatch(st, ev_span(c.expr), "uint64 or int64"@, ev_span(c.expr))))
                    } else {
                        with(e2, Ok(ty))
                    },
                }
            },
        },
        ExprView::ListLiteral { span, items, ty } => if items.len() == 0 {
            with(e, Err(ErrView::EmptyListLiteral { span }))
        } else {
            match check_list_items(sig, ctx, items, span) {
                None => None,
                Some((its, r)) => with(ExprView::ListLiteral { span, items: its, ty }, r),
            }
        },
        ExprView::Unary { span, op, expr, ty } => match check_expr(sig, ctx, *expr) {
            None => None,
            Some(c) => {
                let e2 = ExprView::Unary { span, op, expr: Box::new(c.expr), ty };
                match c.res {
                    Err(x) => with(e2, Err(x)),
                    Ok(t) => if op == Some(UnaryOp::Neg) && ty_id(t) != ty_id(TyView::Int64) {
                        with(e2, Err(ErrView::TryingToNegateUnsigned { span: ev_span(c.expr) }))
                    } else {
                        with(e2, Ok(t))
                    },
                }
            },
        },
        ExprView::Casting { span, expr, ty } => match check_expr(sig, ctx, *expr) {
            None => None,
            Some(c) => {
                let e2 = ExprView::Casting { span, expr: Box::new(c.expr), ty };
                match c.res {
                    Err(x) => with(e2, Err(x)),
                    Ok(t) => if !castable(t) {
                        with(e2, Err(mismatch(t, ev_span(c.expr), "int64, float64, uint64, Bool or str"@, ev_span(c.expr))))
                    } else {
                        with(e2, Ok(ty))
                    },
                }
            },
        },
        ExprView::Indexing { span, target, index, ty } => match check_expr(sig, ctx, *target) {
            None => None,
            Some(ct) => match ct.res {
                Err(x) => with(ExprView::Indexing { span, target: Box::new(ct.expr), index, ty }, Err(x)),
                Ok(tt) => match check_expr(sig, ctx, *index) {
                    None => None,
                    Some(ci) => {
                        let e2 = ExprView::Indexing { span, target: Box::new(ct.expr), index: Box::new(ci.expr), ty };
                        match ci.res {
                            Err(x) => with(e2, Err(x)),
                            Ok(ti) => if ty_id(ti) != ty_id(TyView::UInt64) && ty_id(ti) != ty_id(TyView::Int64) {
                                with(e2, Err(mismatch(ti, ev_span(ci.expr), "uint64"@, ev_span(ci.expr))))
                            } else {
                                match tt {
                                    TyView::List(inner) => with(e2, Ok(*inner)),
                                    _ => None,
                                }
                            },
                        }
                    },
                },
            },
        },
        ExprView::Binary { span, op, op_span, lhs, rhs, ty } => match check_expr(sig, ctx, *lhs) {
            None => None,
            Some(cl) => match cl.res {
                Err(x) => with(ExprView::Binary { span, op, op_span, lhs: Box::new(cl.expr), rhs, ty }, Err(x)),
                Ok(lt) => match check_expr(sig, ctx, *rhs) {
                    None => None,
                    Some(cr) => {
                        let e2 = ExprView::Binary { span, op, op_span, lhs: Box::new(cl.expr), rhs: Box::new(cr.expr), ty: lt };
                        match cr.res {
                            Err(x) => with(e2, Err(x)),
                            Ok(rt) => if ty_id(lt) != ty_id(rt) {
                                with(e2, Err(mismatch(lt, ev_span(cl.expr), ty_text(rt), ev_span(cr.expr))))
                            } else if is_condition(op) {
                                with(e2, Ok(TyView::Boolean))
                            } else {
                                with(e2, Ok(lt))
                            },
                        }
                    },
                },
            },
        },
        ExprView::Call { .. } => check_call(sig, ctx, e),
        ExprView::Assign { span, lhs, rhs, ty } => match check_expr(sig, ctx, *rhs) {
            None => None,
            Some(cr) => match cr.res {
                Err(x) => with(ExprView::Assign { span, lhs, rhs: Box::new(cr.expr), ty }, Err(x)),
                Ok(rt) => match check_expr(sig, ctx, *lhs) {
                    None => None,
                    Some(cl) => {
                        let e2 = ExprView::Assign { span, lhs: Box::new(cl.expr), rhs: Box::new(cr.expr), ty };
                        match cl.res {
                            Err(x) => with(e2, Err(x)),
                            Ok(lt) => if ty_id(lt) != ty_id(rt) {
                                with(e2, Err(mismatch(rt, ev_span(cr.expr), ty_text(lt), ev_span(cl.expr))))
                            } else {
                                with(e2, Ok(lt))
                            },
                        }
                    },
                },
            },
        },
        ExprView::Ident { name, span, ty } => match ctx {
            None => None,
            Some(scopes) => match lookup_var(scopes, name@) {
                Some(v) => with(ExprView::Ident { name, span, ty: v.ty }, Ok(v.ty)),
                None => with(e, Err(ErrView::UnknownType { name: name@, span })),
            },
        },
    }
}


/// The signatures of a module's functions, by name, as plain values.
pub open spec fn sig_view(m: HirModuleSignature) -> Seq<(String, SigView)> {
    m.functions.entries().map_values(|e: (String, HirFunctionSignature)| (e.0, e.1@))
}

/// Looking a name up among the plain values finds the plain value of what
/// looking it up among the signatures finds.
pub proof fn lemma_lookup_view(s: Seq<(String, HirFunctionSignature)>, k: Seq<char>)
    ensures
        lookup(s.map_values(|e: (String, HirFunctionSignature)| (e.0, e.1@)), k) == match lookup(s, k) {
            Some(f) => Some(f@),
            None => None::<SigView>,
        },
    decreases s.len(),
{
    let t = s.map_values(|e: (String, HirFunctionSignature)| (e.0, e.1@));
    if s.len() > 0 {
        assert(t.drop_first() =~= s.drop_first().map_values(|e: (String, HirFunctionSignature)| (e.0, e.1@)));
        lemma_lookup_view(s.drop_first(), k);
    }
}

/// What checking a statement gives: the variables after it, the statement with
/// the types written down, and the error, if any.
pub struct CheckedStmt {
    pub ctx: Option<Seq<Seq<VarView>>>,
    pub stmt: StmtView,
    pub err: Option<ErrView>,
}

/// What checking statements gives.
pub struct CheckedStmts {
    pub ctx: Option<Seq<Seq<VarView>>>,
    pub stmts: Seq<StmtView>,
    pub err: Option<ErrView>,
}

/// The error of a result, if any.
pub open spec fn err_of(r: Result<TyView, ErrView>) -> Option<ErrView> {
    match r {
        Ok(_) => None,
        Err(e) => Some(e),
    }
}

/// Leaving the innermost scope; `None` where fewer than two are open (the
/// checker stops there).
pub open spec fn leave(ctx: Option<Seq<Seq<VarView>>>) -> Option<Seq<Seq<VarView>>> {
    match ctx {
        Some(sc) => if sc.len() >= 2 { Some(sc.drop_last()) } else { None },
        None => None,
    }
}

/// Checking a `let` (`is_mut`) or a constant: the value, then the variable
/// declared with the given type or else the value's, then the two compared.
pub open spec fn check_let(sig: Seq<(String, SigView)>, ctx: Option<Seq<Seq<VarView>>>, l: LetView, is_mut: bool) -> Option<(Option<Seq<Seq<VarView>>>, LetView, Option<ErrView>)> {
    match check_expr(sig, ctx, l.value) {
        None => None,
        Some(c) => match c.res {
            Err(x) => Some((ctx, LetView { value: c.expr, ..l }, Some(x))),
            Ok(et) => {
                let var_ty = match l.ty {
                    Some(t) => t,
                    None => et,
                };
                let l2 = LetView { ty: Some(var_ty), value: c.expr, ..l };
                match ctx {
                    None => None,
                    Some(sc) => if sc.len() == 0 {
                        None
                    } else {
                        let v = VarView {
                            name: l.name,
                            name_span: l.name_span,
                            ty: var_ty,
                            ty_span: match l.ty_span {
                                Some(t) => t,
                                None => l.name_span,
                            },
                            is_mut,
                            span: l.span,
                        };
                        let ctx2 = Some(declare(sc, v));
                        if ty_id(et) != ty_id(var_ty) {
                            let loc = if is_mut { l.name_span } else { Span { start: l.span.start, end: l.name_span.end } };
                            Some((ctx2, l2, Some(mismatch(et, ev_span(c.expr), ty_text(var_ty), loc))))
                        } else {
                            Some((ctx2, l2, None))
                        }
                    },
                }
            },
        },
    }
}

/// Checking a condition, which must be a boolean.
pub open spec fn check_condition(sig: Seq<(String, SigView)>, ctx: Option<Seq<Seq<VarView>>>, cond: ExprView) -> Option<(ExprView, Option<ErrView>)> {
    match check_expr(sig, ctx, cond) {
        None => None,
        Some(c) => match c.res {
            Err(x) => Some((c.expr, Some(x))),
            Ok(ct) => if ty_id(ct) != ty_id(TyView::Boolean) {
                Some((c.expr, Some(mismatch(ct, ev_span(c.expr), "bool"@, ev_span(c.expr)))))
            } else {
                Some((c.expr, None))
            },
        },
    }
}

/// Checking a block in a scope of its own: the scope is opened, the block
/// checked, and the scope closed where the block is right. The variables
/// after it, the block, and the error, if any.
pub open spec fn scoped_block(sig: Seq<(String, SigView)>, cur: Option<String>, ctx: Option<Seq<Seq<VarView>>>, b: BlockView) -> Option<(Option<Seq<Seq<VarView>>>, BlockView, Option<ErrView>)>
    decreases b, 2int,
{
    match ctx {
        None => None,
        Some(sc) => match check_block(sig, cur, Some(sc.push(Seq::empty())), b) {
            None => None,
            Some(cb) => {
                let b2 = BlockView { span: b.span, statements: cb.stmts };
                if cb.err is Some {
                    Some((cb.ctx, b2, cb.err))
                } else {
                    match leave(cb.ctx) {
                        None => None,
                        Some(sc2) => Some((Some(sc2), b2, None)),
                    }
                }
            },
        },
    }
}

/// Checking `while condition { body }`: a boolean condition, and the body in
/// a scope of its own.
pub open spec fn check_while(sig: Seq<(String, SigView)>, cur: Option<String>, ctx: Option<Seq<Seq<VarView>>>, s: StmtView) -> Option<CheckedStmt>
    decreases s, 0int,
{
    match s {
        StmtView::While { span, condition, body } => match check_condition(sig, ctx, condition) {
            None => None,
            Some((c, cerr)) => if cerr is Some {
                Some(CheckedStmt { ctx, stmt: StmtView::While { span, condition: c, body }, err: cerr })
            } else {
                match scoped_block(sig, cur, ctx, body) {
                    None => None,
                    Some((ctx2, b2, err)) => Some(CheckedStmt { ctx: ctx2, stmt: StmtView::While { span, condition: c, body: b2 }, err }),
                }
            },
        },
        _ => None,
    }
}

/// The `else` part of an `if`: the block, where there is one, in a scope of
/// its own.
pub open spec fn check_else(sig: Seq<(String, SigView)>, cur: Option<String>, ctx: Option<Seq<Seq<VarView>>>, e: Option<BlockView>) -> Option<(Option<Seq<Seq<VarView>>>, Option<BlockView>, Option<ErrView>)>
    decreases e, 3int,
{
    match e {
        None => Some((ctx, None, None)),
        Some(eb) => match scoped_block(sig, cur, ctx, eb) {
            None => None,
            Some((ctx2, e2, err)) => Some((ctx2, Some(e2), err)),
        },
    }
}

/// Checking `if condition { then } else { else }`: a boolean condition, and
/// each block in a scope of its own.
pub open spec fn check_if(sig: Seq<(String, SigView)>, cur: Option<String>, ctx: Option<Seq<Seq<VarView>>>, s: StmtView) -> Option<CheckedStmt>
    decreases s, 0int,
{
    match s {
        StmtView::IfElse { span, condition, then_branch, else_branch } => match check_condition(sig, ctx, condition) {
            None => None,
            Some((c, cerr)) => if cerr is Some {
                Some(CheckedStmt { ctx, stmt: StmtView::IfElse { span, condition: c, then_branch, else_branch }, err: cerr })
            } else {
                match scoped_block(sig, cur, ctx, then_branch) {
                    None => None,
                    Some((ctx1, t2, terr)) => if terr is Some {
                        Some(CheckedStmt { ctx: ctx1, stmt: StmtView::IfElse { span, condition: c, then_branch: t2, else_branch }, err: terr })
                    } else {
                        match check_else(sig, cur, ctx1, else_branch) {
                            None => None,
                            Some((ctx2, e2, eerr)) => Some(CheckedStmt {
                                ctx: ctx2,
                                stmt: StmtView::IfElse { span, condition: c, then_branch: t2, else_branch: e2 },
                                err: eerr,
                            }),
                        }
                    },
                }
            },
        },
        _ => None,
    }
}

/// Checking a statement of the function named `cur`.
pub open spec fn check_stmt(sig: Seq<(String, SigView)>, cur: Option<String>, ctx: Option<Seq<Seq<VarView>>>, s: StmtView) -> Option<CheckedStmt>
    decreases s, 1int,
{
    match s {
        StmtView::Expr { span, expr } => match check_expr(sig, ctx, expr) {
            None => None,
            Some(c) => Some(CheckedStmt { ctx, stmt: StmtView::Expr { span, expr: c.expr }, err: err_of(c.res) }),
        },
        StmtView::Return { span, value, ty } => match check_expr(sig, ctx, value) {
            None => None,
            Some(c) => {
                let s2 = StmtView::Return { span, value: c.expr, ty };
                match c.res {
                    Err(x) => Some(CheckedStmt { ctx, stmt: s2, err: Some(x) }),
                    Ok(at) => match cur {
                        None => None,
                        Some(name) => match lookup(sig, name@) {
                            None => None,
                            Some(f) => if ty_id(at) != ty_id(f.return_ty) {
                                let loc = match f.return_ty_span {
                                    Some(sp) => sp,
                                    None => span,
                                };
                                Some(CheckedStmt { ctx, stmt: s2, err: Some(mismatch(at, ev_span(c.expr), ty_text(f.return_ty), loc)) })
                            } else {
                                Some(CheckedStmt { ctx, stmt: s2, err: None })
                            },
                        },
                    },
                }
            },
        },
        StmtView::While { .. } => check_while(sig, cur, ctx, s),
        StmtView::IfElse { .. } => check_if(sig, cur, ctx, s),
        StmtView::Let(l) => match check_let(sig, ctx, l, true) {
            None => None,
            Some((ctx2, l2, err)) => Some(CheckedStmt { ctx: ctx2, stmt: StmtView::Let(l2), err }),
        },
        StmtView::Const(l) => match check_let(sig, ctx, l, false) {
            None => None,
            Some((ctx2, l2, err)) => Some(CheckedStmt { ctx: ctx2, stmt: StmtView::Const(l2), err }),
        },
        _ => None,
    }
}

/// Checking the statements of a block, in order, until one fails.
pub open spec fn check_block(sig: Seq<(String, SigView)>, cur: Option<String>, ctx: Option<Seq<Seq<VarView>>>, b: BlockView) -> Option<CheckedStmts>
    decreases b, 1int,
{
    check_stmts(sig, cur, ctx, b.statements, b.statements.len() as int)
}

/// Checking the first `n` statements of `ss`, in order, until one fails.
pub open spec fn check_stmts(sig: Seq<(String, SigView)>, cur: Option<String>, ctx: Option<Seq<Seq<VarView>>>, ss: Seq<StmtView>, n: int) -> Option<CheckedStmts>
    decreases ss, n,
{
    if n <= 0 || n > ss.len() {
        Some(CheckedStmts { ctx, stmts: ss, err: None })
    } else {
        match check_stmts(sig, cur, ctx, ss, n - 1) {
            None => None,
            Some(p) => if p.err is Some {
                Some(p)
            } else {
                match check_stmt(sig, cur, p.ctx, ss[n - 1]) {
                    None => None,
                    Some(c) => Some(CheckedStmts { ctx: c.ctx, stmts: p.stmts.update(n - 1, c.stmt), err: c.err }),
                }
            },
        }
    }
}

/// Two variable contexts with the same number of scopes that agree on all but
/// the innermost one.
pub open spec fn same_outer(a: Option<Seq<Seq<VarView>>>, b: Option<Seq<Seq<VarView>>>) -> bool {
    &&& a is Some
    &&& b is Some
    &&& b.unwrap().len() == a.unwrap().len()
    &&& forall|i: int| 0 <= i < a.unwrap().len() - 1 ==> #[trigger] b.unwrap()[i] == a.unwrap()[i]
}

/// A statement that is checked without error changes only the innermost
/// scope; a `while` or an `if` changes nothing.
pub proof fn lemma_stmt_keeps_outer(sig: Seq<(String, SigView)>, cur: Option<String>, ctx: Option<Seq<Seq<VarView>>>, s: StmtView)
    requires
        ctx is Some,
        check_stmt(sig, cur, ctx, s) is Some,
        check_stmt(sig, cur, ctx, s).unwrap().err is None,
    ensures
        same_outer(ctx, check_stmt(sig, cur, ctx, s).unwrap().ctx),
        (s is While || s is IfElse) ==> check_stmt(sig, cur, ctx, s).unwrap().ctx == ctx,
    decreases s, 0int,
{
    let sc = ctx.unwrap();
    match s {
        StmtView::While { span, condition, body } => {
            lemma_scoped_block_restores(sig, cur, ctx, body);
        },
        StmtView::IfElse { span, condition, then_branch, else_branch } => {
            lemma_scoped_block_restores(sig, cur, ctx, then_branch);
            match else_branch {
                Some(eb) => {
                    lemma_scoped_block_restores(sig, cur, ctx, eb);
                },
                None => {},
            }
        },
        StmtView::Let(l) => {
            assert(check_let(sig, ctx, l, true) is Some);
        },
        StmtView::Const(l) => {
            assert(check_let(sig, ctx, l, false) is Some);
        },
        _ => {},
    }
}

/// A block checked without error in a scope of its own leaves the variables
/// as they were before it.
pub proof fn lemma_scoped_block_restores(sig: Seq<(String, SigView)>, cur: Option<String>, ctx: Option<Seq<Seq<VarView>>>, b: BlockView)
    requires
        ctx is Some,
    ensures
        scoped_block(sig, cur, ctx, b) is Some && scoped_block(sig, cur, ctx, b).unwrap().2 is None
            ==> scoped_block(sig, cur, ctx, b).unwrap().0 == ctx,
    decreases b, 1int,
{
    let sc = ctx.unwrap();
    let inner = Some(sc.push(Seq::<VarView>::empty()));
    match check_block(sig, cur, inner, b) {
        Some(cb) => if cb.err is None {
            lemma_stmts_keep_outer(sig, cur, inner, b.statements, b.statements.len() as int);
            if leave(cb.ctx) is Some {
                assert(cb.ctx.unwrap().drop_last() =~= sc);
            }
        },
        None => {},
    }
}

/// Statements checked without error change only the innermost scope.
pub proof fn lemma_stmts_keep_outer(sig: Seq<(String, SigView)>, cur: Option<String>, ctx: Option<Seq<Seq<VarView>>>, ss: Seq<StmtView>, n: int)
    requires
        ctx is Some,
    ensures
        check_stmts(sig, cur, ctx, ss, n) is Some && check_stmts(sig, cur, ctx, ss, n).unwrap().err is None
            ==> same_outer(ctx, check_stmts(sig, cur, ctx, ss, n).unwrap().ctx),
    decreases ss, n,
{
    if 0 < n <= ss.len() {
        lemma_stmts_keep_outer(sig, cur, ctx, ss, n - 1);
        match check_stmts(sig, cur, ctx, ss, n - 1) {
            Some(p) => if p.err is None {
                if check_stmt(sig, cur, p.ctx, ss[n - 1]) matches Some(c) && c.err is None {
                    lemma_stmt_keeps_outer(sig, cur, p.ctx, ss[n - 1]);
                }
            },
            None => {},
        }
    }
}

/// A `while` or an `if` checked without error leaves the variables as they
/// were, whatever they were.
pub proof fn lemma_scoped_statement_restores(sig: Seq<(String, SigView)>, cur: Option<String>, ctx: Option<Seq<Seq<VarView>>>, s: StmtView)
    ensures
        (s is While || s is IfElse) && check_stmt(sig, cur, ctx, s) is Some && check_stmt(sig, cur, ctx, s).unwrap().err is None
            ==> check_stmt(sig, cur, ctx, s).unwrap().ctx == ctx,
{
    if (s is While || s is IfElse) && check_stmt(sig, cur, ctx, s) is Some && check_stmt(sig, cur, ctx, s).unwrap().err is None {
        if ctx is Some {
            lemma_stmt_keeps_outer(sig, cur, ctx, s);
        }
    }
}

/// Names declared inside a `while` body or the branches of an `if` do not
/// escape: once such a statement is checked without error, the variables are
/// those before it, so every name denotes what it denoted before.
pub proof fn law_scoped_statement_keeps_variables(sig: Seq<(String, SigView)>, cur: Option<String>, ctx: Option<Seq<Seq<VarView>>>, s: StmtView, name: Seq<char>)
    requires
        s is While || s is IfElse,
        ctx is Some,
        check_stmt(sig, cur, ctx, s) matches Some(c) && c.err is None,
    ensures
        check_stmt(sig, cur, ctx, s).unwrap().ctx == ctx,
        lookup_var(check_stmt(sig, cur, ctx, s).unwrap().ctx.unwrap(), name) == lookup_var(ctx.unwrap(), name),
{
    lemma_stmt_keeps_outer(sig, cur, ctx, s);
}

/// The scope that holds the parameters of a function: the first `n`.
pub open spec fn param_scope(params: Seq<ParamView>, n: int) -> Seq<VarView>
    decreases n,
{
    if n <= 0 || n > params.len() {
        Seq::empty()
    } else {
        let p = params[n - 1];
        scope_insert(param_scope(params, n - 1), VarView {
            name: p.name,
            name_span: p.span,
            ty: p.ty,
            ty_span: p.ty_span,
            is_mut: false,
            span: p.span,
        })
    }
}

/// Checking the body of a function named `name` with parameters `params`: in
/// a scope that holds the parameters.
#[verifier::opaque]
pub open spec fn check_function(sig: Seq<(String, SigView)>, name: String, params: Seq<ParamView>, body: BlockView) -> Option<CheckedStmts> {
    check_block(sig, Some(name), Some(seq![param_scope(params, params.len() as int)]), body)
}


/// Two entries of functions that agree but for the statements of the body.
pub open spec fn same_entry(a: (String, HirFunction), b: (String, HirFunction)) -> bool {
    a.0 == b.0 && a.1.span == b.1.span && a.1.name == b.1.name && a.1.name_span == b.1.name_span
        && a.1.signature == b.1.signature && a.1.body.span == b.1.body.span
}

/// Where checking the functions of a module stands: their bodies (the
/// checked ones with the types written down), the variables and the name of
/// the function checked last, and the error, if any.
pub struct CheckedModule {
    pub bodies: Seq<BlockView>,
    pub ctx: Option<Seq<Seq<VarView>>>,
    pub cur: Option<String>,
    pub err: Option<ErrView>,
}

/// Checking the first `n` functions of `fns` (in the order of their names),
/// until one fails.
pub open spec fn check_functions(sig: Seq<(String, SigView)>, fns: Seq<(String, HirFunction)>, n: int, ctx: Option<Seq<Seq<VarView>>>, cur: Option<String>) -> Option<CheckedModule>
    decreases n,
{
    if n <= 0 || n > fns.len() {
        Some(CheckedModule { bodies: fns.map_values(|e: (String, HirFunction)| block_view(e.1.body)), ctx, cur, err: None })
    } else {
        match check_functions(sig, fns, n - 1, ctx, cur) {
            None => None,
            Some(m) => if m.err is Some {
                Some(m)
            } else {
                let (name, f) = fns[n - 1];
                match check_function(sig, name, f.signature@.params, block_view(f.body)) {
                    None => None,
                    Some(p) => Some(CheckedModule {
                        bodies: m.bodies.update(n - 1, BlockView { span: f.body.span, statements: p.stmts }),
                        ctx: p.ctx,
                        cur: Some(name),
                        err: p.err,
                    }),
                }
            },
        }
    }
}

/// Once checking functions stops, checking more stops the same way.
pub proof fn lemma_check_functions_stops(sig: Seq<(String, SigView)>, fns: Seq<(String, HirFunction)>, k: int, n: int, ctx: Option<Seq<Seq<VarView>>>, cur: Option<String>)
    requires
        0 <= k <= n <= fns.len(),
        check_functions(sig, fns, k, ctx, cur) is None || check_functions(sig, fns, k, ctx, cur).unwrap().err is Some,
    ensures
        check_functions(sig, fns, n, ctx, cur) == check_functions(sig, fns, k, ctx, cur),
    decreases n,
{
    if n > k {
        lemma_check_functions_stops(sig, fns, k, n - 1, ctx, cur);
    }
}

/// Checking functions keeps the number of bodies.
pub proof fn lemma_check_functions_len(sig: Seq<(String, SigView)>, fns: Seq<(String, HirFunction)>, n: int, ctx: Option<Seq<Seq<VarView>>>, cur: Option<String>)
    requires
        0 <= n <= fns.len(),
        check_functions(sig, fns, n, ctx, cur) is Some,
    ensures
        check_functions(sig, fns, n, ctx, cur).unwrap().bodies.len() == fns.len(),
        forall|j: int| n <= j < fns.len() ==> #[trigger] check_functions(sig, fns, n, ctx, cur).unwrap().bodies[j] == block_view(fns[j].1.body),
    decreases n,
{
    if n > 0 {
        lemma_check_functions_len(sig, fns, n - 1, ctx, cur);
    }
}

/// One more function: checked where the ones before it passed.
pub proof fn lemma_check_functions_step(sig: Seq<(String, SigView)>, fns: Seq<(String, HirFunction)>, k: int, ctx: Option<Seq<Seq<VarView>>>, cur: Option<String>)
    requires
        0 <= k < fns.len(),
        check_functions(sig, fns, k, ctx, cur) is Some,
        check_functions(sig, fns, k, ctx, cur).unwrap().err is None,
    ensures
        check_functions(sig, fns, k + 1, ctx, cur) == (match check_function(sig, fns[k].0, fns[k].1.signature@.params, block_view(fns[k].1.body)) {
            None => None,
            Some(p) => Some(CheckedModule {
                bodies: check_functions(sig, fns, k, ctx, cur).unwrap().bodies.update(k, BlockView { span: fns[k].1.body.span, statements: p.stmts }),
                ctx: p.ctx,
                cur: Some(fns[k].0),
                err: p.err,
            }),
        }),
{
}

/// Entries that agree with ordered entries on their names are ordered.
pub proof fn lemma_same_names_ordered(a: Seq<(String, HirFunction)>, b: Seq<(String, HirFunction)>)
    requires
        a.len() == b.len(),
        ordered(b),
        forall|i: int| 0 <= i < a.len() ==> same_entry(#[trigger] a[i], b[i]),
    ensures
        ordered(a),
{
    assert forall|i: int, j: int| 0 <= i < j < a.len() implies crate::hir::names::name_lt(#[trigger] a[i].0@, #[trigger] a[j].0@) by {
        assert(same_entry(a[i], b[i]));
        assert(same_entry(a[j], b[j]));
    }
}

/// A variable of a scope.
#[derive(Debug)]
pub struct ContextVariable {
    pub _name: String,
    pub name_span: Span,
    pub ty: HirTy,
    pub ty_span: Span,
    pub is_mut: bool,
    span: Span,
}

impl View for ContextVariable {
    type V = VarView;

    closed spec fn view(&self) -> VarView {
        VarView { name: self._name, name_span: self.name_span, ty: self.ty@, ty_span: self.ty_span, is_mut: self.is_mut, span: self.span }
    }
}

impl ContextVariable {
    /// A variable named `name`, declared at `span`.
    pub fn new(name: String, name_span: Span, ty: HirTy, ty_span: Span, is_mut: bool, span: Span) -> (r: Self)
        ensures
            r@ == (VarView { name, name_span, ty: ty@, ty_span, is_mut, span }),
    {
        ContextVariable { _name: name, name_span, ty, ty_span, is_mut, span }
    }
}

/// The plain values of some variables.
pub open spec fn vars_view(vs: Seq<ContextVariable>) -> Seq<VarView> {
    vs.map_values(|v: ContextVariable| v@)
}

/// A scope: its variables, and the scope that encloses it.
#[derive(Debug)]
pub struct ContextScope {
    pub variables: Vec<ContextVariable>,
    pub parent: Option<usize>,
}

impl ContextScope {
    /// An empty scope inside `parent`.
    pub fn new(parent: Option<usize>) -> (r: Self)
        ensures
            r.variables@.len() == 0,
            r.parent == parent,
    {
        ContextScope { variables: Vec::new(), parent }
    }

    /// The variable of this scope named `name`.
    pub fn get(&self, name: &String) -> (r: Option<&ContextVariable>)
        ensures
            match r {
                Some(v) => scope_find(vars_view(self.variables@), name@) == Some(v@),
                None => scope_find(vars_view(self.variables@), name@) is None,
            },
    {
        let ghost vv = vars_view(self.variables@);
        let mut i: usize = 0;
        assert(vv.skip(0) =~= vv);
        while i < self.variables.len()
            invariant
                i <= self.variables@.len(),
                vv == vars_view(self.variables@),
                scope_find(vv, name@) == scope_find(vv.skip(i as int), name@),
            decreases self.variables@.len() - i,
        {
            if self.variables[i]._name.eq(name) {
                return Some(&self.variables[i]);
            }
            assert(vv.skip(i as int).drop_first() =~= vv.skip(i + 1));
            i += 1;
        }
        None
    }

    /// Declares `var` in this scope, replacing the variable of that name.
    pub fn insert(&mut self, var: ContextVariable)
        ensures
            vars_view(final(self).variables@) == scope_insert(vars_view(old(self).variables@), var@),
            final(self).parent == old(self).parent,
    {
        let ghost vv = vars_view(self.variables@);
        let mut i: usize = 0;
        assert(vv.skip(0) =~= vv);
        while i < self.variables.len()
            invariant
                i <= self.variables@.len(),
                vv == vars_view(self.variables@),
                self.variables@ == old(self).variables@,
                self.parent == old(self).parent,
                scope_index(vv, var._name@) == match scope_index(vv.skip(i as int), var._name@) {
                    Some(j) => Some(j + i),
                    None => None::<int>,
                },
            decreases self.variables@.len() - i,
        {
            if self.variables[i]._name.eq(&var._name) {
                let ghost vn = var@;
                self.variables.set(i, var);
                assert(vars_view(self.variables@) =~= vv.update(i as int, vn));
                return;
            }
            assert(vv.skip(i as int).drop_first() =~= vv.skip(i + 1));
            i += 1;
        }
        let ghost vn = var@;
        self.variables.push(var);
        assert(vars_view(self.variables@) =~= vv.push(vn));
    }
}

/// The scopes of the function being checked: the outermost holds its
/// parameters, and each other is inside the one before it.
#[derive(Debug)]
pub struct ContextFunction {
    scopes: Vec<ContextScope>,
}

impl View for ContextFunction {
    type V = Seq<Seq<VarView>>;

    closed spec fn view(&self) -> Seq<Seq<VarView>> {
        self.scopes@.map_values(|s: ContextScope| vars_view(s.variables@))
    }
}

impl ContextFunction {
    /// One scope at least is open, and each scope's parent is the one before.
    #[verifier::type_invariant]
    closed spec fn nested(&self) -> bool {
        &&& self.scopes@.len() >= 1
        &&& forall|k: int| 0 <= k < self.scopes@.len() ==> #[trigger] self.scopes@[k].parent == (if k == 0 {
            None
        } else {
            Some((k - 1) as usize)
        })
    }

    /// One empty scope.
    pub fn new() -> (r: Self)
        ensures
            r@ == seq![Seq::<VarView>::empty()],
    {
        let mut scopes: Vec<ContextScope> = Vec::new();
        scopes.push(ContextScope::new(None));
        assert(vars_view(scopes@[0].variables@) =~= Seq::<VarView>::empty());
        let r = ContextFunction { scopes };
        assert(r@ =~= seq![Seq::<VarView>::empty()]);
        r
    }

    /// The number of open scopes.
    pub fn depth(&self) -> (r: usize)
        ensures
            r == self@.len(),
            r >= 1,
    {
        proof { use_type_invariant(self); }
        self.scopes.len()
    }

    /// Opens a scope inside the innermost one; returns the index of that one.
    pub fn new_scope(&mut self) -> (r: usize)
        ensures
            final(self)@ == old(self)@.push(Seq::<VarView>::empty()),
            r == old(self)@.len() - 1,
    {
        proof { use_type_invariant(&*self); }
        let mut scopes: Vec<ContextScope> = Vec::new();
        scopes.push(ContextScope::new(None));
        std::mem::swap(&mut self.scopes, &mut scopes);
        let parent = scopes.len() - 1;
        let ghost s0 = scopes@;
        assert(s0 == old(self).scopes@);
        scopes.push(ContextScope::new(Some(parent)));
        assert(vars_view(scopes@.last().variables@) =~= Seq::<VarView>::empty());
        assert(scopes@.map_values(|s: ContextScope| vars_view(s.variables@)) =~= old(self)@.push(Seq::<VarView>::empty()));
        self.scopes = scopes;
        parent
    }

    /// Closes the innermost scope; returns the index of the one left innermost.
    pub fn end_scope(&mut self) -> (r: usize)
        requires
            old(self)@.len() >= 2,
        ensures
            final(self)@ == old(self)@.drop_last(),
            r == final(self)@.len() - 1,
    {
        proof { use_type_invariant(&*self); }
        let mut scopes: Vec<ContextScope> = Vec::new();
        scopes.push(ContextScope::new(None));
        std::mem::swap(&mut self.scopes, &mut scopes);
        scopes.pop();
        assert(scopes@.map_values(|s: ContextScope| vars_view(s.variables@)) =~= old(self)@.drop_last());
        self.scopes = scopes;
        self.scopes.len() - 1
    }

    /// The variable that `name` denotes: that of the innermost scope that has
    /// one, following the parents.
    pub fn get(&self, name: &String) -> (r: Option<&ContextVariable>)
        ensures
            match r {
                Some(v) => lookup_var(self@, name@) == Some(v@),
                None => lookup_var(self@, name@) is None,
            },
    {
        proof { use_type_invariant(self); }
        let ghost sv = self@;
        let mut k: usize = self.scopes.len() - 1;
        loop
            invariant
                k < self.scopes@.len(),
                sv == self@,
                self.scopes@.len() >= 1,
                forall|j: int| 0 <= j < self.scopes@.len() ==> #[trigger] self.scopes@[j].parent == (if j == 0 {
                    None
                } else {
                    Some((j - 1) as usize)
                }),
                lookup_var(sv, name@) == find_var(sv, name@, k + 1),
            decreases k,
        {
            assert(sv[k as int] == vars_view(self.scopes@[k as int].variables@));
            match self.scopes[k].get(name) {
                Some(v) => return Some(v),
                None => {},
            }
            assert(self.scopes@[k as int].parent == (if k == 0 { None } else { Some((k - 1) as usize) }));
            match self.scopes[k].parent {
                Some(p) => {
                    assert(find_var(sv, name@, k + 1) == find_var(sv, name@, k as int));
                    k = p;
                },
                None => {
                    assert(find_var(sv, name@, k + 1) == find_var(sv, name@, 0));
                    return None;
                },
            }
        }
    }

    /// Declares `var` in the innermost scope.
    pub fn insert(&mut self, var: ContextVariable)
        ensures
            final(self)@ == declare(old(self)@, var@),
    {
        proof { use_type_invariant(&*self); }
        let mut scopes: Vec<ContextScope> = Vec::new();
        scopes.push(ContextScope::new(None));
        std::mem::swap(&mut self.scopes, &mut scopes);
        let ghost s0 = scopes@;
        let mut last = scopes.pop().unwrap();
        last.insert(var);
        scopes.push(last);
        assert(scopes@.map_values(|s: ContextScope| vars_view(s.variables@)) =~= declare(old(self)@, var@)) by {
            assert(scopes@ =~= s0.update(s0.len() - 1, scopes@.last()));
        }
        self.scopes = scopes;
    }
}


/// A result as a plain value.
pub open spec fn res_view(r: HirResult<HirTy>) -> Result<TyView, ErrView> {
    match r {
        Ok(t) => Ok(t@),
        Err(e) => Err(e@),
    }
}

/// Checking arguments leaves the arguments from the `n`th on as they were.
pub proof fn lemma_check_args_frame(sig: Seq<(String, SigView)>, ctx: Option<Seq<Seq<VarView>>>, args: Seq<ExprView>, n: int, params: Option<Seq<ParamView>>)
    requires
        0 <= n <= args.len(),
        check_args(sig, ctx, args, n, params) is Some,
    ensures
        check_args(sig, ctx, args, n, params).unwrap().args.len() == args.len(),
        forall|j: int| n <= j < args.len() ==> #[trigger] check_args(sig, ctx, args, n, params).unwrap().args[j] == args[j],
        check_args(sig, ctx, args, n, params).unwrap().err is None ==> check_args(sig, ctx, args, n, params).unwrap().tys.len() == n,
    decreases n,
{
    if n > 0 {
        lemma_check_args_frame(sig, ctx, args, n - 1, params);
    }
}

/// Once checking arguments stops, checking more stops the same way.
pub proof fn lemma_check_args_stops(sig: Seq<(String, SigView)>, ctx: Option<Seq<Seq<VarView>>>, args: Seq<ExprView>, k: int, n: int, params: Option<Seq<ParamView>>)
    requires
        0 <= k <= n <= args.len(),
        check_args(sig, ctx, args, k, params) is None || check_args(sig, ctx, args, k, params).unwrap().err is Some,
    ensures
        check_args(sig, ctx, args, n, params) == check_args(sig, ctx, args, k, params),
    decreases n,
{
    if n > k {
        lemma_check_args_stops(sig, ctx, args, k, n - 1, params);
    }
}

/// Checking items leaves the items from the `n`th on as they were.
pub proof fn lemma_check_items_frame(sig: Seq<(String, SigView)>, ctx: Option<Seq<Seq<VarView>>>, items: Seq<ExprView>, n: int, t0: TyView, span: Span)
    requires
        0 <= n <= items.len(),
        check_items(sig, ctx, items, n, t0, span) is Some,
    ensures
        check_items(sig, ctx, items, n, t0, span).unwrap().args.len() == items.len(),
        forall|j: int| (n <= j < items.len() || j == 0) ==> #[trigger] check_items(sig, ctx, items, n, t0, span).unwrap().args[j] == items[j],
    decreases n,
{
    if n > 1 {
        lemma_check_items_frame(sig, ctx, items, n - 1, t0, span);
    }
}

/// Once checking items stops, checking more stops the same way.
pub proof fn lemma_check_items_stops(sig: Seq<(String, SigView)>, ctx: Option<Seq<Seq<VarView>>>, items: Seq<ExprView>, k: int, n: int, t0: TyView, span: Span)
    requires
        1 <= k <= n <= items.len(),
        check_items(sig, ctx, items, k, t0, span) is None || check_items(sig, ctx, items, k, t0, span).unwrap().err is Some,
    ensures
        check_items(sig, ctx, items, n, t0, span) == check_items(sig, ctx, items, k, t0, span),
    decreases n,
{
    if n > k {
        lemma_check_items_stops(sig, ctx, items, k, n - 1, t0, span);
    }
}

/// The plain values of the parameters, where they are given.
pub open spec fn params_view(ps: Option<&Vec<HirFunctionParameterSignature>>) -> Option<Seq<ParamView>> {
    match ps {
        Some(v) => Some(param_views(v@)),
        None => None,
    }
}

/// The plain values of some types.
pub open spec fn tys_of(ts: Seq<HirTy>) -> Seq<TyView> {
    ts.map_values(|t: HirTy| t@)
}

/// The plain value of an optional error.
pub open spec fn opt_err_view(e: Option<HirError>) -> Option<ErrView> {
    match e {
        Some(e) => Some(e@),
        None => None,
    }
}

/// The plain values of bound type parameters.
pub open spec fn gens_of(gs: Seq<(String, HirTy)>) -> Seq<(String, TyView)> {
    gs.map_values(|g: (String, HirTy)| (g.0, g.1@))
}

/// Once binding type parameters fails, binding more fails the same way.
pub proof fn lemma_bind_generics_stops(params: Seq<ParamView>, tys: Seq<TyView>, args: Seq<ExprView>, k: int, n: int)
    requires
        0 <= k <= n <= params.len(),
        n <= tys.len(),
        n <= args.len(),
        bind_generics(params, tys, args, k) is Err,
    ensures
        bind_generics(params, tys, args, n) == bind_generics(params, tys, args, k),
    decreases n,
{
    if n > k {
        lemma_bind_generics_stops(params, tys, args, k, n - 1);
    }
}

/// Whether a result reports the error `e`, or success where there is none.
pub open spec fn reports(r: HirResult<()>, e: Option<ErrView>) -> bool {
    match e {
        None => r is Ok,
        Some(x) => r is Err && r->Err_0@ == x,
    }
}

/// Once checking statements stops, checking more stops the same way.
pub proof fn lemma_check_stmts_stops(sig: Seq<(String, SigView)>, cur: Option<String>, ctx: Option<Seq<Seq<VarView>>>, ss: Seq<StmtView>, k: int, n: int)
    requires
        0 <= k <= n <= ss.len(),
        check_stmts(sig, cur, ctx, ss, k) is None || check_stmts(sig, cur, ctx, ss, k).unwrap().err is Some,
    ensures
        check_stmts(sig, cur, ctx, ss, n) == check_stmts(sig, cur, ctx, ss, k),
    decreases n,
{
    if n > k {
        lemma_check_stmts_stops(sig, cur, ctx, ss, k, n - 1);
    }
}

/// Checking statements leaves the statements from the `n`th on as they were.
pub proof fn lemma_check_stmts_frame(sig: Seq<(String, SigView)>, cur: Option<String>, ctx: Option<Seq<Seq<VarView>>>, ss: Seq<StmtView>, n: int)
    requires
        0 <= n <= ss.len(),
        check_stmts(sig, cur, ctx, ss, n) is Some,
    ensures
        check_stmts(sig, cur, ctx, ss, n).unwrap().stmts.len() == ss.len(),
        forall|j: int| n <= j < ss.len() ==> #[trigger] check_stmts(sig, cur, ctx, ss, n).unwrap().stmts[j] == ss[j],
    decreases n,
{
    if n > 0 {
        lemma_check_stmts_frame(sig, cur, ctx, ss, n - 1);
    }
}

/// Whether two types have the same identity.
fn same_ty(a: &HirTy, b: &HirTy) -> (r: bool)
    ensures
        r == (ty_id(a@) == ty_id(b@)),
{
    let ia = HirTyId::from(a);
    let ib = HirTyId::from(b);
    ia.same(&ib)
}

/// The text of a function's type.
fn fn_type_text(f: &HirFunctionSignature) -> (r: String)
    ensures
        r@ == fn_text(f@),
{
    let mut params: Vec<HirTy> = Vec::new();
    let mut k: usize = 0;
    while k < f.params.len()
        invariant
            k <= f.params@.len(),
            params@.len() == k,
            forall|i: int| 0 <= i < k ==> #[trigger] ty_view(params@[i]) == f.params@[i].ty@,
        decreases f.params@.len() - k,
    {
        params.push(f.params[k].ty.copy());
        k += 1;
    }
    let t = HirTy::Function(HirFunctionTy { ret_ty: Box::new(f.return_ty.copy()), params });
    proof {
        lemma_tys_view(params@, params@.len() as int);
        assert(tys_view(params@, params@.len() as int) =~= f@.params.map_values(|p: ParamView| p.ty));
    }
    t.text()
}

/// The type checker of a module.
pub struct TypeChecker {
    context: Vec<ContextFunction>,
    signature: HirModuleSignature,
    current_func_name: Option<String>,
    src: String,
}

impl TypeChecker {
    /// The signatures of the module's functions.
    pub closed spec fn sig(&self) -> Seq<(String, SigView)> {
        sig_view(self.signature)
    }

    /// The function being checked.
    pub closed spec fn cur(&self) -> Option<String> {
        self.current_func_name
    }

    /// The scopes of the function being checked, where one is.
    pub closed spec fn ctx(&self) -> Option<Seq<Seq<VarView>>> {
        if self.context@.len() > 0 && self.current_func_name is Some {
            Some(self.context@.last()@)
        } else {
            None
        }
    }

    /// The source of the module.
    pub closed spec fn src(&self) -> String {
        self.src
    }

    /// A checker for a module whose source is `src`.
    pub fn new(src: String) -> (r: Self)
        ensures
            r.sig().len() == 0,
            r.cur() is None,
            r.ctx() is None,
            r.src() == src,
    {
        TypeChecker { context: Vec::new(), signature: HirModuleSignature::new(), current_func_name: None, src }
    }

    /// The type of a variable, which the expression records.
    fn get_ident_ty(&self, expr: &mut HirExpr) -> (r: Option<HirResult<HirTy>>)
        requires
            *old(expr) is Ident,
    ensures
        match check_expr(self.sig(), self.ctx(), old(expr)@) {
            None => r is None,
            Some(c) => r is Some && final(expr)@ == c.expr && res_view(r.unwrap()) == c.res,
        },
    {
        match expr {
            HirExpr::Ident(i) => {
                if self.context.len() == 0 || self.current_func_name.is_none() {
                    return None;
                }
                let cf = &self.context[self.context.len() - 1];
                match cf.get(&i.name) {
                    Some(v) => {
                        i.ty = v.ty.copy();
                        Some(Ok(v.ty.copy()))
                    },
                    None => Some(Err(HirError::UnknownType { name: i.name.clone(), span: i.span })),
                }
            },
            _ => None,
        }
    }

    /// Checks a literal.
    fn check_literal(&self, expr: &mut HirExpr) -> (r: Option<HirResult<HirTy>>)
        requires
            *old(expr) is IntegerLiteral || *old(expr) is FloatLiteral || *old(expr) is UnsignedIntegerLiteral || *old(expr) is BooleanLiteral
                || *old(expr) is UnitLiteral || *old(expr) is CharLiteral || *old(expr) is StringLiteral,
    ensures
        match check_expr(self.sig(), self.ctx(), old(expr)@) {
            None => r is None,
            Some(c) => r is Some && final(expr)@ == c.expr && res_view(r.unwrap()) == c.res,
        },
    {
        match expr {
            HirExpr::IntegerLiteral(_) => Some(Ok(HirTy::Int64(HirIntegerTy {}))),
            HirExpr::FloatLiteral(_) => Some(Ok(HirTy::Float64(HirFloatTy {}))),
            HirExpr::UnsignedIntegerLiteral(_) => Some(Ok(HirTy::UInt64(HirUnsignedIntTy {}))),
            HirExpr::BooleanLiteral(_) => Some(Ok(HirTy::Boolean(HirBooleanTy {}))),
            HirExpr::UnitLiteral(_) => Some(Ok(HirTy::Unit(HirUnitTy {}))),
            HirExpr::CharLiteral(_) => Some(Ok(HirTy::Char(HirCharTy {}))),
            HirExpr::StringLiteral(_) => Some(Ok(HirTy::String(HirStringTy {}))),
            _ => None,
        }
    }

    /// Checks a binary operation: both operands have one type, which the
    /// operation records; a comparison gives a boolean.
    fn check_binary(&self, expr: &mut HirExpr) -> (r: Option<HirResult<HirTy>>)
        requires
            *old(expr) is HirBinaryOp,
    ensures
        match check_expr(self.sig(), self.ctx(), old(expr)@) {
            None => r is None,
            Some(c) => r is Some && final(expr)@ == c.expr && res_view(r.unwrap()) == c.res,
        },
        decreases *old(expr), 1int,
    {
        match expr {
            HirExpr::HirBinaryOp(b) => {
                let lt = match self.check_expr(&mut b.lhs) {
                    Some(Ok(t)) => t,
                    Some(Err(e)) => return Some(Err(e)),
                    None => return None,
                };
                b.ty = lt.copy();
                let rt = match self.check_expr(&mut b.rhs) {
                    Some(Ok(t)) => t,
                    Some(Err(e)) => return Some(Err(e)),
                    None => return None,
                };
                if !same_ty(&lt, &rt) {
                    return Some(Err(HirError::TypeMismatch {
                        actual_type: lt.text(),
                        actual_loc: b.lhs.span(),
                        expected_type: rt.text(),
                        expected_loc: b.rhs.span(),
                    }));
                }
                match b.op {
                    HirBinaryOp::And | HirBinaryOp::Eq | HirBinaryOp::Neq | HirBinaryOp::Or | HirBinaryOp::Gt
                    | HirBinaryOp::Gte | HirBinaryOp::Lt | HirBinaryOp::Lte => Some(Ok(HirTy::Boolean(HirBooleanTy {}))),
                    _ => Some(Ok(lt)),
                }
            },
            _ => None,
        }
    }

    /// Checks `new [size] of ty`: the size is an integer.
    fn check_new_array(&self, expr: &mut HirExpr) -> (r: Option<HirResult<HirTy>>)
        requires
            *old(expr) is NewArray,
        ensures
            match check_expr(self.sig(), self.ctx(), old(expr)@) {
                None => r is None,
                Some(c) => r is Some && final(expr)@ == c.expr && res_view(r.unwrap()) == c.res,
            },
        decreases *old(expr), 1int,
    {
        match expr {
            HirExpr::NewArray(a) => {
                let st = match self.check_expr(&mut a.size) {
                    Some(Ok(t)) => t,
                    Some(Err(e)) => return Some(Err(e)),
                    None => return None,
                };
                if !same_ty(&st, &HirTy::UInt64(HirUnsignedIntTy {})) && !same_ty(&st, &HirTy::Int64(HirIntegerTy {})) {
                    return Some(Err(HirError::TypeMismatch {
                        actual_type: st.text(),
                        actual_loc: a.size.span(),
                        expected_type: String::from_str("uint64 or int64"),
                        expected_loc: a.size.span(),
                    }));
                }
                Some(Ok(a.ty.copy()))
            },
            _ => None,
        }
    }

    /// Checks a unary operation: a negated value is a signed integer.
    fn check_unary(&self, expr: &mut HirExpr) -> (r: Option<HirResult<HirTy>>)
        requires
            *old(expr) is Unary,
        ensures
            match check_expr(self.sig(), self.ctx(), old(expr)@) {
                None => r is None,
                Some(c) => r is Some && final(expr)@ == c.expr && res_view(r.unwrap()) == c.res,
            },
        decreases *old(expr), 1int,
    {
        match expr {
            HirExpr::Unary(u) => {
                let t = match self.check_expr(&mut u.expr) {
                    Some(Ok(t)) => t,
                    Some(Err(e)) => return Some(Err(e)),
                    None => return None,
                };
                match u.op {
                    Some(UnaryOp::Neg) => {
                        if !same_ty(&t, &HirTy::Int64(HirIntegerTy {})) {
                            return Some(Err(HirError::TryingToNegateUnsigned { span: u.expr.span() }));
                        }
                        Some(Ok(t))
                    },
                    _ => Some(Ok(t)),
                }
            },
            _ => None,
        }
    }

    /// Checks a cast: only values of the primitive types can be cast.
    fn check_cast(&self, expr: &mut HirExpr) -> (r: Option<HirResult<HirTy>>)
        requires
            *old(expr) is Casting,
        ensures
            match check_expr(self.sig(), self.ctx(), old(expr)@) {
                None => r is None,
                Some(c) => r is Some && final(expr)@ == c.expr && res_view(r.unwrap()) == c.res,
            },
        decreases *old(expr), 1int,
    {
        match expr {
            HirExpr::Casting(c) => {
                let t = match self.check_expr(&mut c.expr) {
                    Some(Ok(t)) => t,
                    Some(Err(e)) => return Some(Err(e)),
                    None => return None,
                };
                let can_cast = match t {
                    HirTy::Int64(_) | HirTy::Float64(_) | HirTy::UInt64(_) | HirTy::Boolean(_) | HirTy::Char(_) | HirTy::String(_) => true,
                    _ => false,
                };
                if !can_cast {
                    return Some(Err(HirError::TypeMismatch {
                        actual_type: t.text(),
                        actual_loc: c.expr.span(),
                        expected_type: String::from_str("int64, float64, uint64, Bool or str"),
                        expected_loc: c.expr.span(),
                    }));
                }
                Some(Ok(c.ty.copy()))
            },
            _ => None,
        }
    }

    /// Checks `target[index]`: the index is an integer and the target a list,
    /// whose item type is the result.
    fn check_index(&self, expr: &mut HirExpr) -> (r: Option<HirResult<HirTy>>)
        requires
            *old(expr) is Indexing,
        ensures
            match check_expr(self.sig(), self.ctx(), old(expr)@) {
                None => r is None,
                Some(c) => r is Some && final(expr)@ == c.expr && res_view(r.unwrap()) == c.res,
            },
        decreases *old(expr), 1int,
    {
        match expr {
            HirExpr::Indexing(i) => {
                let target = match self.check_expr(&mut i.target) {
                    Some(Ok(t)) => t,
                    Some(Err(e)) => return Some(Err(e)),
                    None => return None,
                };
                let index = match self.check_expr(&mut i.index) {
                    Some(Ok(t)) => t,
                    Some(Err(e)) => return Some(Err(e)),
                    None => return None,
                };
                if !same_ty(&index, &HirTy::UInt64(HirUnsignedIntTy {})) && !same_ty(&index, &HirTy::Int64(HirIntegerTy {})) {
                    return Some(Err(HirError::TypeMismatch {
                        actual_type: index.text(),
                        actual_loc: i.index.span(),
                        expected_type: String::from_str("uint64"),
                        expected_loc: i.index.span(),
                    }));
                }
                match target {
                    HirTy::List(l) => Some(Ok(*l.inner)),
                    _ => None,
                }
            },
            _ => None,
        }
    }

    /// Checks an assignment: the value, then the target, which have one type.
    fn check_assign(&self, expr: &mut HirExpr) -> (r: Option<HirResult<HirTy>>)
        requires
            *old(expr) is Assign,
        ensures
            match check_expr(self.sig(), self.ctx(), old(expr)@) {
                None => r is None,
                Some(c) => r is Some && final(expr)@ == c.expr && res_view(r.unwrap()) == c.res,
            },
        decreases *old(expr), 1int,
    {
        match expr {
            HirExpr::Assign(a) => {
                let rt = match self.check_expr(&mut a.rhs) {
                    Some(Ok(t)) => t,
                    Some(Err(e)) => return Some(Err(e)),
                    None => return None,
                };
                let lt = match self.check_expr(&mut a.lhs) {
                    Some(Ok(t)) => t,
                    Some(Err(e)) => return Some(Err(e)),
                    None => return None,
                };
                if !same_ty(&lt, &rt) {
                    return Some(Err(HirError::TypeMismatch {
                        actual_type: rt.text(),
                        actual_loc: a.rhs.span(),
                        expected_type: lt.text(),
                        expected_loc: a.lhs.span(),
                    }));
                }
                Some(Ok(lt))
            },
            _ => None,
        }
    }

    /// The name of the type parameter that a type is made of, if any.
    fn get_generic_name(&self, ty: &HirTy) -> (r: Option<String>)
        ensures
            r == generic_name(ty@),
        decreases ty,
    {
        match ty {
            HirTy::List(l) => self.get_generic_name(&l.inner),
            HirTy::Named(n) => Some(n.name.clone()),
            _ => None,
        }
    }

    /// A return type with its type parameter replaced by `actual`.
    fn get_generic_ret_ty(&self, ty: &HirTy, actual: &HirTy) -> (r: HirTy)
        ensures
            r@ == generic_ret_ty(ty@, actual@),
        decreases ty,
    {
        match ty {
            HirTy::List(l) => HirTy::List(HirListTy { inner: Box::new(self.get_generic_ret_ty(&l.inner, actual)) }),
            _ => actual.copy(),
        }
    }

    /// The type that a type parameter stands for where a parameter of type
    /// `ty` is given a value of type `given`.
    fn get_generic_ty(&self, ty: &HirTy, given: &HirTy) -> (r: Option<HirTy>)
        ensures
            match r {
                Some(t) => generic_ty(ty@, given@) == Some(t@),
                None => generic_ty(ty@, given@) is None,
            },
        decreases ty,
    {
        match (ty, given) {
            (HirTy::List(l1), HirTy::List(l2)) => self.get_generic_ty(&l1.inner, &l2.inner),
            (HirTy::Named(_), _) => Some(given.copy()),
            _ => None,
        }
    }

    /// Checks the items of a list literal: the first gives the type that the
    /// others must have.
    fn check_list_items(&self, items: &mut Vec<HirExpr>, span: Span) -> (r: Option<HirResult<HirTy>>)
        requires
            old(items)@.len() >= 1,
        ensures
            match check_list_items(self.sig(), self.ctx(), exprs_view(old(items)@, old(items)@.len() as int), span) {
                None => r is None,
                Some((its, res)) => r is Some && final(items)@.len() == old(items)@.len()
                    && exprs_view(final(items)@, final(items)@.len() as int) == its && res_view(r.unwrap()) == res,
            },
        decreases *old(items), 0int,
    {
        let ghost sig = self.sig();
        let ghost ctx = self.ctx();
        let ghost old_items = items@;
        let ghost n = old_items.len() as int;
        let ghost items0 = exprs_view(old_items, n);
        proof {
            lemma_exprs_view(old_items, n);
            assert(decreases_to!(*old(items) => old(items)@));
            assert(decreases_to!(old(items)@ => old(items)@[0]));
        }
        let t0 = match self.check_expr(&mut items[0]) {
            Some(Ok(t)) => t,
            other => {
                proof { lemma_exprs_view_update(old_items, 0, items@[0]); }
                return other;
            },
        };
        let ghost c0e = expr_view(items@[0]);
        proof {
            lemma_exprs_view_update(old_items, 0, items@[0]);
            lemma_check_items_frame(sig, ctx, items0, 1, t0@, span);
            assert(check_items(sig, ctx, items0, 1, t0@, span).unwrap().args.update(0, c0e) =~= items0.update(0, c0e));
        }
        let mut k: usize = 1;
        while k < items.len()
            invariant
                1 <= k <= items@.len(),
                items@.len() == old_items.len(),
                n == old_items.len(),
                items0 == exprs_view(old_items, n),
                items0.len() == n,
                forall|j: int| 0 <= j < n ==> #[trigger] items0[j] == expr_view(old_items[j]),
                forall|j: int| k <= j < n ==> #[trigger] items@[j] == old_items[j],
                sig == self.sig(),
                ctx == self.ctx(),
                old_items == old(items)@,
                check_expr(sig, ctx, items0[0]) == Some(Checked { expr: c0e, res: Ok(t0@) }),
                check_items(sig, ctx, items0, k as int, t0@, span) is Some,
                check_items(sig, ctx, items0, k as int, t0@, span).unwrap().err is None,
                exprs_view(items@, n) == check_items(sig, ctx, items0, k as int, t0@, span).unwrap().args.update(0, c0e),
            decreases n - k,
        {
            proof {
                assert(decreases_to!(*old(items) => old(items)@));
                assert(decreases_to!(old(items)@ => old(items)@[k as int]));
                lemma_check_items_frame(sig, ctx, items0, k as int, t0@, span);
            }
            let ghost p = check_items(sig, ctx, items0, k as int, t0@, span).unwrap();
            let ghost before = items@;
            let res = self.check_expr(&mut items[k]);
            proof {
                lemma_exprs_view_update(before, k as int, items@[k as int]);
                assert(items@ == before.update(k as int, items@[k as int]));
                assert(items0[k as int] == expr_view(before[k as int]));
                assert(check_items(sig, ctx, items0, k + 1, t0@, span) == (match check_expr(sig, ctx, items0[k as int]) {
                    None => None,
                    Some(c) => {
                        let a2 = p.args.update(k as int, c.expr);
                        match c.res {
                            Err(e) => Some(CheckedArgs { args: a2, tys: p.tys, err: Some(e) }),
                            Ok(t) => if ty_id(t) != ty_id(t0@) {
                                Some(CheckedArgs { args: a2, tys: p.tys, err: Some(mismatch(t, ev_span(c.expr), ty_text(t0@), span)) })
                            } else {
                                Some(CheckedArgs { args: a2, tys: p.tys, err: None })
                            },
                        }
                    },
                }));
                assert(p.args.update(k as int, items@[k as int]@).update(0, c0e) =~= p.args.update(0, c0e).update(k as int, items@[k as int]@));
            }
            let t = match res {
                Some(Ok(t)) => t,
                Some(Err(e)) => {
                    proof { lemma_check_items_stops(sig, ctx, items0, k + 1, n, t0@, span); }
                    return Some(Err(e));
                },
                None => {
                    proof { lemma_check_items_stops(sig, ctx, items0, k + 1, n, t0@, span); }
                    return None;
                },
            };
            if !same_ty(&t, &t0) {
                proof { lemma_check_items_stops(sig, ctx, items0, k + 1, n, t0@, span); }
                return Some(Err(HirError::TypeMismatch {
                    actual_type: t.text(),
                    actual_loc: items[k].span(),
                    expected_type: t0.text(),
                    expected_loc: span,
                }));
            }
            k += 1;
        }
        Some(Ok(HirTy::List(HirListTy { inner: Box::new(t0) })))
    }

    /// Checks a list literal: its first item gives the type of the others.
    fn check_list(&self, expr: &mut HirExpr) -> (r: Option<HirResult<HirTy>>)
        requires
            *old(expr) is ListLiteral,
        ensures
            match check_expr(self.sig(), self.ctx(), old(expr)@) {
                None => r is None,
                Some(c) => r is Some && final(expr)@ == c.expr && res_view(r.unwrap()) == c.res,
            },
        decreases *old(expr), 1int,
    {
        match expr {
            HirExpr::ListLiteral(l) => {
                proof { lemma_exprs_view(l.items@, l.items@.len() as int); }
                if l.items.len() == 0 {
                    return Some(Err(HirError::EmptyListLiteral { span: l.span }));
                }
                proof {
                    let lv = (*old(expr))->ListLiteral_0;
                    assert(decreases_to!(*old(expr) => (*old(expr))->ListLiteral_0));
                    assert(decreases_to!(lv => lv.items));
                }
                self.check_list_items(&mut l.items, l.span)
            },
            _ => None,
        }
    }

    /// Checks the first arguments of a call, in order, until one fails: each
    /// must have the type of its parameter, where `params` are given. The
    /// types of the arguments checked, and the error, if any.
    fn check_arguments(&self, args: &mut Vec<HirExpr>, params: Option<&Vec<HirFunctionParameterSignature>>) -> (r: Option<(Vec<HirTy>, Option<HirError>)>)
        ensures
            match check_args(self.sig(), self.ctx(), exprs_view(old(args)@, old(args)@.len() as int), old(args)@.len() as int, params_view(params)) {
                None => r is None,
                Some(p) => r is Some && final(args)@.len() == old(args)@.len()
                    && exprs_view(final(args)@, final(args)@.len() as int) == p.args
                    && tys_of(r.unwrap().0@) == p.tys
                    && opt_err_view(r.unwrap().1) == p.err,
            },
        decreases *old(args), 0int,
    {
        let ghost sig = self.sig();
        let ghost ctx = self.ctx();
        let ghost old_args = args@;
        let ghost n = old_args.len() as int;
        let ghost args0 = exprs_view(old_args, n);
        let ghost pv = params_view(params);
        proof {
            lemma_exprs_view(old_args, n);
        }
        let mut tys: Vec<HirTy> = Vec::new();
        let mut k: usize = 0;
        assert(tys_of(tys@) =~= Seq::<TyView>::empty());
        while k < args.len()
            invariant
                k <= args@.len(),
                args@.len() == old_args.len(),
                n == old_args.len(),
                args0 == exprs_view(old_args, n),
                args0.len() == n,
                pv == params_view(params),
                forall|j: int| 0 <= j < n ==> #[trigger] args0[j] == expr_view(old_args[j]),
                forall|j: int| k <= j < n ==> #[trigger] args@[j] == old_args[j],
                sig == self.sig(),
                ctx == self.ctx(),
                old_args == old(args)@,
                check_args(sig, ctx, args0, k as int, pv) is Some,
                check_args(sig, ctx, args0, k as int, pv).unwrap().err is None,
                exprs_view(args@, n) == check_args(sig, ctx, args0, k as int, pv).unwrap().args,
                tys_of(tys@) == check_args(sig, ctx, args0, k as int, pv).unwrap().tys,
            decreases n - k,
        {
            proof {
                assert(decreases_to!(*old(args) => old(args)@));
                assert(decreases_to!(old(args)@ => old(args)@[k as int]));
            }
            let ghost p = check_args(sig, ctx, args0, k as int, pv).unwrap();
            let ghost before = args@;
            let res = self.check_expr(&mut args[k]);
            proof {
                lemma_exprs_view_update(before, k as int, args@[k as int]);
                assert(args@ == before.update(k as int, args@[k as int]));
                assert(args0[k as int] == expr_view(before[k as int]));
            }
            let t = match res {
                Some(Ok(t)) => t,
                Some(Err(e)) => {
                    proof { lemma_check_args_stops(sig, ctx, args0, k + 1, n, pv); }
                    return Some((tys, Some(e)));
                },
                None => {
                    proof { lemma_check_args_stops(sig, ctx, args0, k + 1, n, pv); }
                    return None;
                },
            };
            let mismatch_found = match params {
                Some(ps) => k < ps.len() && !same_ty(&t, &ps[k].ty),
                None => false,
            };
            if mismatch_found {
                let ps = params.unwrap();
                let e = HirError::TypeMismatch {
                    actual_type: t.text(),
                    actual_loc: args[k].span(),
                    expected_type: ps[k].ty.text(),
                    expected_loc: ps[k].span,
                };
                let ghost tv = t@;
                tys.push(t);
                assert(tys_of(tys@) =~= p.tys.push(tv));
                proof { lemma_check_args_stops(sig, ctx, args0, k + 1, n, pv); }
                return Some((tys, Some(e)));
            }
            let ghost tv = t@;
            tys.push(t);
            assert(tys_of(tys@) =~= p.tys.push(tv));
            k += 1;
        }
        Some((tys, None))
    }

    /// Checks a call of an external function with type parameters: every
    /// argument, then the type parameters bound from the arguments' types,
    /// which give the return type.
    #[verifier::rlimit(50)]
    #[verifier::spinoff_prover]
    fn check_extern_fn(&self, name: &String, f: &mut HirFunctionCallExpr, func: &HirFunctionSignature) -> (r: Option<HirResult<HirTy>>)
        ensures
            match extern_call(self.sig(), self.ctx(), HirExpr::Call(*old(f))@, func@) {
                None => r is None,
                Some(c) => r is Some && HirExpr::Call(*final(f))@ == c.expr && res_view(r.unwrap()) == c.res,
            },
        decreases *old(f), 0int,
    {
        let ghost sig = self.sig();
        let ghost ctx = self.ctx();
        let ghost args0 = exprs_view(f.args@, f.args@.len() as int);
        let ghost ev = HirExpr::Call(*old(f))@;
        proof {
            lemma_exprs_view(f.args@, f.args@.len() as int);
            assert(decreases_to!(*old(f) => old(f).args));
            assert(ev is Call);
            assert(ev->Call_args == args0);
            assert(extern_call(sig, ctx, ev, func@) == match check_args(sig, ctx, args0, args0.len() as int, None) {
                None => None,
                Some(p) => {
                    let e2 = ExprView::Call { span: ev->Call_span, callee: ev->Call_callee, callee_span: ev->Call_callee_span, args: p.args, args_ty: ev->Call_args_ty, ty: ev->Call_ty };
                    match p.err {
                        Some(err) => with(e2, Err(err)),
                        None => match extern_ret(func@, p.tys, p.args) {
                            None => None,
                            Some(r) => with(e2, r),
                        },
                    }
                },
            });
        }
        let (tys, err) = match self.check_arguments(&mut f.args, None) {
            Some(x) => x,
            None => return None,
        };
        let ghost p = check_args(sig, ctx, args0, args0.len() as int, None).unwrap();
        proof {
            lemma_exprs_view(old(f).args@, old(f).args@.len() as int);
        }
        match err {
            Some(e) => return Some(Err(e)),
            None => {},
        }
        proof {
            lemma_check_args_frame(sig, ctx, args0, args0.len() as int, None);
        }
        let ghost fsnap = *f;
        let generics = match self.bind_generic_params(func, &tys, &f.args) {
            Ok(g) => g,
            Err(e) => return Some(Err(e)),
        };
        match self.get_generic_name(&func.return_ty) {
            None => Some(Ok(func.return_ty.copy())),
            Some(rname) => match self.find_bound(&generics, &rname) {
                Some(t) => Some(Ok(self.get_generic_ret_ty(&func.return_ty, t))),
                None => None,
            },
        }
    }

    /// The type parameters that the parameters of `func` are given by
    /// arguments of types `tys`, with the types they stand for; or the
    /// mismatch of the first argument whose type does not fit its parameter.
    fn bind_generic_params(&self, func: &HirFunctionSignature, tys: &Vec<HirTy>, args: &Vec<HirExpr>) -> (r: HirResult<Vec<(String, HirTy)>>)
        requires
            tys@.len() == args@.len(),
        ensures
            match r {
                Ok(g) => bind_generics(func@.params, tys_of(tys@), exprs_view(args@, args@.len() as int),
                    if func@.params.len() <= tys@.len() { func@.params.len() as int } else { tys@.len() as int })
                    == Ok::<Seq<(String, TyView)>, ErrView>(gens_of(g@)),
                Err(e) => bind_generics(func@.params, tys_of(tys@), exprs_view(args@, args@.len() as int),
                    if func@.params.len() <= tys@.len() { func@.params.len() as int } else { tys@.len() as int })
                    == Err::<Seq<(String, TyView)>, ErrView>(e@),
            },
    {
        let ghost params = func@.params;
        let ghost tv = tys_of(tys@);
        let ghost av = exprs_view(args@, args@.len() as int);
        proof { lemma_exprs_view(args@, args@.len() as int); }
        let np = func.params.len();
        let n = if np <= tys.len() { np } else { tys.len() };
        let mut generics: Vec<(String, HirTy)> = Vec::new();
        let mut i: usize = 0;
        assert(gens_of(generics@) =~= Seq::<(String, TyView)>::empty());
        while i < n
            invariant
                i <= n,
                n <= np,
                n <= tys@.len(),
                n as int == (if np <= tys@.len() { np as int } else { tys@.len() as int }),
                np == func.params@.len(),
                params == func@.params,
                params.len() == np,
                tv == tys_of(tys@),
                tv.len() == tys@.len(),
                av == exprs_view(args@, args@.len() as int),
                av.len() == args@.len(),
                forall|j: int| 0 <= j < args@.len() ==> #[trigger] av[j] == expr_view(args@[j]),
                tys@.len() == args@.len(),
                bind_generics(params, tv, av, i as int) == Ok::<Seq<(String, TyView)>, ErrView>(gens_of(generics@)),
            decreases n - i,
        {
            let ghost gs = gens_of(generics@);
            assert(params[i as int] == func.params@[i as int]@);
            assert(tv[i as int] == tys@[i as int]@);
            match self.get_generic_name(&func.params[i].ty) {
                Some(gname) => match self.get_generic_ty(&func.params[i].ty, &tys[i]) {
                    Some(t) => {
                        let ghost gt = t@;
                        generics.push((gname, t));
                        assert(gens_of(generics@) =~= gs.push((gname, gt)));
                    },
                    None => {
                        assert(bind_generics(params, tv, av, i + 1) == Err::<Seq<(String, TyView)>, ErrView>(
                            mismatch(tv[i as int], ev_span(av[i as int]), ty_text(params[i as int].ty), params[i as int].span)));
                        proof { lemma_bind_generics_stops(params, tv, av, i + 1, n as int); }
                        let e = HirError::TypeMismatch {
                            actual_type: tys[i].text(),
                            actual_loc: args[i].span(),
                            expected_type: func.params[i].ty.text(),
                            expected_loc: func.params[i].span,
                        };
                        assert(e@ == mismatch(tv[i as int], ev_span(av[i as int]), ty_text(params[i as int].ty), params[i as int].span));
                        return Err(e);
                    },
                },
                None => {},
            }
            i += 1;
        }
        Ok(generics)
    }

    /// The type bound to the first type parameter named `name`.
    fn find_bound<'a>(&self, generics: &'a Vec<(String, HirTy)>, name: &String) -> (r: Option<&'a HirTy>)
        ensures
            match r {
                Some(t) => find_generic(gens_of(generics@), name@) == Some(t@),
                None => find_generic(gens_of(generics@), name@) is None,
            },
    {
        let ghost gv = gens_of(generics@);
        let mut j: usize = 0;
        assert(gv.skip(0) =~= gv);
        while j < generics.len()
            invariant
                j <= generics@.len(),
                gv == gens_of(generics@),
                find_generic(gv, name@) == find_generic(gv.skip(j as int), name@),
            decreases generics@.len() - j,
        {
            if generics[j].0.eq(name) {
                return Some(&generics[j].1);
            }
            assert(gv.skip(j as int).drop_first() =~= gv.skip(j + 1));
            j += 1;
        }
        None
    }

    /// Checks a call: the callee is a function of the module whose
    /// parameters the arguments match in number and in type.
    fn check_call(&self, expr: &mut HirExpr) -> (r: Option<HirResult<HirTy>>)
        requires
            *old(expr) is Call,
        ensures
            match check_expr(self.sig(), self.ctx(), old(expr)@) {
                None => r is None,
                Some(c) => r is Some && final(expr)@ == c.expr && res_view(r.unwrap()) == c.res,
            },
        decreases *old(expr), 1int,
    {
        match expr {
            HirExpr::Call(f) => {
                proof {
                    reveal_with_fuel(expr_view, 2);
                    assert(check_expr(self.sig(), self.ctx(), old(expr)@) == check_call(self.sig(), self.ctx(), old(expr)@));
                }
                let name = match &*f.callee {
                    HirExpr::Ident(i) => i.name.clone(),
                    _ => return None,
                };
                proof {
                    lemma_exprs_view(f.args@, f.args@.len() as int);
                }
                let func = match self.signature.functions.get(&name) {
                    Some(x) => x,
                    None => {
                        proof { lemma_lookup_view(self.signature.functions.entries(), name@); }
                        return Some(Err(HirError::UnknownType { name, span: f.span }));
                    },
                };
                proof {
                    lemma_lookup_view(self.signature.functions.entries(), name@);
                }
                if func.params.len() != f.args.len() {
                    return Some(Err(HirError::FunctionTypeMismatch { expected_ty: fn_type_text(func), span: f.span }));
                }
                proof {
                    assert(decreases_to!(*old(expr) => (*old(expr))->Call_0));
                }
                if func.is_external && func.generics.is_some() {
                    return self.check_extern_fn(&name, f, func);
                }
                proof {
                    let fv = (*old(expr))->Call_0;
                    assert(decreases_to!(fv => fv.args));
                    assert(params_view(Some(&func.params)) == Some(func@.params));
                }
                match self.check_arguments(&mut f.args, Some(&func.params)) {
                    None => None,
                    Some((_, Some(e))) => Some(Err(e)),
                    Some((_, None)) => Some(Ok(func.return_ty.copy())),
                }
            },
            _ => None,
        }
    }

    /// Opens a scope in the function being checked.
    fn scope_enter(&mut self)
        requires
            old(self).ctx() is Some,
        ensures
            final(self).sig() == old(self).sig(),
            final(self).cur() == old(self).cur(),
            final(self).src() == old(self).src(),
            final(self).ctx() == Some(old(self).ctx().unwrap().push(Seq::<VarView>::empty())),
    {
        let mut cf = self.context.pop().unwrap();
        cf.new_scope();
        self.context.push(cf);
    }

    /// Closes the innermost scope of the function being checked, where two
    /// are open at least; whether it did.
    fn scope_leave(&mut self) -> (r: bool)
        ensures
            final(self).sig() == old(self).sig(),
            final(self).cur() == old(self).cur(),
            final(self).src() == old(self).src(),
            r == (leave(old(self).ctx()) is Some),
            r ==> final(self).ctx() == leave(old(self).ctx()),
    {
        if self.context.len() == 0 || self.current_func_name.is_none() {
            return false;
        }
        let mut cf = self.context.pop().unwrap();
        if cf.depth() < 2 {
            self.context.push(cf);
            return false;
        }
        cf.end_scope();
        self.context.push(cf);
        true
    }

    /// Declares `var` in the innermost scope of the function being checked.
    fn declare_var(&mut self, var: ContextVariable)
        requires
            old(self).ctx() is Some,
        ensures
            final(self).sig() == old(self).sig(),
            final(self).cur() == old(self).cur(),
            final(self).src() == old(self).src(),
            old(self).ctx().unwrap().len() >= 1,
            final(self).ctx() == Some(declare(old(self).ctx().unwrap(), var@)),
    {
        let mut cf = self.context.pop().unwrap();
        let _ = cf.depth();
        cf.insert(var);
        self.context.push(cf);
    }

    /// Checks the statements of a block, in order, until one fails.
    fn check_block(&mut self, block: &mut HirBlock) -> (r: Option<HirResult<()>>)
        ensures
            final(block).span == old(block).span,
            final(self).sig() == old(self).sig(),
            final(self).cur() == old(self).cur(),
            final(self).src() == old(self).src(),
            match check_block(old(self).sig(), old(self).cur(), old(self).ctx(), old(block)@) {
                None => r is None,
                Some(p) => r is Some && final(block)@ == (BlockView { span: old(block).span, statements: p.stmts })
                    && final(self).ctx() == p.ctx && reports(r.unwrap(), p.err),
            },
        decreases *old(block), 0int,
    {
        let ghost sig = self.sig();
        let ghost cur = self.cur();
        let ghost ctx0 = self.ctx();
        let ghost old_ss = block.statements@;
        let ghost n = old_ss.len() as int;
        let ghost ss0 = stmts_view(old_ss, n);
        proof {
            lemma_stmts_view(old_ss, n);
            assert(check_stmts(sig, cur, ctx0, ss0, 0).unwrap().stmts == ss0);
        }
        let mut k: usize = 0;
        while k < block.statements.len()
            invariant
                k <= block.statements@.len(),
                block.statements@.len() == old_ss.len(),
                n == old_ss.len(),
                ss0 == stmts_view(old_ss, n),
                ss0.len() == n,
                forall|j: int| 0 <= j < n ==> #[trigger] ss0[j] == stmt_view(old_ss[j]),
                forall|j: int| k <= j < n ==> #[trigger] block.statements@[j] == old_ss[j],
                block.span == old(block).span,
                old_ss == old(block).statements@,
                sig == self.sig(),
                cur == self.cur(),
                sig == old(self).sig(),
                cur == old(self).cur(),
                ctx0 == old(self).ctx(),
                self.src() == old(self).src(),
                check_stmts(sig, cur, ctx0, ss0, k as int) is Some,
                check_stmts(sig, cur, ctx0, ss0, k as int).unwrap().err is None,
                check_stmts(sig, cur, ctx0, ss0, k as int).unwrap().ctx == self.ctx(),
                stmts_view(block.statements@, n) == check_stmts(sig, cur, ctx0, ss0, k as int).unwrap().stmts,
            decreases n - k,
        {
            proof {
                assert(decreases_to!(*old(block) => old(block).statements));
                assert(decreases_to!(old(block).statements => old(block).statements@));
                assert(decreases_to!(old(block).statements@ => old(block).statements@[k as int]));
                lemma_check_stmts_frame(sig, cur, ctx0, ss0, k as int);
            }
            let ghost p = check_stmts(sig, cur, ctx0, ss0, k as int).unwrap();
            let ghost before = block.statements@;
            let res = self.check_stmt(&mut block.statements[k]);
            proof {
                lemma_stmts_view_update(before, k as int, block.statements@[k as int]);
                assert(block.statements@ == before.update(k as int, block.statements@[k as int]));
                assert(ss0[k as int] == stmt_view(before[k as int]));
            }
            match res {
                Some(Ok(())) => {},
                other => {
                    proof { lemma_check_stmts_stops(sig, cur, ctx0, ss0, k + 1, n); }
                    return other;
                },
            }
            k += 1;
        }
        Some(Ok(()))
    }

    /// Checks a `let` (`is_mut`) or a constant: the value, then the variable
    /// declared with the given type or else the value's, then the two
    /// compared.
    fn check_let(&mut self, l: &mut HirLetStmt, is_mut: bool) -> (r: Option<HirResult<()>>)
        ensures
            final(self).sig() == old(self).sig(),
            final(self).cur() == old(self).cur(),
            final(self).src() == old(self).src(),
            match check_let(old(self).sig(), old(self).ctx(), let_view(*old(l)), is_mut) {
                None => r is None,
                Some((ctx2, l2, err)) => r is Some && let_view(*final(l)) == l2 && final(self).ctx() == ctx2 && reports(r.unwrap(), err),
            },
        decreases *old(l), 0int,
    {
        let et = match self.check_expr(&mut l.value) {
            Some(Ok(t)) => t,
            Some(Err(e)) => return Some(Err(e)),
            None => return None,
        };
        let var_ty = match &l.ty {
            Some(t) => t.copy(),
            None => et.copy(),
        };
        l.ty = Some(var_ty.copy());
        if self.context.len() == 0 || self.current_func_name.is_none() {
            return None;
        }
        let ty_span = match l.ty_span {
            Some(s) => s,
            None => l.name_span,
        };
        self.declare_var(ContextVariable::new(l.name.clone(), l.name_span, var_ty.copy(), ty_span, is_mut, l.span));
        if !same_ty(&et, &var_ty) {
            let loc = if is_mut { l.name_span } else { Span { start: l.span.start, end: l.name_span.end } };
            return Some(Err(HirError::TypeMismatch {
                actual_type: et.text(),
                actual_loc: l.value.span(),
                expected_type: var_ty.text(),
                expected_loc: loc,
            }));
        }
        Some(Ok(()))
    }

    /// Checks a condition, which must be a boolean.
    fn check_condition(&self, cond: &mut HirExpr) -> (r: Option<HirResult<()>>)
        ensures
            match check_condition(self.sig(), self.ctx(), old(cond)@) {
                None => r is None,
                Some((c, e)) => r is Some && final(cond)@ == c && reports(r.unwrap(), e),
            },
    {
        let ct = match self.check_expr(cond) {
            Some(Ok(t)) => t,
            Some(Err(e)) => return Some(Err(e)),
            None => return None,
        };
        if !same_ty(&ct, &HirTy::Boolean(HirBooleanTy {})) {
            return Some(Err(HirError::TypeMismatch {
                actual_type: ct.text(),
                actual_loc: cond.span(),
                expected_type: String::from_str("bool"),
                expected_loc: cond.span(),
            }));
        }
        Some(Ok(()))
    }

    /// Checks `while condition { body }`: a boolean condition, and the body in
    /// a scope of its own.
    /// Checks a block in a scope of its own.
    fn check_scoped_block(&mut self, block: &mut HirBlock) -> (r: Option<HirResult<()>>)
        ensures
            final(self).sig() == old(self).sig(),
            final(self).cur() == old(self).cur(),
            final(self).src() == old(self).src(),
            match scoped_block(old(self).sig(), old(self).cur(), old(self).ctx(), old(block)@) {
                None => r is None,
                Some((ctx2, b2, err)) => r is Some && final(self).ctx() == ctx2 && final(block)@ == b2 && reports(r.unwrap(), err),
            },
        decreases *old(block), 2int,
    {
        if self.context.len() == 0 || self.current_func_name.is_none() {
            return None;
        }
        self.scope_enter();
        match self.check_block(block) {
            Some(Ok(())) => {},
            other => return other,
        }
        if !self.scope_leave() {
            return None;
        }
        Some(Ok(()))
    }

    /// Checks `while condition { body }`: a boolean condition, and the body in
    /// a scope of its own.
    fn check_while(&mut self, stmt: &mut HirStatement) -> (r: Option<HirResult<()>>)
        requires
            *old(stmt) is While,
        ensures
            final(self).sig() == old(self).sig(),
            final(self).cur() == old(self).cur(),
            final(self).src() == old(self).src(),
            match check_while(old(self).sig(), old(self).cur(), old(self).ctx(), old(stmt)@) {
                None => r is None,
                Some(c) => r is Some && final(stmt)@ == c.stmt && final(self).ctx() == c.ctx && reports(r.unwrap(), c.err),
            },
        decreases *old(stmt), 0int,
    {
        match stmt {
            HirStatement::While(w) => {
                match self.check_condition(&mut w.condition) {
                    Some(Ok(())) => {},
                    other => return other,
                }
                proof {
                    assert(decreases_to!(*old(stmt) => (*old(stmt))->While_0));
                }
                self.check_scoped_block(&mut w.body)
            },
            _ => None,
        }
    }

    /// Checks the `else` block of an `if`, where there is one, in a scope of
    /// its own.
    fn check_else(&mut self, e: &mut Option<HirBlock>) -> (r: Option<HirResult<()>>)
        ensures
            final(self).sig() == old(self).sig(),
            final(self).cur() == old(self).cur(),
            final(self).src() == old(self).src(),
            match check_else(old(self).sig(), old(self).cur(), old(self).ctx(), match *old(e) {
                Some(b) => Some(b@),
                None => None,
            }) {
                None => r is None,
                Some((ctx2, e2, err)) => r is Some && final(self).ctx() == ctx2 && reports(r.unwrap(), err) && e2 == match *final(e) {
                    Some(b) => Some(b@),
                    None => None::<BlockView>,
                },
            },
        decreases *old(e), 3int,
    {
        match e {
            Some(b) => self.check_scoped_block(b),
            None => Some(Ok(())),
        }
    }

    /// Checks `if condition { then } else { else }`: a boolean condition, and
    /// each block in a scope of its own.
    fn check_if(&mut self, stmt: &mut HirStatement) -> (r: Option<HirResult<()>>)
        requires
            *old(stmt) is IfElse,
        ensures
            final(self).sig() == old(self).sig(),
            final(self).cur() == old(self).cur(),
            final(self).src() == old(self).src(),
            match check_if(old(self).sig(), old(self).cur(), old(self).ctx(), old(stmt)@) {
                None => r is None,
                Some(c) => r is Some && final(stmt)@ == c.stmt && final(self).ctx() == c.ctx && reports(r.unwrap(), c.err),
            },
        decreases *old(stmt), 0int,
    {
        match stmt {
            HirStatement::IfElse(i) => {
                match self.check_condition(&mut i.condition) {
                    Some(Ok(())) => {},
                    other => return other,
                }
                proof {
                    assert(decreases_to!(*old(stmt) => (*old(stmt))->IfElse_0));
                }
                match self.check_scoped_block(&mut i.then_branch) {
                    Some(Ok(())) => {},
                    other => return other,
                }
                self.check_else(&mut i.else_branch)
            },
            _ => None,
        }
    }

    /// Checks a statement of the function being checked; the variables it
    /// declares are added to the innermost scope. `None` where the checker
    /// stops without a result.
    pub fn check_stmt(&mut self, stmt: &mut HirStatement) -> (r: Option<HirResult<()>>)
        ensures
            final(self).sig() == old(self).sig(),
            final(self).cur() == old(self).cur(),
            final(self).src() == old(self).src(),
            match check_stmt(old(self).sig(), old(self).cur(), old(self).ctx(), old(stmt)@) {
                None => r is None,
                Some(c) => r is Some && final(stmt)@ == c.stmt && final(self).ctx() == c.ctx && reports(r.unwrap(), c.err),
            },
            ((*old(stmt) is While || *old(stmt) is IfElse) && (r matches Some(Ok(_)))) ==> final(self).ctx() == old(self).ctx(),
        decreases *old(stmt), 1int,
    {
        proof { lemma_scoped_statement_restores(self.sig(), self.cur(), self.ctx(), stmt@); }
        match stmt {
            HirStatement::Expr(e) => {
                match self.check_expr(&mut e.expr) {
                    Some(Ok(_)) => Some(Ok(())),
                    Some(Err(x)) => Some(Err(x)),
                    None => None,
                }
            },
            HirStatement::Return(r) => {
                let at = match self.check_expr(&mut r.value) {
                    Some(Ok(t)) => t,
                    Some(Err(e)) => return Some(Err(e)),
                    None => return None,
                };
                let name = match &self.current_func_name {
                    Some(n) => n,
                    None => return None,
                };
                let func = match self.signature.functions.get(name) {
                    Some(f) => f,
                    None => {
                        proof { lemma_lookup_view(self.signature.functions.entries(), name@); }
                        return None;
                    },
                };
                proof { lemma_lookup_view(self.signature.functions.entries(), name@); }
                if !same_ty(&at, &func.return_ty) {
                    let loc = match func.return_ty_span {
                        Some(sp) => sp,
                        None => r.span,
                    };
                    return Some(Err(HirError::TypeMismatch {
                        actual_type: at.text(),
                        actual_loc: r.value.span(),
                        expected_type: func.return_ty.text(),
                        expected_loc: loc,
                    }));
                }
                Some(Ok(()))
            },
            HirStatement::While(_) => {
                assert(check_stmt(self.sig(), self.cur(), self.ctx(), stmt@) == check_while(self.sig(), self.cur(), self.ctx(), stmt@));
                self.check_while(stmt)
            },
            HirStatement::IfElse(_) => {
                assert(check_stmt(self.sig(), self.cur(), self.ctx(), stmt@) == check_if(self.sig(), self.cur(), self.ctx(), stmt@));
                self.check_if(stmt)
            },
            HirStatement::Let(l) => self.check_let(l, true),
            HirStatement::Const(l) => self.check_let(l, false),
            _ => None,
        }
    }

    /// Starts checking a function: a scope that holds its parameters.
    fn enter_function(&mut self, params: &Vec<HirFunctionParameterSignature>)
        requires
            old(self).cur() is Some,
        ensures
            final(self).sig() == old(self).sig(),
            final(self).src() == old(self).src(),
            final(self).cur() == old(self).cur(),
            final(self).ctx() == Some(seq![param_scope(param_views(params@), params@.len() as int)]),
    {
        self.context.push(ContextFunction::new());
        let ghost pv = param_views(params@);
        let mut k: usize = 0;
        assert(self.ctx() == Some(seq![param_scope(pv, 0)])) by {
            assert(param_scope(pv, 0) =~= Seq::<VarView>::empty());
        }
        while k < params.len()
            invariant
                k <= params@.len(),
                pv == param_views(params@),
                pv.len() == params@.len(),
                self.sig() == old(self).sig(),
                self.src() == old(self).src(),
                self.cur() == old(self).cur(),
                self.cur() is Some,
                self.ctx() == Some(seq![param_scope(pv, k as int)]),
            decreases params@.len() - k,
        {
            let p = &params[k];
            assert(pv[k as int] == p@);
            self.declare_var(ContextVariable::new(p.name.clone(), p.span, p.ty.copy(), p.ty_span, false, p.span));
            assert(self.ctx().unwrap() =~= seq![param_scope(pv, k + 1)]);
            k += 1;
        }
    }

    /// Checks the body of a function whose parameters are `params` (the one
    /// named by the checker's current function) in a scope that holds them.
    fn check_body(&mut self, params: &Vec<HirFunctionParameterSignature>, body: &mut HirBlock) -> (r: Option<HirResult<()>>)
        ensures
            final(self).sig() == old(self).sig(),
            final(self).src() == old(self).src(),
            final(self).cur() == old(self).cur(),
            final(body).span == old(body).span,
            match old(self).cur() {
                None => r is None,
                Some(name) => match check_block(old(self).sig(), Some(name),
                    Some(seq![param_scope(param_views(params@), params@.len() as int)]), old(body)@) {
                    None => r is None,
                    Some(p) => r is Some && final(body)@ == (BlockView { span: old(body).span, statements: p.stmts })
                        && final(self).ctx() == p.ctx && reports(r.unwrap(), p.err),
                },
            },
    {
        if self.current_func_name.is_none() {
            return None;
        }
        self.enter_function(params);
        self.check_block(body)
    }

    /// Checks the body of a function (the one named by the checker's
    /// current function) in a scope that holds its parameters.
    pub fn check_func(&mut self, func: &mut HirFunction) -> (r: Option<HirResult<()>>)
        ensures
            final(self).sig() == old(self).sig(),
            final(self).src() == old(self).src(),
            final(self).cur() == old(self).cur(),
            final(func).span == old(func).span,
            final(func).name == old(func).name,
            final(func).name_span == old(func).name_span,
            final(func).signature == old(func).signature,
            final(func).body.span == old(func).body.span,
            match old(self).cur() {
                None => r is None,
                Some(name) => match check_block(old(self).sig(), Some(name),
                    Some(seq![param_scope(old(func).signature@.params, old(func).signature@.params.len() as int)]), old(func).body@) {
                    None => r is None,
                    Some(p) => r is Some && final(func).body@ == (BlockView { span: old(func).body.span, statements: p.stmts })
                        && final(self).ctx() == p.ctx && reports(r.unwrap(), p.err),
                },
            },
    {
        self.check_body(&func.signature.params, &mut func.body)
    }

    /// Checks the function of one entry, under the entry's name.
    fn check_entry(&mut self, e: &mut (String, HirFunction)) -> (r: Option<HirResult<()>>)
        ensures
            final(self).sig() == old(self).sig(),
            final(self).src() == old(self).src(),
            final(self).cur() == Some(old(e).0),
            same_entry(*final(e), *old(e)),
            match check_function(old(self).sig(), old(e).0, old(e).1.signature@.params, block_view(old(e).1.body)) {
                None => r is None,
                Some(p) => r is Some && block_view(final(e).1.body) == (BlockView { span: old(e).1.body.span, statements: p.stmts })
                    && final(self).ctx() == p.ctx && reports(r.unwrap(), p.err),
            },
    {
        proof { reveal(check_function); }
        self.current_func_name = Some(e.0.clone());
        self.check_func(&mut e.1)
    }

    /// Checks each function of the module, in the order of their names, with
    /// the signatures of the module; the types that the checker computes are
    /// written down in the bodies. The first error, if any; `None` where the
    /// checker stops without a result.
    #[verifier::rlimit(50)]
    pub fn check(&mut self, hir: &mut HirModule) -> (r: Option<HirResult<()>>)
        ensures
            final(self).sig() == sig_view(old(hir).signature),
            final(self).src() == old(self).src(),
            final(hir).signature == old(hir).signature,
            final(hir).body.imports == old(hir).body.imports,
            final(hir).body.functions.entries().len() == old(hir).body.functions.entries().len(),
            forall|i: int| 0 <= i < old(hir).body.functions.entries().len()
                ==> same_entry(#[trigger] final(hir).body.functions.entries()[i], old(hir).body.functions.entries()[i]),
            match check_functions(sig_view(old(hir).signature), old(hir).body.functions.entries(),
                old(hir).body.functions.entries().len() as int, old(self).ctx(), old(self).cur()) {
                None => r is None,
                Some(m) => r is Some && reports(r.unwrap(), m.err) && final(self).ctx() == m.ctx && final(self).cur() == m.cur
                    && forall|i: int| 0 <= i < old(hir).body.functions.entries().len()
                        ==> (#[trigger] final(hir).body.functions.entries()[i]).1.body@ == m.bodies[i],
            },
    {
        let ghost ctx0 = self.ctx();
        let ghost cur0 = self.cur();
        self.signature = hir.signature.copy();
        let ghost sig = self.sig();
        let ghost fns0 = hir.body.functions.entries();
        let mut fns = hir.body.functions.take_all();
        let n = fns.len();
        proof {
            assert(check_functions(sig, fns0, 0, ctx0, cur0).unwrap().bodies =~= fns0.map_values(|e: (String, HirFunction)| block_view(e.1.body)));
        }
        let mut k: usize = 0;
        let mut res: Option<HirResult<()>> = Some(Ok(()));
        while k < n
            invariant_except_break
                forall|i: int| k <= i < n ==> #[trigger] fns@[i] == fns0[i],
                check_functions(sig, fns0, k as int, ctx0, cur0) is Some,
                check_functions(sig, fns0, k as int, ctx0, cur0).unwrap().err is None,
                check_functions(sig, fns0, k as int, ctx0, cur0).unwrap().ctx == self.ctx(),
                check_functions(sig, fns0, k as int, ctx0, cur0).unwrap().cur == self.cur(),
                forall|i: int| 0 <= i < n ==> #[trigger] block_view(fns@[i].1.body) == check_functions(sig, fns0, k as int, ctx0, cur0).unwrap().bodies[i],
                res matches Some(Ok(_)),
            invariant
                k <= n,
                n == fns0.len(),
                fns@.len() == n,
                sig == self.sig(),
                self.src() == old(self).src(),
                hir.signature == old(hir).signature,
                hir.body.imports == old(hir).body.imports,
                forall|i: int| 0 <= i < n ==> same_entry(#[trigger] fns@[i], fns0[i]),
            ensures
                match check_functions(sig, fns0, n as int, ctx0, cur0) {
                    None => res is None,
                    Some(m) => res is Some && reports(res.unwrap(), m.err) && self.ctx() == m.ctx && self.cur() == m.cur
                        && forall|i: int| 0 <= i < n ==> #[trigger] block_view(fns@[i].1.body) == m.bodies[i],
                },
            decreases n - k,
        {
            proof {
                lemma_check_functions_len(sig, fns0, k as int, ctx0, cur0);
                lemma_check_functions_step(sig, fns0, k as int, ctx0, cur0);
            }
            let ghost before = fns@;
            res = self.check_entry(&mut fns[k]);
            proof {
                assert(fns@ == before.update(k as int, fns@[k as int]));
            }
            match res {
                Some(Ok(())) => {},
                _ => {
                    proof { lemma_check_functions_stops(sig, fns0, k + 1, n as int, ctx0, cur0); }
                    break;
                },
            }
            k += 1;
        }
        proof {
            lemma_same_names_ordered(fns@, fns0);
        }
        hir.body.functions.restore(fns);
        res
    }

    /// Checks an expression: its type, or the first error; the types of
    /// variables and of binary operations are recorded in it. `None` where the
    /// checker stops without a result.
    pub fn check_expr(&self, expr: &mut HirExpr) -> (r: Option<HirResult<HirTy>>)
    ensures
        match check_expr(self.sig(), self.ctx(), old(expr)@) {
            None => r is None,
            Some(c) => r is Some && final(expr)@ == c.expr && res_view(r.unwrap()) == c.res,
        },
        decreases *old(expr), 2int,
    {
        match expr {
            HirExpr::HirBinaryOp(_) => self.check_binary(expr),
            HirExpr::Ident(_) => self.get_ident_ty(expr),
            HirExpr::NewArray(_) => self.check_new_array(expr),
            HirExpr::Unary(_) => self.check_unary(expr),
            HirExpr::Casting(_) => self.check_cast(expr),
            HirExpr::Indexing(_) => self.check_index(expr),
            HirExpr::Assign(_) => self.check_assign(expr),
            HirExpr::ListLiteral(_) => self.check_list(expr),
            HirExpr::Call(_) => self.check_call(expr),
            HirExpr::IntegerLiteral(_) | HirExpr::FloatLiteral(_) | HirExpr::UnsignedIntegerLiteral(_) | HirExpr::BooleanLiteral(_)
            | HirExpr::UnitLiteral(_) | HirExpr::CharLiteral(_) | HirExpr::StringLiteral(_) => self.check_literal(expr),
        }
    }
}

} // verus!
