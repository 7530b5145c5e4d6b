//! The lowering pass: from the syntax tree to the high-level intermediate
//! representation. Types are left uninitialized for the type checker, but
//! for literals and for what the source writes down.
use vstd::prelude::*;
use crate::span::Span;
use crate::frontend::syntax::{
    AstProgram, AstItem, AstFunction, AstObjField, AstBlock, AstStatement, AstExpr, AstLiteral,
    AstType, AstBinaryOp, AstBinaryOpExpr, AstUnaryOp, stmt_span, expr_span, literal_span, type_span,
};
use crate::hir::ty::{
    HirTy, TyView, HirIntegerTy, HirFloatTy, HirUnsignedIntTy, HirUnitTy, HirBooleanTy,
    HirUninitializedTy,
};
use crate::hir::ops::{HirBinaryOp, UnaryOp};
use crate::hir::expr::{
    HirExpr, ExprView, HirAssignExpr, HirBinaryOpExpr, UnaryOpExpr, HirFunctionCallExpr,
    HirIdentExpr, HirIntegerLiteralExpr, HirFloatLiteralExpr, HirUnsignedIntegerLiteralExpr,
    ev_span, ev_ty, exprs_view, lemma_exprs_view,
};
use crate::hir::stmt::{
    HirStatement, HirBlock, HirWhileStmt, HirLetStmt, HirIfElseStmt, HirReturn, HirExprStmt,
    StmtView, BlockView, LetView, stmts_view, lemma_stmts_view,
};
use crate::hir::signature::{
    HirFunctionSignature, HirFunctionParameterSignature, HirTypeParameterItemSignature,
    HirModuleSignature, ParamView, SigView, param_views,
};
use crate::hir::item::{HirFunction, HirImport, HirModule, HirModuleBody, FnView};
use crate::hir::names::{NameMap, placed, entries_view, lemma_placed_view, lemma_position_same_names};
use crate::hir::error::{HirError, HirResult, ErrView};

verus! {

/// The span given to what the source does not locate.
pub open spec fn no_span() -> Span {
    Span { start: 0, end: 0 }
}

/// The type that a written type lowers to; `None` for the types that the
/// pass does not know yet.
pub open spec fn lower_ty(t: AstType) -> Option<TyView> {
    match t {
        AstType::Boolean(_) => Some(TyView::Boolean),
        AstType::Integer(_) => Some(TyView::Int64),
        AstType::Float(_) => Some(TyView::Float64),
        AstType::UnsignedIntegerer(_) => Some(TyView::UInt64),
        AstType::Unit(_) => Some(TyView::Unit),
        _ => None,
    }
}

/// The operator that a binary operator of the source lowers to; the power
/// operator is not supported (the error is at the operation).
pub open spec fn lower_bin_op(op: AstBinaryOp, span: Span) -> Result<HirBinaryOp, ErrView> {
    match op {
        AstBinaryOp::Add => Ok(HirBinaryOp::Add),
        AstBinaryOp::Sub => Ok(HirBinaryOp::Sub),
        AstBinaryOp::Mul => Ok(HirBinaryOp::Mul),
        AstBinaryOp::Div => Ok(HirBinaryOp::Div),
        AstBinaryOp::Mod => Ok(HirBinaryOp::Mod),
        AstBinaryOp::Eq => Ok(HirBinaryOp::Eq),
        AstBinaryOp::NEq => Ok(HirBinaryOp::Neq),
        AstBinaryOp::Lt => Ok(HirBinaryOp::Lt),
        AstBinaryOp::Lte => Ok(HirBinaryOp::Lte),
        AstBinaryOp::Gt => Ok(HirBinaryOp::Gt),
        AstBinaryOp::Gte => Ok(HirBinaryOp::Gte),
        AstBinaryOp::And => Ok(HirBinaryOp::And),
        AstBinaryOp::Or => Ok(HirBinaryOp::Or),
        AstBinaryOp::Pow => Err(ErrView::UnsupportedExpr { span }),
    }
}

/// The unary operator that a unary operator of the source lowers to, if any.
pub open spec fn lower_unary_op(op: Option<AstUnaryOp>) -> Option<UnaryOp> {
    match op {
        Some(AstUnaryOp::Neg) => Some(UnaryOp::Neg),
        Some(AstUnaryOp::Not) => Some(UnaryOp::Not),
        _ => None,
    }
}

/// The lowered expression, or the first error met, the operands from left
/// to right.
pub open spec fn lower_expr(e: AstExpr) -> Result<ExprView, ErrView>
    decreases e, 1int,
{
    match e {
        AstExpr::Assign(a) => match lower_expr(*a.target) {
            Err(x) => Err(x),
            Ok(lhs) => match lower_expr(*a.value) {
                Err(x) => Err(x),
                Ok(rhs) => Ok(ExprView::Assign { span: a.span, lhs: Box::new(lhs), rhs: Box::new(rhs), ty: TyView::Uninitialized }),
            },
        },
        AstExpr::BinaryOp(b) => match lower_expr(*b.lhs) {
            Err(x) => Err(x),
            Ok(lhs) => match lower_expr(*b.rhs) {
                Err(x) => Err(x),
                Ok(rhs) => match lower_bin_op(b.op, b.span) {
                    Err(x) => Err(x),
                    Ok(op) => Ok(ExprView::Binary {
                        span: b.span, op, op_span: no_span(), lhs: Box::new(lhs), rhs: Box::new(rhs), ty: TyView::Uninitialized,
                    }),
                },
            },
        },
        AstExpr::UnaryOp(u) => match lower_expr(*u.expr) {
            Err(x) => Err(x),
            Ok(inner) => Ok(ExprView::Unary { span: u.span, op: lower_unary_op(u.op), expr: Box::new(inner), ty: ev_ty(inner) }),
        },
        AstExpr::Call(c) => match lower_expr(*c.callee) {
            Err(x) => Err(x),
            Ok(callee) => match lower_exprs(c.args@, c.args@.len() as int) {
                Err(x) => Err(x),
                Ok(args) => Ok(ExprView::Call {
                    span: c.span, callee: Box::new(callee), callee_span: ev_span(callee), args,
                    args_ty: Seq::empty(), ty: TyView::Uninitialized,
                }),
            },
        },
        AstExpr::Identifier(i) => Ok(ExprView::Ident { name: i.name, span: i.span, ty: TyView::Uninitialized }),
        AstExpr::Literal(l) => match l {
            AstLiteral::Integer { span, value } => Ok(ExprView::IntegerLiteral { value, span, ty: TyView::Int64 }),
            AstLiteral::Float { span, value } => Ok(ExprView::FloatLiteral { value, span, ty: TyView::Float64 }),
            AstLiteral::UnsignedIntegerer { span, value } => Ok(ExprView::UnsignedIntegerLiteral { value, span, ty: TyView::UInt64 }),
            _ => Err(ErrView::UnsupportedExpr { span: literal_span(l) }),
        },
        _ => Err(ErrView::UnsupportedExpr { span: expr_span(e) }),
    }
}

/// The operator of a lowered binary operation, if it is one.
pub open spec fn lowered_op(r: Result<ExprView, ErrView>) -> Option<HirBinaryOp> {
    match r {
        Ok(ExprView::Binary { op, .. }) => Some(op),
        _ => None,
    }
}

/// Lowering keeps a binary operation's operator: `+ - * / %` stay `Add`,
/// `Sub`, `Mul`, `Div`, `Mod`; `==`, `!=` stay `Eq`, `Neq`; `>`, `>=`, `<`,
/// `<=` stay `Gt`, `Gte`, `Lt`, `Lte`; `&&`, `||` stay `And`, `Or`; the power
/// operator is refused at the operation.
pub proof fn law_lowering_keeps_operators(span: Span, op: AstBinaryOp, lhs: AstExpr, rhs: AstExpr)
    requires
        lower_expr(lhs) is Ok,
        lower_expr(rhs) is Ok,
    ensures
        ({
            let r = lower_expr(AstExpr::BinaryOp(AstBinaryOpExpr { span, lhs: Box::new(lhs), rhs: Box::new(rhs), op }));
            &&& op is Pow ==> r == Err::<ExprView, ErrView>(ErrView::UnsupportedExpr { span })
            &&& op is Add ==> lowered_op(r) == Some(HirBinaryOp::Add)
            &&& op is Sub ==> lowered_op(r) == Some(HirBinaryOp::Sub)
            &&& op is Mul ==> lowered_op(r) == Some(HirBinaryOp::Mul)
            &&& op is Div ==> lowered_op(r) == Some(HirBinaryOp::Div)
            &&& op is Mod ==> lowered_op(r) == Some(HirBinaryOp::Mod)
            &&& op is Eq ==> lowered_op(r) == Some(HirBinaryOp::Eq)
            &&& op is NEq ==> lowered_op(r) == Some(HirBinaryOp::Neq)
            &&& op is Gt ==> lowered_op(r) == Some(HirBinaryOp::Gt)
            &&& op is Gte ==> lowered_op(r) == Some(HirBinaryOp::Gte)
            &&& op is Lt ==> lowered_op(r) == Some(HirBinaryOp::Lt)
            &&& op is Lte ==> lowered_op(r) == Some(HirBinaryOp::Lte)
            &&& op is And ==> lowered_op(r) == Some(HirBinaryOp::And)
            &&& op is Or ==> lowered_op(r) == Some(HirBinaryOp::Or)
        }),
{
}

/// Two operators that lower alike are the same operator.
pub proof fn law_lowering_operators_injective(a: AstBinaryOp, b: AstBinaryOp, span: Span)
    requires
        lower_bin_op(a, span) is Ok,
        lower_bin_op(a, span) == lower_bin_op(b, span),
    ensures
        a == b,
{
}

/// The first `n` expressions of `es` lowered, or the first error met.
pub open spec fn lower_exprs(es: Seq<AstExpr>, n: int) -> Result<Seq<ExprView>, ErrView>
    decreases es, n,
{
    if n <= 0 || n > es.len() {
        Ok(Seq::empty())
    } else {
        match lower_exprs(es, n - 1) {
            Err(x) => Err(x),
            Ok(v) => match lower_expr(es[n - 1]) {
                Err(x) => Err(x),
                Ok(e) => Ok(v.push(e)),
            },
        }
    }
}

/// The lowered statement, the first error met, or `None` where the pass
/// meets a type that it does not know.
pub open spec fn lower_stmt(s: AstStatement) -> Option<Result<StmtView, ErrView>>
    decreases s, 1int,
{
    match s {
        AstStatement::While(w) => match lower_expr(w.condition) {
            Err(x) => Some(Err(x)),
            Ok(condition) => match lower_block(w.body) {
                None => None,
                Some(Err(x)) => Some(Err(x)),
                Some(Ok(body)) => Some(Ok(StmtView::While { span: w.span, condition, body })),
            },
        },
        AstStatement::Let(l) => {
            let ty = match l.ty {
                Some(t) => lower_ty(t),
                None => Some(TyView::Uninitialized),
            };
            match ty {
                None => None,
                Some(t) => match lower_expr(*l.value) {
                    Err(x) => Some(Err(x)),
                    Ok(value) => Some(Ok(StmtView::Let(LetView {
                        span: l.span,
                        name: l.name.name,
                        name_span: l.name.span,
                        ty: match l.ty {
                            Some(_) => Some(t),
                            None => None,
                        },
                        ty_span: match l.ty {
                            Some(w) => Some(type_span(w)),
                            None => None,
                        },
                        value,
                    }))),
                },
            }
        },
        AstStatement::IfElse(i) => match lower_expr(*i.condition) {
            Err(x) => Some(Err(x)),
            Ok(condition) => match lower_block(i.body) {
                None => None,
                Some(Err(x)) => Some(Err(x)),
                Some(Ok(then_branch)) => match i.else_body {
                    None => Some(Ok(StmtView::IfElse { span: i.span, condition, then_branch, else_branch: None })),
                    Some(eb) => match lower_block(eb) {
                        None => None,
                        Some(Err(x)) => Some(Err(x)),
                        Some(Ok(b)) => Some(Ok(StmtView::IfElse { span: i.span, condition, then_branch, else_branch: Some(b) })),
                    },
                },
            },
        },
        AstStatement::Break(sp) => Some(Ok(StmtView::Break(sp))),
        AstStatement::Continue(sp) => Some(Ok(StmtView::Continue(sp))),
        AstStatement::Return(r) => match lower_expr(r.value) {
            Err(x) => Some(Err(x)),
            Ok(value) => Some(Ok(StmtView::Return { span: r.span, value, ty: ev_ty(value) })),
        },
        AstStatement::Expr(e) => match lower_expr(e) {
            Err(x) => Some(Err(x)),
            Ok(expr) => Some(Ok(StmtView::Expr { span: expr_span(e), expr })),
        },
        _ => Some(Err(ErrView::UnsupportedStatement { span: stmt_span(s) })),
    }
}

/// The lowered block (its statements in order, until one fails).
pub open spec fn lower_block(b: AstBlock) -> Option<Result<BlockView, ErrView>>
    decreases b, 2int,
{
    match lower_stmts(b.stmts@, b.stmts@.len() as int) {
        None => None,
        Some(Err(x)) => Some(Err(x)),
        Some(Ok(statements)) => Some(Ok(BlockView { span: b.span, statements })),
    }
}

/// The first `n` statements of `ss` lowered, until one fails.
pub open spec fn lower_stmts(ss: Seq<AstStatement>, n: int) -> Option<Result<Seq<StmtView>, ErrView>>
    decreases ss, n,
{
    if n <= 0 || n > ss.len() {
        Some(Ok(Seq::empty()))
    } else {
        match lower_stmts(ss, n - 1) {
            None => None,
            Some(Err(x)) => Some(Err(x)),
            Some(Ok(v)) => match lower_stmt(ss[n - 1]) {
                None => None,
                Some(Err(x)) => Some(Err(x)),
                Some(Ok(s)) => Some(Ok(v.push(s))),
            },
        }
    }
}

/// A parameter of a function as a type parameter: its name and spans.
pub open spec fn type_param_of(f: AstObjField) -> HirTypeParameterItemSignature {
    HirTypeParameterItemSignature { span: f.span, name: f.name.name, name_span: f.name.span }
}

/// The first `n` parameters of `ps` as type parameters.
pub open spec fn type_params_of(ps: Seq<AstObjField>, n: int) -> Seq<HirTypeParameterItemSignature>
    decreases n,
{
    if n <= 0 || n > ps.len() {
        Seq::empty()
    } else {
        type_params_of(ps, n - 1).push(type_param_of(ps[n - 1]))
    }
}

/// The lowered parameter, where its type is known.
pub open spec fn lower_param(f: AstObjField) -> Option<ParamView> {
    match lower_ty(f.ty) {
        None => None,
        Some(t) => Some(ParamView { span: f.span, name: f.name.name, name_span: f.name.span, ty: t, ty_span: type_span(f.ty) }),
    }
}

/// The first `n` parameters of `ps` lowered, where all their types are known.
pub open spec fn lower_params(ps: Seq<AstObjField>, n: int) -> Option<Seq<ParamView>>
    decreases n,
{
    if n <= 0 || n > ps.len() {
        Some(Seq::empty())
    } else {
        match lower_params(ps, n - 1) {
            None => None,
            Some(v) => match lower_param(ps[n - 1]) {
                None => None,
                Some(p) => Some(v.push(p)),
            },
        }
    }
}

/// The lowered function: `None` where its return type or a parameter's type
/// is not known, else its body's error or the function.
pub open spec fn lower_func(f: AstFunction) -> Option<Result<FnView, ErrView>> {
    match lower_ty(f.ret) {
        None => None,
        Some(ret) => match lower_params(f.args@, f.args@.len() as int) {
            None => None,
            Some(params) => match lower_block(f.body) {
                None => None,
                Some(Err(x)) => Some(Err(x)),
                Some(Ok(body)) => Some(Ok(FnView {
                    span: f.span,
                    name: f.name.name,
                    name_span: f.name.span,
                    signature: SigView {
                        span: f.span,
                        params,
                        type_params: type_params_of(f.args@, f.args@.len() as int),
                        generics: None,
                        return_ty: ret,
                        return_ty_span: Some(type_span(f.ret)),
                        is_external: false,
                    },
                    body,
                })),
            },
        },
    }
}

/// A lowered module as plain values: its functions and their signatures by
/// name, and its imports in order.
pub struct ModuleView {
    pub functions: Seq<(String, FnView)>,
    pub signatures: Seq<(String, SigView)>,
    pub imports: Seq<HirImport>,
}

/// The module after lowering one more item: a function goes under its name
/// (replacing an earlier one of that name), an import is added, other items
/// are skipped.
pub open spec fn lower_item(m: ModuleView, item: AstItem) -> Option<Result<ModuleView, ErrView>> {
    match item {
        AstItem::Func(f) => match lower_func(f) {
            None => None,
            Some(Err(x)) => Some(Err(x)),
            Some(Ok(fv)) => Some(Ok(ModuleView {
                functions: placed(m.functions, f.name.name, fv),
                signatures: placed(m.signatures, f.name.name, fv.signature),
                imports: m.imports,
            })),
        },
        AstItem::Import(i) => Some(Ok(ModuleView {
            functions: m.functions,
            signatures: m.signatures,
            imports: m.imports.push(HirImport { span: i.span, path: i.path, path_span: no_span(), alias: None, alias_span: None }),
        })),
        _ => Some(Ok(m)),
    }
}

/// The module after lowering the first `n` items of `items`, until one fails.
pub open spec fn lower_items(items: Seq<AstItem>, n: int) -> Option<Result<ModuleView, ErrView>>
    decreases n,
{
    if n <= 0 || n > items.len() {
        Some(Ok(ModuleView { functions: Seq::empty(), signatures: Seq::empty(), imports: Seq::empty() }))
    } else {
        match lower_items(items, n - 1) {
            None => None,
            Some(Err(x)) => Some(Err(x)),
            Some(Ok(m)) => lower_item(m, items[n - 1]),
        }
    }
}

/// The signatures of some functions, under their names.
pub open spec fn signatures_of(fns: Seq<(String, FnView)>) -> Seq<(String, SigView)> {
    fns.map_values(|e: (String, FnView)| (e.0, e.1.signature))
}

/// Placing a function and then taking the signatures is taking the
/// signatures and then placing the function's.
pub proof fn lemma_placed_signatures(fns: Seq<(String, FnView)>, k: String, f: FnView)
    ensures
        signatures_of(placed(fns, k, f)) == placed(signatures_of(fns), k, f.signature),
{
    let t = signatures_of(fns);
    assert forall|i: int| 0 <= i < fns.len() implies #[trigger] fns[i].0 == t[i].0 by {}
    lemma_position_same_names(fns, t, k@);
    assert(signatures_of(placed(fns, k, f)) =~= placed(t, k, f.signature));
}

/// The module that lowering builds keeps, under each function's name, that
/// function's signature: its signature map is its function map with each
/// function taken by its signature.
pub proof fn law_signatures_match_functions(items: Seq<AstItem>, n: int)
    requires
        lower_items(items, n) matches Some(Ok(_)),
    ensures
        lower_items(items, n)->Some_0->Ok_0.signatures == signatures_of(lower_items(items, n)->Some_0->Ok_0.functions),
    decreases n,
{
    if n <= 0 || n > items.len() {
        assert(signatures_of(Seq::<(String, FnView)>::empty()) =~= Seq::<(String, SigView)>::empty());
    } else {
        law_signatures_match_functions(items, n - 1);
        let m = lower_items(items, n - 1)->Some_0->Ok_0;
        match items[n - 1] {
            AstItem::Func(f) => {
                let fv = lower_func(f)->Some_0->Ok_0;
                lemma_placed_signatures(m.functions, f.name.name, fv);
            },
            _ => {},
        }
    }
}

/// Lowering a whole program.
pub open spec fn lowering(p: AstProgram) -> Option<Result<ModuleView, ErrView>> {
    lower_items(p.items@, p.items@.len() as int)
}

/// Whether a module holds what a lowered module view says.
pub open spec fn holds_module(m: HirModule, v: ModuleView) -> bool {
    &&& entries_view(m.body.functions.entries()) == v.functions
    &&& entries_view(m.signature.functions.entries()) == v.signatures
    &&& m.body.imports@ == v.imports
}

/// The lowering pass over a program.
pub struct AstSyntaxLoweringPass {
    ast: AstProgram,
}

impl AstSyntaxLoweringPass {
    /// The program that the pass lowers.
    pub closed spec fn ast(&self) -> AstProgram {
        self.ast
    }

    /// A pass over `ast`.
    pub fn new(ast: AstProgram) -> (r: Self)
        ensures
            r.ast() == ast,
    {
        AstSyntaxLoweringPass { ast }
    }

    /// Lowers the program: the module, or the first error met; `None` where
    /// the pass meets a type that it does not know.
    pub fn try_lower(&self) -> (r: Option<HirResult<HirModule>>)
        ensures
            match lowering(self.ast()) {
                None => r is None,
                Some(Err(x)) => r is Some && r.unwrap() is Err && r.unwrap()->Err_0@ == x,
                Some(Ok(v)) => r is Some && r.unwrap() is Ok && holds_module(r.unwrap()->Ok_0, v),
            },
    {
        let mut module_body = HirModuleBody { functions: NameMap::new(), imports: Vec::new() };
        let mut module_signature = HirModuleSignature::new();
        let ghost items = self.ast.items@;
        let n = self.ast.items.len();
        let mut k: usize = 0;
        proof {
            assert(entries_view(module_body.functions.entries()) =~= Seq::empty());
            assert(entries_view(module_signature.functions.entries()) =~= Seq::empty());
            assert(module_body.imports@ =~= Seq::empty());
        }
        while k < n
            invariant
                k <= n,
                n == items.len(),
                items == self.ast.items@,
                lower_items(items, k as int) matches Some(Ok(v)) && holds_module(
                    HirModule { body: module_body, signature: module_signature }, v),
            decreases n - k,
        {
            let ghost v = lower_items(items, k as int).unwrap()->Ok_0;
            match self.visit_item(&mut module_body, &mut module_signature, &self.ast.items[k], Ghost(v)) {
                None => {
                    proof { lemma_lower_items_stops(items, k + 1, n as int); }
                    return None;
                },
                Some(Err(e)) => {
                    proof { lemma_lower_items_stops(items, k + 1, n as int); }
                    return Some(Err(e));
                },
                Some(Ok(())) => {},
            }
            k += 1;
        }
        Some(Ok(HirModule { body: module_body, signature: module_signature }))
    }

    /// Lowers a program on which the pass meets only known types.
    pub fn lower(&self) -> (r: HirResult<HirModule>)
        requires
            lowering(self.ast()) is Some,
        ensures
            match lowering(self.ast()) {
                Some(Err(x)) => r is Err && r->Err_0@ == x,
                Some(Ok(v)) => r is Ok && holds_module(r->Ok_0, v),
                None => false,
            },
    {
        match self.try_lower() {
            Some(r) => r,
            None => Err(HirError::UnsupportedStatement { span: Span { start: 0, end: 0 } }),
        }
    }
}

/// A result of the pass agrees with the plain result.
pub open spec fn lowered_as<T: View>(r: HirResult<T>, s: Result<T::V, ErrView>) -> bool {
    match s {
        Ok(v) => r is Ok && r->Ok_0@ == v,
        Err(x) => r is Err && r->Err_0@ == x,
    }
}

/// A result of the pass agrees with the plain result, `None` with `None`.
pub open spec fn lowered_opt<T: View>(r: Option<HirResult<T>>, s: Option<Result<T::V, ErrView>>) -> bool {
    match s {
        None => r is None,
        Some(x) => r is Some && lowered_as(r.unwrap(), x),
    }
}

impl AstSyntaxLoweringPass {
    /// Lowers one item into the module being built.
    fn visit_item(&self, module_body: &mut HirModuleBody, module_signature: &mut HirModuleSignature, item: &AstItem, Ghost(v): Ghost<ModuleView>) -> (r: Option<HirResult<()>>)
        requires
            holds_module(HirModule { body: *old(module_body), signature: *old(module_signature) }, v),
        ensures
            match lower_item(v, *item) {
                None => r is None,
                Some(Err(x)) => r is Some && r.unwrap() is Err && r.unwrap()->Err_0@ == x,
                Some(Ok(w)) => r is Some && r.unwrap() is Ok
                    && holds_module(HirModule { body: *final(module_body), signature: *final(module_signature) }, w),
            },
    {
        match item {
            AstItem::Func(f) => {
                let fun = match self.visit_func(f) {
                    None => return None,
                    Some(Err(x)) => return Some(Err(x)),
                    Some(Ok(fun)) => fun,
                };
                let name = f.name.name.clone();
                let ghost fs = module_body.functions.entries();
                let ghost ss = module_signature.functions.entries();
                let sig = fun.signature.copy();
                proof {
                    lemma_placed_view(fs, name, fun);
                    lemma_placed_view(ss, name, sig);
                }
                module_signature.functions.insert(name.clone(), sig);
                module_body.functions.insert(name, fun);
                Some(Ok(()))
            },
            AstItem::Import(i) => {
                module_body.imports.push(HirImport {
                    span: i.span,
                    path: i.path.clone(),
                    path_span: Span { start: 0, end: 0 },
                    alias: None,
                    alias_span: None,
                });
                Some(Ok(()))
            },
            _ => Some(Ok(())),
        }
    }

    /// Lowers a function: its parameters serve as its type parameters too.
    fn visit_func(&self, node: &AstFunction) -> (r: Option<HirResult<HirFunction>>)
        ensures
            lowered_opt(r, lower_func(*node)),
    {
        let n = node.args.len();
        let mut type_params: Vec<HirTypeParameterItemSignature> = Vec::new();
        let mut k: usize = 0;
        while k < n
            invariant
                k <= n,
                n == node.args@.len(),
                type_params@ == type_params_of(node.args@, k as int),
            decreases n - k,
        {
            type_params.push(self.visit_type_param_item(&node.args[k]));
            k += 1;
        }
        let ret_type_span = node.ret.span();
        let ret = match self.visit_ty(&node.ret) {
            None => return None,
            Some(t) => t,
        };
        let mut params: Vec<HirFunctionParameterSignature> = Vec::new();
        let mut k: usize = 0;
        while k < n
            invariant
                k <= n,
                n == node.args@.len(),
                lower_params(node.args@, k as int) matches Some(v) && v.len() == k && params@.len() == k
                    && forall|i: int| 0 <= i < k ==> #[trigger] params@[i]@ == v[i],
            decreases n - k,
        {
            match self.visit_func_param(&node.args[k]) {
                None => {
                    proof { lemma_lower_params_stops(node.args@, k + 1, n as int); }
                    return None;
                },
                Some(p) => params.push(p),
            }
            k += 1;
        }
        let body = match self.visit_block(&node.body) {
            None => return None,
            Some(Err(x)) => return Some(Err(x)),
            Some(Ok(b)) => b,
        };
        proof {
            assert(param_views(params@) =~= lower_params(node.args@, n as int).unwrap());
        }
        Some(Ok(HirFunction {
            span: node.span,
            name: node.name.name.clone(),
            name_span: node.name.span,
            signature: HirFunctionSignature {
                span: node.span,
                params,
                type_params,
                generics: None,
                return_ty: ret,
                return_ty_span: Some(ret_type_span),
                is_external: false,
            },
            body,
        }))
    }

    /// Lowers a parameter, where its type is known.
    fn visit_func_param(&self, node: &AstObjField) -> (r: Option<HirFunctionParameterSignature>)
        ensures
            match lower_param(*node) {
                None => r is None,
                Some(p) => r is Some && r.unwrap()@ == p,
            },
    {
        let ty = match self.visit_ty(&node.ty) {
            None => return None,
            Some(t) => t,
        };
        Some(HirFunctionParameterSignature {
            span: node.span,
            name: node.name.name.clone(),
            name_span: node.name.span,
            ty,
            ty_span: node.ty.span(),
        })
    }

    /// A parameter as a type parameter.
    fn visit_type_param_item(&self, node: &AstObjField) -> (r: HirTypeParameterItemSignature)
        ensures
            r == type_param_of(*node),
    {
        HirTypeParameterItemSignature { span: node.span, name: node.name.name.clone(), name_span: node.name.span }
    }

    /// Lowers a written type, where the pass knows it.
    fn visit_ty(&self, node: &AstType) -> (r: Option<HirTy>)
        ensures
            match lower_ty(*node) {
                None => r is None,
                Some(t) => r is Some && r.unwrap()@ == t,
            },
    {
        match node {
            AstType::Boolean(_) => Some(HirTy::Boolean(HirBooleanTy {})),
            AstType::Integer(_) => Some(HirTy::Int64(HirIntegerTy {})),
            AstType::Float(_) => Some(HirTy::Float64(HirFloatTy {})),
            AstType::UnsignedIntegerer(_) => Some(HirTy::UInt64(HirUnsignedIntTy {})),
            AstType::Unit(_) => Some(HirTy::Unit(HirUnitTy {})),
            _ => None,
        }
    }

    /// Lowers a binary operator of the operation at `span`.
    fn visit_bin_op(&self, bin_op: AstBinaryOp, span: Span) -> (r: HirResult<HirBinaryOp>)
        ensures
            match lower_bin_op(bin_op, span) {
                Ok(o) => r is Ok && r->Ok_0 == o,
                Err(x) => r is Err && r->Err_0@ == x,
            },
    {
        match bin_op {
            AstBinaryOp::Add => Ok(HirBinaryOp::Add),
            AstBinaryOp::Sub => Ok(HirBinaryOp::Sub),
            AstBinaryOp::Mul => Ok(HirBinaryOp::Mul),
            AstBinaryOp::Div => Ok(HirBinaryOp::Div),
            AstBinaryOp::Mod => Ok(HirBinaryOp::Mod),
            AstBinaryOp::Eq => Ok(HirBinaryOp::Eq),
            AstBinaryOp::NEq => Ok(HirBinaryOp::Neq),
            AstBinaryOp::Lt => Ok(HirBinaryOp::Lt),
            AstBinaryOp::Lte => Ok(HirBinaryOp::Lte),
            AstBinaryOp::Gt => Ok(HirBinaryOp::Gt),
            AstBinaryOp::Gte => Ok(HirBinaryOp::Gte),
            AstBinaryOp::And => Ok(HirBinaryOp::And),
            AstBinaryOp::Or => Ok(HirBinaryOp::Or),
            AstBinaryOp::Pow => Err(HirError::UnsupportedExpr { span }),
        }
    }

    /// Lowers an expression.
    fn visit_expr(&self, node: &AstExpr) -> (r: HirResult<HirExpr>)
        ensures
            lowered_as(r, lower_expr(*node)),
        decreases node, 1int,
    {
        match node {
            AstExpr::Assign(a) => {
                let lhs = match self.visit_expr(&a.target) {
                    Ok(e) => e,
                    Err(x) => return Err(x),
                };
                let rhs = match self.visit_expr(&a.value) {
                    Ok(e) => e,
                    Err(x) => return Err(x),
                };
                Ok(HirExpr::Assign(HirAssignExpr {
                    span: a.span,
                    lhs: Box::new(lhs),
                    rhs: Box::new(rhs),
                    ty: HirTy::Uninitialized(HirUninitializedTy {}),
                }))
            },
            AstExpr::BinaryOp(b) => {
                let lhs = match self.visit_expr(&b.lhs) {
                    Ok(e) => e,
                    Err(x) => return Err(x),
                };
                let rhs = match self.visit_expr(&b.rhs) {
                    Ok(e) => e,
                    Err(x) => return Err(x),
                };
                let op = match self.visit_bin_op(b.op, b.span) {
                    Ok(o) => o,
                    Err(x) => return Err(x),
                };
                Ok(HirExpr::HirBinaryOp(HirBinaryOpExpr {
                    span: b.span,
                    op,
                    op_span: Span { start: 0, end: 0 },
                    lhs: Box::new(lhs),
                    rhs: Box::new(rhs),
                    ty: HirTy::Uninitialized(HirUninitializedTy {}),
                }))
            },
            AstExpr::UnaryOp(u) => {
                let expr = match self.visit_expr(&u.expr) {
                    Ok(e) => e,
                    Err(x) => return Err(x),
                };
                let op = match u.op {
                    Some(AstUnaryOp::Neg) => Some(UnaryOp::Neg),
                    Some(AstUnaryOp::Not) => Some(UnaryOp::Not),
                    _ => None,
                };
                let ty = expr.ty().copy();
                Ok(HirExpr::Unary(UnaryOpExpr { span: u.span, op, expr: Box::new(expr), ty }))
            },
            AstExpr::Call(c) => {
                let callee = match self.visit_expr(&c.callee) {
                    Ok(e) => e,
                    Err(x) => return Err(x),
                };
                let callee_span = callee.span();
                let n = c.args.len();
                let mut args: Vec<HirExpr> = Vec::new();
                let mut k: usize = 0;
                while k < n
                    invariant
                        k <= n,
                        n == c.args@.len(),
                        *node == AstExpr::Call(*c),
                        lower_expr(*c.callee) == Ok::<ExprView, ErrView>(callee@),
                        lower_exprs(c.args@, k as int) matches Ok(v) && v.len() == k && args@.len() == k
                            && forall|i: int| 0 <= i < k ==> #[trigger] args@[i]@ == v[i],
                    decreases n - k,
                {
                    proof {
                        assert(decreases_to!(*node => (*node)->Call_0));
                        assert(decreases_to!(*c => c.args));
                        assert(decreases_to!(c.args => c.args@));
                        assert(decreases_to!(c.args@ => c.args@[k as int]));
                    }
                    match self.visit_expr(&c.args[k]) {
                        Ok(e) => args.push(e),
                        Err(x) => {
                            proof { lemma_lower_exprs_stops(c.args@, k + 1, n as int); }
                            return Err(x);
                        },
                    }
                    k += 1;
                }
                proof {
                    let ghost v = lower_exprs(c.args@, n as int)->Ok_0;
                    assert(v.len() == n);
                    lemma_exprs_view(args@, n as int);
                    assert forall|i: int| 0 <= i < n implies #[trigger] exprs_view(args@, n as int)[i] == v[i] by {
                        assert(args@[i]@ == v[i]);
                    }
                    assert(exprs_view(args@, n as int) =~= v);
                    assert(crate::hir::ty::tys_view(Seq::<HirTy>::empty(), 0) =~= Seq::<TyView>::empty());
                }
                Ok(HirExpr::Call(HirFunctionCallExpr {
                    span: c.span,
                    callee: Box::new(callee),
                    callee_span,
                    args,
                    args_ty: Vec::new(),
                    ty: HirTy::Uninitialized(HirUninitializedTy {}),
                }))
            },
            AstExpr::Identifier(i) => Ok(HirExpr::Ident(HirIdentExpr {
                name: i.name.clone(),
                span: i.span,
                ty: HirTy::Uninitialized(HirUninitializedTy {}),
            })),
            AstExpr::Literal(l) => match l {
                AstLiteral::Integer { span, value } => Ok(HirExpr::IntegerLiteral(HirIntegerLiteralExpr {
                    span: *span,
                    value: *value,
                    ty: HirTy::Int64(HirIntegerTy {}),
                })),
                AstLiteral::Float { span, value } => Ok(HirExpr::FloatLiteral(HirFloatLiteralExpr {
                    span: *span,
                    value: *value,
                    ty: HirTy::Float64(HirFloatTy {}),
                })),
                AstLiteral::UnsignedIntegerer { span, value } => Ok(HirExpr::UnsignedIntegerLiteral(HirUnsignedIntegerLiteralExpr {
                    span: *span,
                    value: *value,
                    ty: HirTy::UInt64(HirUnsignedIntTy {}),
                })),
                _ => Err(HirError::UnsupportedExpr { span: l.span() }),
            },
            _ => Err(HirError::UnsupportedExpr { span: node.span() }),
        }
    }

    /// Lowers a statement.
    fn visit_stmt(&self, node: &AstStatement) -> (r: Option<HirResult<HirStatement>>)
        ensures
            lowered_opt(r, lower_stmt(*node)),
        decreases node, 1int,
    {
        match node {
            AstStatement::While(w) => {
                let condition = match self.visit_expr(&w.condition) {
                    Ok(e) => e,
                    Err(x) => return Some(Err(x)),
                };
                let body = match self.visit_block(&w.body) {
                    None => return None,
                    Some(Err(x)) => return Some(Err(x)),
                    Some(Ok(b)) => b,
                };
                Some(Ok(HirStatement::While(HirWhileStmt { span: w.span, condition, body })))
            },
            AstStatement::Let(l) => {
                let ty = match &l.ty {
                    Some(t) => match self.visit_ty(t) {
                        None => return None,
                        Some(t) => Some(t),
                    },
                    None => None,
                };
                let ty_span = match &l.ty {
                    Some(t) => Some(t.span()),
                    None => None,
                };
                let value = match self.visit_expr(&l.value) {
                    Ok(e) => e,
                    Err(x) => return Some(Err(x)),
                };
                Some(Ok(HirStatement::Let(HirLetStmt {
                    span: l.span,
                    name: l.name.name.clone(),
                    name_span: l.name.span,
                    ty,
                    ty_span,
                    value,
                })))
            },
            AstStatement::IfElse(i) => {
                let condition = match self.visit_expr(&i.condition) {
                    Ok(e) => e,
                    Err(x) => return Some(Err(x)),
                };
                let then_branch = match self.visit_block(&i.body) {
                    None => return None,
                    Some(Err(x)) => return Some(Err(x)),
                    Some(Ok(b)) => b,
                };
                let else_branch = match &i.else_body {
                    Some(eb) => match self.visit_block(eb) {
                        None => return None,
                        Some(Err(x)) => return Some(Err(x)),
                        Some(Ok(b)) => Some(b),
                    },
                    None => None,
                };
                Some(Ok(HirStatement::IfElse(HirIfElseStmt { span: i.span, condition, then_branch, else_branch })))
            },
            AstStatement::Break(sp) => Some(Ok(HirStatement::Break(*sp))),
            AstStatement::Continue(sp) => Some(Ok(HirStatement::Continue(*sp))),
            AstStatement::Return(r) => {
                let value = match self.visit_expr(&r.value) {
                    Ok(e) => e,
                    Err(x) => return Some(Err(x)),
                };
                let ty = value.ty().copy();
                Some(Ok(HirStatement::Return(HirReturn { span: r.span, value, ty })))
            },
            AstStatement::Expr(e) => {
                let expr = match self.visit_expr(e) {
                    Ok(x) => x,
                    Err(x) => return Some(Err(x)),
                };
                Some(Ok(HirStatement::Expr(HirExprStmt { span: e.span(), expr })))
            },
            _ => Some(Err(HirError::UnsupportedStatement { span: node.span() })),
        }
    }

    /// Lowers the statements of a block, in order, until one fails.
    fn visit_block(&self, node: &AstBlock) -> (r: Option<HirResult<HirBlock>>)
        ensures
            lowered_opt(r, lower_block(*node)),
        decreases node, 2int,
    {
        let n = node.stmts.len();
        let mut statements: Vec<HirStatement> = Vec::new();
        let mut k: usize = 0;
        while k < n
            invariant
                k <= n,
                n == node.stmts@.len(),
                lower_stmts(node.stmts@, k as int) matches Some(Ok(v)) && v.len() == k && statements@.len() == k
                    && forall|i: int| 0 <= i < k ==> #[trigger] statements@[i]@ == v[i],
            decreases n - k,
        {
            proof {
                assert(decreases_to!(*node => node.stmts));
                assert(decreases_to!(node.stmts => node.stmts@));
                assert(decreases_to!(node.stmts@ => node.stmts@[k as int]));
            }
            match self.visit_stmt(&node.stmts[k]) {
                None => {
                    proof { lemma_lower_stmts_stops(node.stmts@, k + 1, n as int); }
                    return None;
                },
                Some(Err(x)) => {
                    proof { lemma_lower_stmts_stops(node.stmts@, k + 1, n as int); }
                    return Some(Err(x));
                },
                Some(Ok(s)) => statements.push(s),
            }
            k += 1;
        }
        proof {
            let ghost v = lower_stmts(node.stmts@, n as int).unwrap()->Ok_0;
            assert(v.len() == n);
            lemma_stmts_view(statements@, n as int);
            assert forall|i: int| 0 <= i < n implies #[trigger] stmts_view(statements@, n as int)[i] == v[i] by {
                assert(statements@[i]@ == v[i]);
            }
            assert(stmts_view(statements@, n as int) =~= v);
        }
        Some(Ok(HirBlock { span: node.span, statements }))
    }
}

/// Once lowering expressions fails, lowering more fails the same way.
pub proof fn lemma_lower_exprs_stops(es: Seq<AstExpr>, k: int, n: int)
    requires
        0 <= k <= n <= es.len(),
        lower_exprs(es, k) is Err,
    ensures
        lower_exprs(es, n) == lower_exprs(es, k),
    decreases n,
{
    if n > k {
        lemma_lower_exprs_stops(es, k, n - 1);
    }
}

/// Once lowering statements stops, lowering more stops the same way.
pub proof fn lemma_lower_stmts_stops(ss: Seq<AstStatement>, k: int, n: int)
    requires
        0 <= k <= n <= ss.len(),
        !(lower_stmts(ss, k) matches Some(Ok(_))),
    ensures
        lower_stmts(ss, n) == lower_stmts(ss, k),
    decreases n,
{
    if n > k {
        lemma_lower_stmts_stops(ss, k, n - 1);
    }
}

/// Once a parameter's type is unknown, so it stays.
pub proof fn lemma_lower_params_stops(ps: Seq<AstObjField>, k: int, n: int)
    requires
        0 <= k <= n <= ps.len(),
        lower_params(ps, k) is None,
    ensures
        lower_params(ps, n) is None,
    decreases n,
{
    if n > k {
        lemma_lower_params_stops(ps, k, n - 1);
    }
}

/// Once lowering items stops, lowering more stops the same way.
pub proof fn lemma_lower_items_stops(items: Seq<AstItem>, k: int, n: int)
    requires
        0 <= k <= n <= items.len(),
        !(lower_items(items, k) matches Some(Ok(_))),
    ensures
        lower_items(items, n) == lower_items(items, k),
    decreases n,
{
    if n > k {
        lemma_lower_items_stops(items, k, n - 1);
    }
}

} // verus!
