//! The code generator: from a checked module of the high-level intermediate
//! representation to a program of the VM.
use vstd::prelude::*;
use crate::vm::instruction::{ImportedLibrary, Instruction, Label, LabelView, Program, ProgramView, Type};
use crate::hir::ty::{HirTy, TyView};
use crate::hir::ops::{HirBinaryOp, UnaryOp};
use crate::hir::expr::{HirExpr, ExprView, ev_span, ev_ty, exprs_view, lemma_exprs_view, expr_view};
use crate::hir::stmt::{HirStatement, HirBlock, StmtView, BlockView, sv_span, stmts_view, lemma_stmts_view, block_view, stmt_view};
use crate::hir::signature::{HirModuleSignature, HirFunctionSignature, ParamView};
use crate::hir::item::{HirModule, HirFunction, HirImport};
use crate::hir::names::lookup;
use crate::hir::error::{HirError, HirResult};

verus! {

/// What generating a piece of code does: the string pool after it, the
/// instructions it emits, and the error it stops with, if any.
pub struct Gen {
    pub pool: Seq<String>,
    pub code: Seq<Instruction>,
    pub err: Option<HirError>,
}

/// Nothing emitted, nothing failed.
pub open spec fn nothing(pool: Seq<String>) -> Gen {
    Gen { pool, code: Seq::empty(), err: None }
}

/// `g`, then `instrs` where `g` did not fail.
pub open spec fn emit(g: Gen, instrs: Seq<Instruction>) -> Gen {
    if g.err is Some {
        g
    } else {
        Gen { pool: g.pool, code: g.code + instrs, err: None }
    }
}

/// `g`, then `h`, which starts from the pool that `g` leaves.
pub open spec fn join(g: Gen, h: Gen) -> Gen {
    Gen { pool: h.pool, code: g.code + h.code, err: h.err }
}

/// `g`, stopped by `e`.
pub open spec fn failed(g: Gen, e: HirError) -> Gen {
    Gen { pool: g.pool, code: g.code, err: Some(e) }
}

/// The result that a generation reports.
pub open spec fn outcome(g: Gen) -> HirResult<()> {
    match g.err {
        None => Ok(()),
        Some(e) => Err(e),
    }
}

/// The instruction of a binary operator on operands of type `ty`; `None` where
/// the generator has none (it stops there).
pub open spec fn bin_instr(op: HirBinaryOp, ty: TyView) -> Option<Instruction> {
    match op {
        HirBinaryOp::Add => match ty {
            TyView::Int64 => Some(Instruction::IAdd),
            TyView::Float64 => Some(Instruction::FAdd),
            TyView::UInt64 => Some(Instruction::UIAdd),
            _ => None,
        },
        HirBinaryOp::Sub => match ty {
            TyView::Int64 => Some(Instruction::ISub),
            TyView::Float64 => Some(Instruction::FSub),
            TyView::UInt64 => Some(Instruction::UISub),
            _ => None,
        },
        HirBinaryOp::Mul => match ty {
            TyView::Int64 => Some(Instruction::IMul),
            TyView::Float64 => Some(Instruction::FMul),
            TyView::UInt64 => Some(Instruction::UIMul),
            _ => None,
        },
        HirBinaryOp::Div => match ty {
            TyView::Int64 => Some(Instruction::IDiv),
            TyView::Float64 => Some(Instruction::FDiv),
            TyView::UInt64 => Some(Instruction::UIDiv),
            TyView::Char => Some(Instruction::IDiv),
            _ => None,
        },
        HirBinaryOp::Mod => match ty {
            TyView::Int64 => Some(Instruction::IMod),
            TyView::UInt64 => Some(Instruction::IMod),
            _ => None,
        },
        HirBinaryOp::Eq => Some(Instruction::Eq),
        HirBinaryOp::Neq => Some(Instruction::Neq),
        HirBinaryOp::Gt => Some(Instruction::Gt),
        HirBinaryOp::Gte => Some(Instruction::Gte),
        HirBinaryOp::Lt => Some(Instruction::Lt),
        HirBinaryOp::Lte => Some(Instruction::Lte),
        HirBinaryOp::And => None,
        HirBinaryOp::Or => None,
    }
}

/// Whether `r` is the code of the left operand (`g1`), that of the right
/// one (`g2`), then `i`.
pub open spec fn ends_with_op(r: Option<Gen>, g1: Gen, g2: Gen, i: Instruction) -> bool {
    r == Some(Gen { pool: g2.pool, code: g1.code + g2.code + seq![i], err: None })
}

/// The code of a binary operation evaluates its left operand, then its right
/// one, then runs the VM instruction of the same operator: `==`, `!=`, `>`,
/// `>=`, `<`, `<=` become `Eq`, `Neq`, `Gt`, `Gte`, `Lt`, `Lte` whatever the
/// operands' type; on signed integers `+ - * / %` become `IAdd`, `ISub`,
/// `IMul`, `IDiv`, `IMod`, on unsigned ones `UIAdd`, `UISub`, `UIMul`,
/// `UIDiv`, `IMod`.
pub proof fn law_binary_code(sig: Seq<(String, HirFunctionSignature)>, pool: Seq<String>, span: crate::span::Span, op: HirBinaryOp, op_span: crate::span::Span, lhs: ExprView, rhs: ExprView, ty: TyView)
    requires
        gen_expr(sig, pool, lhs) is Some,
        gen_expr(sig, pool, lhs).unwrap().err is None,
        gen_expr(sig, gen_expr(sig, pool, lhs).unwrap().pool, rhs) is Some,
        gen_expr(sig, gen_expr(sig, pool, lhs).unwrap().pool, rhs).unwrap().err is None,
    ensures
        ({
            let r = gen_expr(sig, pool, ExprView::Binary { span, op, op_span, lhs: Box::new(lhs), rhs: Box::new(rhs), ty });
            let g1 = gen_expr(sig, pool, lhs).unwrap();
            let g2 = gen_expr(sig, g1.pool, rhs).unwrap();
            &&& op is Eq ==> ends_with_op(r, g1, g2, Instruction::Eq)
            &&& op is Neq ==> ends_with_op(r, g1, g2, Instruction::Neq)
            &&& op is Gt ==> ends_with_op(r, g1, g2, Instruction::Gt)
            &&& op is Gte ==> ends_with_op(r, g1, g2, Instruction::Gte)
            &&& op is Lt ==> ends_with_op(r, g1, g2, Instruction::Lt)
            &&& op is Lte ==> ends_with_op(r, g1, g2, Instruction::Lte)
            &&& (ty is Int64 && op is Add) ==> ends_with_op(r, g1, g2, Instruction::IAdd)
            &&& (ty is Int64 && op is Sub) ==> ends_with_op(r, g1, g2, Instruction::ISub)
            &&& (ty is Int64 && op is Mul) ==> ends_with_op(r, g1, g2, Instruction::IMul)
            &&& (ty is Int64 && op is Div) ==> ends_with_op(r, g1, g2, Instruction::IDiv)
            &&& (ty is Int64 && op is Mod) ==> ends_with_op(r, g1, g2, Instruction::IMod)
            &&& (ty is UInt64 && op is Add) ==> ends_with_op(r, g1, g2, Instruction::UIAdd)
            &&& (ty is UInt64 && op is Sub) ==> ends_with_op(r, g1, g2, Instruction::UISub)
            &&& (ty is UInt64 && op is Mul) ==> ends_with_op(r, g1, g2, Instruction::UIMul)
            &&& (ty is UInt64 && op is Div) ==> ends_with_op(r, g1, g2, Instruction::UIDiv)
            &&& (ty is UInt64 && op is Mod) ==> ends_with_op(r, g1, g2, Instruction::IMod)
        }),
{
    let g1 = gen_expr(sig, pool, lhs).unwrap();
    let g2 = gen_expr(sig, g1.pool, rhs).unwrap();
    assert(join(g1, g2).err is None);
}

/// The instructions that negate a value of type `ty` (`0 - x`); `None` where
/// it cannot be negated.
pub open spec fn neg_code(ty: TyView) -> Option<Seq<Instruction>> {
    match ty {
        TyView::Int64 => Some(seq![Instruction::PushInt(0), Instruction::Swap, Instruction::ISub]),
        TyView::Float64 => Some(seq![Instruction::PushFloat(0), Instruction::Swap, Instruction::FSub]),
        TyView::Char => Some(seq![Instruction::PushInt(0), Instruction::Swap, Instruction::ISub]),
        _ => None,
    }
}

/// The type that `CastTo` converts to for a target type; `None` where there is
/// none.
pub open spec fn cast_type(ty: TyView) -> Option<Type> {
    match ty {
        TyView::Int64 => Some(Type::Integer),
        TyView::Float64 => Some(Type::Float),
        TyView::UInt64 => Some(Type::UnsignedInteger),
        TyView::Boolean => Some(Type::Boolean),
        TyView::String => Some(Type::String),
        TyView::Char => Some(Type::Char),
        _ => None,
    }
}

/// Generating the code of an expression, which leaves its value on the stack;
/// `None` where the generator stops without a result.
pub open spec fn gen_expr(sig: Seq<(String, HirFunctionSignature)>, pool: Seq<String>, e: ExprView) -> Option<Gen>
    decreases e, 0int,
{
    match e {
        ExprView::Assign { span, lhs, rhs, .. } => match *lhs {
            ExprView::Ident { name, .. } => match gen_expr(sig, pool, *rhs) {
                None => None,
                Some(g) => Some(emit(g, seq![Instruction::Store { var_name: name }, Instruction::PushUnit])),
            },
            ExprView::Indexing { target, index, .. } => match gen_expr(sig, pool, *index) {
                None => None,
                Some(g1) => if g1.err is Some {
                    Some(g1)
                } else {
                    match gen_expr(sig, g1.pool, *target) {
                        None => None,
                        Some(g2) => if g2.err is Some {
                            Some(join(g1, g2))
                        } else {
                            match gen_expr(sig, g2.pool, *rhs) {
                                None => None,
                                Some(g3) => Some(emit(join(join(g1, g2), g3), seq![Instruction::ListStore, Instruction::PushUnit])),
                            }
                        },
                    }
                },
            },
            _ => Some(failed(nothing(pool), HirError::UnsupportedExpr { span })),
        },
        ExprView::Binary { op, lhs, rhs, ty, .. } => match gen_expr(sig, pool, *lhs) {
            None => None,
            Some(g1) => if g1.err is Some {
                Some(g1)
            } else {
                match gen_expr(sig, g1.pool, *rhs) {
                    None => None,
                    Some(g2) => if g2.err is Some {
                        Some(join(g1, g2))
                    } else {
                        match bin_instr(op, ty) {
                            None => None,
                            Some(i) => Some(emit(join(g1, g2), seq![i])),
                        }
                    },
                }
            },
        },
        ExprView::Unary { span, op, expr, .. } => match gen_expr(sig, pool, *expr) {
            None => None,
            Some(g) => if g.err is Some {
                Some(g)
            } else {
                match op {
                    None => Some(g),
                    Some(UnaryOp::Neg) => match neg_code(ev_ty(*expr)) {
                        Some(c) => Some(emit(g, c)),
                        None => Some(failed(g, HirError::UnsupportedExpr { span })),
                    },
                    Some(UnaryOp::Not) => if ev_ty(*expr) is Boolean {
                        Some(emit(g, seq![Instruction::PushBool(false), Instruction::Eq]))
                    } else {
                        Some(failed(g, HirError::UnsupportedExpr { span }))
                    },
                }
            },
        },
        ExprView::Casting { span, expr, ty } => match gen_expr(sig, pool, *expr) {
            None => None,
            Some(g) => if g.err is Some {
                Some(g)
            } else {
                match cast_type(ty) {
                    Some(t) => Some(emit(g, seq![Instruction::CastTo(t)])),
                    None => Some(failed(g, HirError::UnsupportedExpr { span })),
                }
            },
        },
        ExprView::Indexing { target, index, .. } => match gen_expr(sig, pool, *target) {
            None => None,
            Some(g1) => if g1.err is Some {
                Some(g1)
            } else {
                match gen_expr(sig, g1.pool, *index) {
                    None => None,
                    Some(g2) => Some(emit(join(g1, g2), seq![Instruction::ListLoad])),
                }
            },
        },
        ExprView::Call { span, callee, args, .. } => match gen_exprs(sig, pool, args, args.len() as int) {
            None => None,
            Some(g) => if g.err is Some {
                Some(g)
            } else {
                match *callee {
                    ExprView::Ident { name, .. } => match lookup(sig, name@) {
                        None => None,
                        Some(f) => Some(emit(g, seq![
                            if f.is_external {
                                Instruction::ExternCall { function_name: name, nb_args: args.len() as u8 }
                            } else {
                                Instruction::FunctionCall { function_name: name, nb_args: args.len() as u8 }
                            },
                        ])),
                    },
                    _ => Some(failed(g, HirError::UnsupportedExpr { span })),
                }
            },
        },
        ExprView::IntegerLiteral { value, .. } => Some(emit(nothing(pool), seq![Instruction::PushInt(value)])),
        ExprView::FloatLiteral { value, .. } => Some(emit(nothing(pool), seq![Instruction::PushFloat(value)])),
        ExprView::BooleanLiteral { value, .. } => Some(emit(nothing(pool), seq![Instruction::PushBool(value)])),
        ExprView::CharLiteral { value, .. } => Some(emit(nothing(pool), seq![Instruction::PushChar(value)])),
        ExprView::UnitLiteral { .. } => Some(emit(nothing(pool), seq![Instruction::PushUnit])),
        ExprView::UnsignedIntegerLiteral { value, .. } => Some(emit(nothing(pool), seq![Instruction::PushUnsignedInt(value)])),
        ExprView::StringLiteral { value, .. } => if pool.len() < usize::MAX {
            Some(Gen { pool: pool.push(value), code: seq![Instruction::PushStr(pool.len() as usize)], err: None })
        } else {
            None
        },
        ExprView::ListLiteral { items, .. } => match gen_items(sig, pool, items, items.len() as int) {
            None => None,
            Some(g) => Some(Gen {
                pool: g.pool,
                code: seq![Instruction::PushUnsignedInt(items.len() as u64), Instruction::NewList] + g.code,
                err: None,
            }),
        },
        ExprView::NewArray { size, .. } => match gen_expr(sig, pool, *size) {
            None => None,
            Some(g) => Some(emit(g, seq![Instruction::NewList])),
        },
        ExprView::Ident { name, .. } => Some(emit(nothing(pool), seq![Instruction::Load { var_name: name }])),
    }
}

/// Generating the code of the first `n` expressions of `es`, in order, until
/// one fails.
pub open spec fn gen_exprs(sig: Seq<(String, HirFunctionSignature)>, pool: Seq<String>, es: Seq<ExprView>, n: int) -> Option<Gen>
    decreases es, n,
{
    if n <= 0 || n > es.len() {
        Some(nothing(pool))
    } else {
        match gen_exprs(sig, pool, es, n - 1) {
            None => None,
            Some(g1) => if g1.err is Some {
                Some(g1)
            } else {
                match gen_expr(sig, g1.pool, es[n - 1]) {
                    None => None,
                    Some(g2) => Some(join(g1, g2)),
                }
            },
        }
    }
}

/// Generating the stores of the first `n` items of a list literal (the list on
/// the stack): each must generate, or the generator stops.
pub open spec fn gen_items(sig: Seq<(String, HirFunctionSignature)>, pool: Seq<String>, items: Seq<ExprView>, n: int) -> Option<Gen>
    decreases items, n,
{
    if n <= 0 || n > items.len() {
        Some(nothing(pool))
    } else {
        match gen_items(sig, pool, items, n - 1) {
            None => None,
            Some(g1) => match gen_expr(sig, g1.pool, items[n - 1]) {
                None => None,
                Some(g2) => if g2.err is Some {
                    None
                } else {
                    Some(Gen {
                        pool: g2.pool,
                        code: g1.code + seq![Instruction::Dup, Instruction::PushUnsignedInt((n - 1) as u64), Instruction::Swap]
                            + g2.code + seq![Instruction::ListStore],
                        err: None,
                    })
                },
            },
        }
    }
}


/// Generating the code of a statement, whose code starts at position `base` of
/// the instructions that hold it (jumps back to the start of a loop are
/// relative); `None` where the generator stops without a result.
pub open spec fn gen_stmt(sig: Seq<(String, HirFunctionSignature)>, pool: Seq<String>, s: StmtView, base: int) -> Option<Gen>
    decreases s, 0int,
{
    match s {
        StmtView::Return { value, .. } => match gen_expr(sig, pool, value) {
            None => None,
            Some(g) => Some(emit(g, seq![Instruction::Return])),
        },
        StmtView::Expr { expr, .. } => match gen_expr(sig, pool, expr) {
            None => None,
            Some(g) => Some(emit(g, seq![Instruction::Pop])),
        },
        StmtView::Let(l) => match gen_expr(sig, pool, l.value) {
            None => None,
            Some(g) => if g.err is Some {
                Some(Gen { pool: g.pool, code: Seq::empty(), err: g.err })
            } else {
                Some(Gen { pool: g.pool, code: g.code.push(Instruction::Store { var_name: l.name }), err: None })
            },
        },
        StmtView::IfElse { condition, then_branch, else_branch, .. } => match gen_expr(sig, pool, condition) {
            None => None,
            Some(c) => if c.err is Some {
                Some(c)
            } else {
                match gen_block(sig, c.pool, then_branch, 0) {
                    None => None,
                    Some(t) => if t.err is Some {
                        Some(Gen { pool: t.pool, code: c.code, err: t.err })
                    } else {
                        let extra: int = if else_branch is Some { 1 } else { 0 };
                        if t.code.len() + extra > usize::MAX {
                            None
                        } else {
                            let head = c.code.push(Instruction::JmpZ { pos: (t.code.len() + extra) as isize }) + t.code;
                            match else_branch {
                                None => Some(Gen { pool: t.pool, code: head, err: None }),
                                Some(eb) => match gen_block(sig, t.pool, eb, 0) {
                                    None => None,
                                    Some(el) => if el.err is Some {
                                        Some(Gen { pool: el.pool, code: head, err: el.err })
                                    } else if el.code.len() + 1 > usize::MAX {
                                        None
                                    } else {
                                        Some(Gen {
                                            pool: el.pool,
                                            code: head.push(Instruction::Jmp { pos: (el.code.len() + 1) as isize }) + el.code,
                                            err: None,
                                        })
                                    },
                                },
                            }
                        }
                    },
                }
            },
        },
        StmtView::While { condition, body, .. } => match gen_expr(sig, pool, condition) {
            None => None,
            Some(c) => if c.err is Some {
                Some(c)
            } else {
                match gen_block(sig, c.pool, body, 0) {
                    None => None,
                    Some(b) => if b.err is Some {
                        Some(Gen { pool: b.pool, code: c.code, err: b.err })
                    } else {
                        let after = base + c.code.len() + 1 + b.code.len();
                        let back = (base as isize) - (after as isize);
                        if b.code.len() + 1 > usize::MAX || after > usize::MAX || back < isize::MIN || back > isize::MAX {
                            None
                        } else {
                            Some(Gen {
                                pool: b.pool,
                                code: c.code.push(Instruction::JmpZ { pos: (b.code.len() + 1) as isize }) + b.code
                                    + seq![Instruction::Jmp { pos: back as isize }],
                                err: None,
                            })
                        }
                    },
                }
            },
        },
        _ => Some(failed(nothing(pool), HirError::UnsupportedStatement { span: sv_span(s) })),
    }
}

/// Generating the code of a block whose code starts at position `base`.
pub open spec fn gen_block(sig: Seq<(String, HirFunctionSignature)>, pool: Seq<String>, b: BlockView, base: int) -> Option<Gen>
    decreases b, 1int,
{
    gen_stmts(sig, pool, b.statements, b.statements.len() as int, base)
}

/// Generating the code of the first `n` statements of `ss`, in order, until
/// one fails.
pub open spec fn gen_stmts(sig: Seq<(String, HirFunctionSignature)>, pool: Seq<String>, ss: Seq<StmtView>, n: int, base: int) -> Option<Gen>
    decreases ss, n,
{
    if n <= 0 || n > ss.len() {
        Some(nothing(pool))
    } else {
        match gen_stmts(sig, pool, ss, n - 1, base) {
            None => None,
            Some(g1) => if g1.err is Some {
                Some(g1)
            } else {
                match gen_stmt(sig, g1.pool, ss[n - 1], base + g1.code.len()) {
                    None => None,
                    Some(g2) => Some(join(g1, g2)),
                }
            },
        }
    }
}

/// The code that takes a function's arguments off the stack into its
/// variables: the last parameter first.
pub open spec fn args_code(params: Seq<ParamView>) -> Seq<Instruction> {
    Seq::new(params.len(), |i: int| Instruction::Store { var_name: params[params.len() - 1 - i].name })
}

/// Generating the body of a function named `name` whose parameters are
/// `params`: the code that takes its arguments, its block, and `Halt` at the
/// end of `main`.
pub open spec fn gen_function(sig: Seq<(String, HirFunctionSignature)>, pool: Seq<String>, name: String, params: Seq<ParamView>, body: BlockView) -> Option<Gen> {
    let args = args_code(params);
    match gen_block(sig, pool, body, args.len() as int) {
        None => None,
        Some(g) => if g.err is Some {
            Some(Gen { pool: g.pool, code: args + g.code, err: g.err })
        } else {
            Some(Gen {
                pool: g.pool,
                code: args + g.code + (if name@ == "main"@ { seq![Instruction::Halt] } else { Seq::empty() }),
                err: None,
            })
        },
    }
}

/// Where compiling the functions of a module stands: the labels made, the
/// string pool, the position of the next label, and the error, if any.
pub struct Compiled {
    pub labels: Seq<LabelView>,
    pub pool: Seq<String>,
    pub pos: usize,
    pub err: Option<HirError>,
}

/// Compiling the first `n` functions of `fns` (in the order of their names),
/// from the string pool `pool` and the position `pos`.
pub open spec fn compile_functions(sig: Seq<(String, HirFunctionSignature)>, fns: Seq<(String, HirFunction)>, n: int, pool: Seq<String>, pos: usize) -> Option<Compiled>
    decreases n,
{
    if n <= 0 || n > fns.len() {
        Some(Compiled { labels: Seq::empty(), pool, pos, err: None })
    } else {
        match compile_functions(sig, fns, n - 1, pool, pos) {
            None => None,
            Some(c) => if c.err is Some {
                Some(c)
            } else {
                let (name, f) = fns[n - 1];
                match gen_function(sig, c.pool, name, f.signature@.params, block_view(f.body)) {
                    None => None,
                    Some(g) => if g.err is Some {
                        Some(Compiled { labels: c.labels, pool: g.pool, pos: c.pos, err: g.err })
                    } else if c.pos + g.code.len() > usize::MAX {
                        None
                    } else {
                        Some(Compiled {
                            labels: c.labels.push(LabelView { name, position: c.pos, body: g.code }),
                            pool: g.pool,
                            pos: (c.pos + g.code.len()) as usize,
                            err: None,
                        })
                    },
                }
            },
        }
    }
}

/// The libraries that a module imports, as the VM reads them.
pub open spec fn libraries_of(imports: Seq<HirImport>) -> Seq<ImportedLibrary> {
    imports.map_values(|i: HirImport| ImportedLibrary { name: i.path, is_std: true })
}


/// Once generating the first `k` expressions stops (without a result or with
/// an error), generating more of them stops the same way.
pub proof fn lemma_gen_exprs_stops(sig: Seq<(String, HirFunctionSignature)>, pool: Seq<String>, es: Seq<ExprView>, k: int, n: int)
    requires
        0 <= k <= n <= es.len(),
        gen_exprs(sig, pool, es, k) is None || gen_exprs(sig, pool, es, k).unwrap().err is Some,
    ensures
        gen_exprs(sig, pool, es, n) == gen_exprs(sig, pool, es, k),
    decreases n,
{
    if n > k {
        lemma_gen_exprs_stops(sig, pool, es, k, n - 1);
    }
}

/// Once generating the first `k` statements stops, generating more of them
/// stops the same way.
pub proof fn lemma_gen_stmts_stops(sig: Seq<(String, HirFunctionSignature)>, pool: Seq<String>, ss: Seq<StmtView>, k: int, n: int, base: int)
    requires
        0 <= k <= n <= ss.len(),
        gen_stmts(sig, pool, ss, k, base) is None || gen_stmts(sig, pool, ss, k, base).unwrap().err is Some,
    ensures
        gen_stmts(sig, pool, ss, n, base) == gen_stmts(sig, pool, ss, k, base),
    decreases n,
{
    if n > k {
        lemma_gen_stmts_stops(sig, pool, ss, k, n - 1, base);
    }
}

/// Once generating the items of a list stops, generating more of them stops.
pub proof fn lemma_gen_items_stops(sig: Seq<(String, HirFunctionSignature)>, pool: Seq<String>, es: Seq<ExprView>, k: int, n: int)
    requires
        0 <= k <= n <= es.len(),
        gen_items(sig, pool, es, k) is None,
    ensures
        gen_items(sig, pool, es, n) is None,
    decreases n,
{
    if n > k {
        lemma_gen_items_stops(sig, pool, es, k, n - 1);
    }
}

/// The instruction of a binary operator on operands of type `ty`.
fn bin_instruction(op: HirBinaryOp, ty: &HirTy) -> (r: Option<Instruction>)
    ensures
        r == bin_instr(op, ty@),
{
    match op {
        HirBinaryOp::Add => match ty {
            HirTy::Int64(_) => Some(Instruction::IAdd),
            HirTy::Float64(_) => Some(Instruction::FAdd),
            HirTy::UInt64(_) => Some(Instruction::UIAdd),
            _ => None,
        },
        HirBinaryOp::Sub => match ty {
            HirTy::Int64(_) => Some(Instruction::ISub),
            HirTy::Float64(_) => Some(Instruction::FSub),
            HirTy::UInt64(_) => Some(Instruction::UISub),
            _ => None,
        },
        HirBinaryOp::Mul => match ty {
            HirTy::Int64(_) => Some(Instruction::IMul),
            HirTy::Float64(_) => Some(Instruction::FMul),
            HirTy::UInt64(_) => Some(Instruction::UIMul),
            _ => None,
        },
        HirBinaryOp::Div => match ty {
            HirTy::Int64(_) => Some(Instruction::IDiv),
            HirTy::Float64(_) => Some(Instruction::FDiv),
            HirTy::UInt64(_) => Some(Instruction::UIDiv),
            HirTy::Char(_) => Some(Instruction::IDiv),
            _ => None,
        },
        HirBinaryOp::Mod => match ty {
            HirTy::Int64(_) => Some(Instruction::IMod),
            HirTy::UInt64(_) => Some(Instruction::IMod),
            _ => None,
        },
        HirBinaryOp::Eq => Some(Instruction::Eq),
        HirBinaryOp::Neq => Some(Instruction::Neq),
        HirBinaryOp::Gt => Some(Instruction::Gt),
        HirBinaryOp::Gte => Some(Instruction::Gte),
        HirBinaryOp::Lt => Some(Instruction::Lt),
        HirBinaryOp::Lte => Some(Instruction::Lte),
        HirBinaryOp::And => None,
        HirBinaryOp::Or => None,
    }
}

/// Generates the code of an assignment (see `generate_bytecode_expr`).
fn generate_assign(sig: &HirModuleSignature, pool: &mut Vec<String>, expr: &HirExpr, bytecode: &mut Vec<Instruction>) -> (r: Option<HirResult<()>>)
    requires
        expr is Assign,
    ensures
        match gen_expr(sig.functions.entries(), old(pool)@, expr@) {
            None => r is None,
            Some(g) => r == Some(outcome(g)) && final(pool)@ == g.pool && final(bytecode)@ == old(bytecode)@ + g.code,
        },
    decreases expr, 1int,
{
    let ghost b0 = bytecode@;
    proof { reveal_with_fuel(expr_view, 2); }
    match expr {
        HirExpr::Assign(a) => {
            match &*a.lhs {
                HirExpr::Ident(i) => {
                    match generate_bytecode_expr(sig, pool, &a.rhs, bytecode) {
                        Some(Ok(())) => {},
                        other => return other,
                    }
                    let ghost b1 = bytecode@;
                    bytecode.push(Instruction::Store { var_name: i.name.clone() });
                    bytecode.push(Instruction::PushUnit);
                    assert(bytecode@ =~= b1 + seq![Instruction::Store { var_name: i.name }, Instruction::PushUnit]);
                    Some(Ok(()))
                },
                HirExpr::Indexing(_) => generate_assign_index(sig, pool, expr, bytecode),
                _ => {
                    assert(b0 + Seq::<Instruction>::empty() =~= b0);
                    Some(Err(HirError::UnsupportedExpr { span: a.span }))
                },
            }
        },
        _ => None,
    }
}

/// Generates the code of an assignment to an item of a list: the index, the
/// list, the value, then `ListStore`.
#[verifier::rlimit(80)]
#[verifier::spinoff_prover]
fn generate_assign_index(sig: &HirModuleSignature, pool: &mut Vec<String>, expr: &HirExpr, bytecode: &mut Vec<Instruction>) -> (r: Option<HirResult<()>>)
    requires
        expr is Assign,
        *(expr->Assign_0).lhs is Indexing,
    ensures
        match gen_expr(sig.functions.entries(), old(pool)@, expr@) {
            None => r is None,
            Some(g) => r == Some(outcome(g)) && final(pool)@ == g.pool && final(bytecode)@ == old(bytecode)@ + g.code,
        },
    decreases expr, 0int,
{
    let ghost b0 = bytecode@;
    proof { reveal_with_fuel(expr_view, 2); }
    match expr {
        HirExpr::Assign(a) => match &*a.lhs {
            HirExpr::Indexing(i) => {
                match generate_bytecode_expr(sig, pool, &i.index, bytecode) {
                    Some(Ok(())) => {},
                    other => return other,
                }
                let ghost b1 = bytecode@;
                match generate_bytecode_expr(sig, pool, &i.target, bytecode) {
                    Some(Ok(())) => {},
                    other => {
                        assert(other is Some ==> (bytecode@ =~= b0 + (b1.subrange(b0.len() as int, b1.len() as int) + bytecode@.subrange(b1.len() as int, bytecode@.len() as int))));
                        return other;
                    },
                }
                let ghost b2 = bytecode@;
                match generate_bytecode_expr(sig, pool, &a.rhs, bytecode) {
                    Some(Ok(())) => {},
                    other => {
                        assert(other is Some ==> (bytecode@ =~= b0 + (b1.subrange(b0.len() as int, b1.len() as int) + b2.subrange(b1.len() as int, b2.len() as int)) + bytecode@.subrange(b2.len() as int, bytecode@.len() as int)));
                        return other;
                    },
                }
                let ghost b3 = bytecode@;
                bytecode.push(Instruction::ListStore);
                bytecode.push(Instruction::PushUnit);
                assert(bytecode@ =~= b0 + (b1.subrange(b0.len() as int, b1.len() as int) + b2.subrange(b1.len() as int, b2.len() as int)
                    + b3.subrange(b2.len() as int, b3.len() as int)) + seq![Instruction::ListStore, Instruction::PushUnit]);
                Some(Ok(()))
            },
            _ => None,
        },
        _ => None,
    }
}

/// Generates the code of a binary operation (see `generate_bytecode_expr`).
fn generate_binary(sig: &HirModuleSignature, pool: &mut Vec<String>, expr: &HirExpr, bytecode: &mut Vec<Instruction>) -> (r: Option<HirResult<()>>)
    requires
        expr is HirBinaryOp,
    ensures
        match gen_expr(sig.functions.entries(), old(pool)@, expr@) {
            None => r is None,
            Some(g) => r == Some(outcome(g)) && final(pool)@ == g.pool && final(bytecode)@ == old(bytecode)@ + g.code,
        },
    decreases expr, 1int,
{
    let ghost sigv = sig.functions.entries();
    let ghost p0 = pool@;
    let ghost b0 = bytecode@;
    proof { reveal_with_fuel(expr_view, 2); }
    match expr {
        HirExpr::HirBinaryOp(b) => {
            match generate_bytecode_expr(sig, pool, &b.lhs, bytecode) {
                Some(Ok(())) => {},
                other => return other,
            }
            let ghost b1 = bytecode@;
            match generate_bytecode_expr(sig, pool, &b.rhs, bytecode) {
                Some(Ok(())) => {},
                other => {
                    assert(other is Some ==> (bytecode@ =~= b0 + (b1.subrange(b0.len() as int, b1.len() as int) + bytecode@.subrange(b1.len() as int, bytecode@.len() as int))));
                    return other;
                },
            }
            let ghost b2 = bytecode@;
            let i = match bin_instruction(b.op, &b.ty) {
                Some(i) => i,
                None => return None,
            };
            bytecode.push(i);
            assert(bytecode@ =~= b0 + (b1.subrange(b0.len() as int, b1.len() as int) + b2.subrange(b1.len() as int, b2.len() as int)) + seq![i]);
            Some(Ok(()))
        },
        _ => None,
    }
}

/// Generates the code of a unary operation (see `generate_bytecode_expr`).
fn generate_unary(sig: &HirModuleSignature, pool: &mut Vec<String>, expr: &HirExpr, bytecode: &mut Vec<Instruction>) -> (r: Option<HirResult<()>>)
    requires
        expr is Unary,
    ensures
        match gen_expr(sig.functions.entries(), old(pool)@, expr@) {
            None => r is None,
            Some(g) => r == Some(outcome(g)) && final(pool)@ == g.pool && final(bytecode)@ == old(bytecode)@ + g.code,
        },
    decreases expr, 1int,
{
    let ghost sigv = sig.functions.entries();
    let ghost p0 = pool@;
    let ghost b0 = bytecode@;
    proof { reveal_with_fuel(expr_view, 2); }
    match expr {
        HirExpr::Unary(u) => {
            match generate_bytecode_expr(sig, pool, &u.expr, bytecode) {
                Some(Ok(())) => {},
                other => return other,
            }
            let ghost b1 = bytecode@;
            match u.op {
                None => {},
                Some(UnaryOp::Neg) => match u.expr.ty() {
                    HirTy::Int64(_) => {
                        bytecode.push(Instruction::PushInt(0));
                        bytecode.push(Instruction::Swap);
                        bytecode.push(Instruction::ISub);
                        assert(bytecode@ =~= b1 + seq![Instruction::PushInt(0), Instruction::Swap, Instruction::ISub]);
                    },
                    HirTy::Float64(_) => {
                        bytecode.push(Instruction::PushFloat(0));
                        bytecode.push(Instruction::Swap);
                        bytecode.push(Instruction::FSub);
                        assert(bytecode@ =~= b1 + seq![Instruction::PushFloat(0), Instruction::Swap, Instruction::FSub]);
                    },
                    HirTy::Char(_) => {
                        bytecode.push(Instruction::PushInt(0));
                        bytecode.push(Instruction::Swap);
                        bytecode.push(Instruction::ISub);
                        assert(bytecode@ =~= b1 + seq![Instruction::PushInt(0), Instruction::Swap, Instruction::ISub]);
                    },
                    _ => return Some(Err(HirError::UnsupportedExpr { span: u.span })),
                },
                Some(UnaryOp::Not) => match u.expr.ty() {
                    HirTy::Boolean(_) => {
                        bytecode.push(Instruction::PushBool(false));
                        bytecode.push(Instruction::Eq);
                        assert(bytecode@ =~= b1 + seq![Instruction::PushBool(false), Instruction::Eq]);
                    },
                    _ => return Some(Err(HirError::UnsupportedExpr { span: u.span })),
                },
            }
            Some(Ok(()))
        },
        _ => None,
    }
}

/// Generates the code of a cast (see `generate_bytecode_expr`).
fn generate_cast(sig: &HirModuleSignature, pool: &mut Vec<String>, expr: &HirExpr, bytecode: &mut Vec<Instruction>) -> (r: Option<HirResult<()>>)
    requires
        expr is Casting,
    ensures
        match gen_expr(sig.functions.entries(), old(pool)@, expr@) {
            None => r is None,
            Some(g) => r == Some(outcome(g)) && final(pool)@ == g.pool && final(bytecode)@ == old(bytecode)@ + g.code,
        },
    decreases expr, 1int,
{
    let ghost sigv = sig.functions.entries();
    let ghost p0 = pool@;
    let ghost b0 = bytecode@;
    proof { reveal_with_fuel(expr_view, 2); }
    match expr {
        HirExpr::Casting(c) => {
            match generate_bytecode_expr(sig, pool, &c.expr, bytecode) {
                Some(Ok(())) => {},
                other => return other,
            }
            let t = match &c.ty {
                HirTy::Int64(_) => Type::Integer,
                HirTy::Float64(_) => Type::Float,
                HirTy::UInt64(_) => Type::UnsignedInteger,
                HirTy::Boolean(_) => Type::Boolean,
                HirTy::String(_) => Type::String,
                HirTy::Char(_) => Type::Char,
                _ => return Some(Err(HirError::UnsupportedExpr { span: c.span })),
            };
            let ghost b1 = bytecode@;
            bytecode.push(Instruction::CastTo(t));
            assert(bytecode@ =~= b1 + seq![Instruction::CastTo(t)]);
            Some(Ok(()))
        },
        _ => None,
    }
}

/// Generates the code of an indexing (see `generate_bytecode_expr`).
fn generate_index(sig: &HirModuleSignature, pool: &mut Vec<String>, expr: &HirExpr, bytecode: &mut Vec<Instruction>) -> (r: Option<HirResult<()>>)
    requires
        expr is Indexing,
    ensures
        match gen_expr(sig.functions.entries(), old(pool)@, expr@) {
            None => r is None,
            Some(g) => r == Some(outcome(g)) && final(pool)@ == g.pool && final(bytecode)@ == old(bytecode)@ + g.code,
        },
    decreases expr, 1int,
{
    let ghost sigv = sig.functions.entries();
    let ghost p0 = pool@;
    let ghost b0 = bytecode@;
    proof { reveal_with_fuel(expr_view, 2); }
    match expr {
        HirExpr::Indexing(i) => {
            match generate_bytecode_expr(sig, pool, &i.target, bytecode) {
                Some(Ok(())) => {},
                other => return other,
            }
            let ghost b1 = bytecode@;
            match generate_bytecode_expr(sig, pool, &i.index, bytecode) {
                Some(Ok(())) => {},
                other => {
                    assert(other is Some ==> (bytecode@ =~= b0 + (b1.subrange(b0.len() as int, b1.len() as int) + bytecode@.subrange(b1.len() as int, bytecode@.len() as int))));
                    return other;
                },
            }
            let ghost b2 = bytecode@;
            bytecode.push(Instruction::ListLoad);
            assert(bytecode@ =~= b0 + (b1.subrange(b0.len() as int, b1.len() as int) + b2.subrange(b1.len() as int, b2.len() as int)) + seq![Instruction::ListLoad]);
            Some(Ok(()))
        },
        _ => None,
    }
}

/// Generates the code of a call (see `generate_bytecode_expr`).
fn generate_call(sig: &HirModuleSignature, pool: &mut Vec<String>, expr: &HirExpr, bytecode: &mut Vec<Instruction>) -> (r: Option<HirResult<()>>)
    requires
        expr is Call,
    ensures
        match gen_expr(sig.functions.entries(), old(pool)@, expr@) {
            None => r is None,
            Some(g) => r == Some(outcome(g)) && final(pool)@ == g.pool && final(bytecode)@ == old(bytecode)@ + g.code,
        },
    decreases expr, 1int,
{
    let ghost sigv = sig.functions.entries();
    let ghost p0 = pool@;
    let ghost b0 = bytecode@;
    proof { reveal_with_fuel(expr_view, 2); }
    match expr {
        HirExpr::Call(f) => {
            let ghost argv = exprs_view(f.args@, f.args@.len() as int);
            proof {
                lemma_exprs_view(f.args@, f.args@.len() as int);
                assert(b0 + Seq::<Instruction>::empty() =~= b0);
            }
            let mut k: usize = 0;
            while k < f.args.len()
                invariant
                    k <= f.args@.len(),
                    *expr == HirExpr::Call(*f),
                    p0 == old(pool)@,
                    b0 == old(bytecode)@,
                                sigv == sig.functions.entries(),
                    argv == exprs_view(f.args@, f.args@.len() as int),
                    argv.len() == f.args@.len(),
                    forall|i: int| 0 <= i < f.args@.len() ==> #[trigger] argv[i] == expr_view(f.args@[i]),
                    gen_exprs(sigv, p0, argv, argv.len() as int) is None ==> gen_expr(sigv, p0, expr@) is None,
                    gen_exprs(sigv, p0, argv, argv.len() as int) is Some && gen_exprs(sigv, p0, argv, argv.len() as int).unwrap().err is Some
                        ==> gen_expr(sigv, p0, expr@) == gen_exprs(sigv, p0, argv, argv.len() as int),
                    gen_exprs(sigv, p0, argv, k as int) is Some,
                    gen_exprs(sigv, p0, argv, k as int).unwrap().err is None,
                    gen_exprs(sigv, p0, argv, k as int).unwrap().pool == pool@,
                    bytecode@ == b0 + gen_exprs(sigv, p0, argv, k as int).unwrap().code,
                decreases f.args@.len() - k,
            {
                proof {
                    let fv = (*expr)->Call_0;
                    assert(decreases_to!(*expr => (*expr)->Call_0));
                    assert(decreases_to!(fv => fv.args));
                    assert(decreases_to!(fv.args => fv.args@));
                    assert(decreases_to!(fv.args@ => fv.args@[k as int]));
                }
                let ghost g1 = gen_exprs(sigv, p0, argv, k as int).unwrap();
                let ghost bk = bytecode@;
                let res = generate_bytecode_expr(sig, pool, &f.args[k], bytecode);
                proof {
                    assert(argv[k as int] == f.args@[k as int]@);
                }
                proof {
                    assert(gen_exprs(sigv, p0, argv, k + 1) == match gen_expr(sigv, g1.pool, argv[k as int]) {
                        None => None,
                        Some(g2) => Some(join(g1, g2)),
                    });
                }
                match res {
                    Some(Ok(())) => {},
                    other => {
                        proof {
                            lemma_gen_exprs_stops(sigv, p0, argv, k + 1, argv.len() as int);
                            assert(other is Some ==> (bytecode@ =~= b0 + (g1.code + bytecode@.subrange(bk.len() as int, bytecode@.len() as int))));
                        }
                        return other;
                    },
                }
                assert(bytecode@ =~= b0 + (g1.code + bytecode@.subrange(bk.len() as int, bytecode@.len() as int)));
                k += 1;
            }
            let ghost b1 = bytecode@;
            match &*f.callee {
                HirExpr::Ident(i) => {
                    let func = match sig.functions.get(&i.name) {
                        Some(x) => x,
                        None => return None,
                    };
                    let n = f.args.len() as u8;
                    if func.is_external {
                        bytecode.push(Instruction::ExternCall { function_name: i.name.clone(), nb_args: n });
                    } else {
                        bytecode.push(Instruction::FunctionCall { function_name: i.name.clone(), nb_args: n });
                    }
                    assert(bytecode@ =~= b1 + seq![bytecode@[b1.len() as int]]);
                },
                _ => return Some(Err(HirError::UnsupportedExpr { span: f.span })),
            }
            Some(Ok(()))
        },
        _ => None,
    }
}

/// Generates the code of a list literal (see `generate_bytecode_expr`).
#[verifier::rlimit(50)]
fn generate_list(sig: &HirModuleSignature, pool: &mut Vec<String>, expr: &HirExpr, bytecode: &mut Vec<Instruction>) -> (r: Option<HirResult<()>>)
    requires
        expr is ListLiteral,
    ensures
        match gen_expr(sig.functions.entries(), old(pool)@, expr@) {
            None => r is None,
            Some(g) => r == Some(outcome(g)) && final(pool)@ == g.pool && final(bytecode)@ == old(bytecode)@ + g.code,
        },
    decreases expr, 1int,
{
    let ghost sigv = sig.functions.entries();
    let ghost p0 = pool@;
    let ghost b0 = bytecode@;
    proof { reveal_with_fuel(expr_view, 2); }
    match expr {
        HirExpr::ListLiteral(l) => {
            let ghost itv = exprs_view(l.items@, l.items@.len() as int);
            proof { lemma_exprs_view(l.items@, l.items@.len() as int); }
            let n = l.items.len();
            bytecode.push(Instruction::PushUnsignedInt(n as u64));
            bytecode.push(Instruction::NewList);
            let ghost head = seq![Instruction::PushUnsignedInt(n as u64), Instruction::NewList];
            assert(bytecode@ =~= b0 + head + Seq::<Instruction>::empty());
            let mut k: usize = 0;
            while k < n
                invariant
                    k <= n,
                    n == l.items@.len(),
                    *expr == HirExpr::ListLiteral(*l),
                    p0 == old(pool)@,
                    b0 == old(bytecode)@,
                                sigv == sig.functions.entries(),
                    itv == exprs_view(l.items@, l.items@.len() as int),
                    itv.len() == n,
                    forall|i: int| 0 <= i < n ==> #[trigger] itv[i] == expr_view(l.items@[i]),
                    head == seq![Instruction::PushUnsignedInt(n as u64), Instruction::NewList],
                    gen_items(sigv, p0, itv, n as int) is None ==> gen_expr(sigv, p0, expr@) is None,
                    gen_items(sigv, p0, itv, k as int) is Some,
                    gen_items(sigv, p0, itv, k as int).unwrap().pool == pool@,
                    bytecode@ == b0 + head + gen_items(sigv, p0, itv, k as int).unwrap().code,
                decreases n - k,
            {
                proof {
                    let lv = (*expr)->ListLiteral_0;
                    assert(decreases_to!(*expr => (*expr)->ListLiteral_0));
                    assert(decreases_to!(lv => lv.items));
                    assert(decreases_to!(lv.items => lv.items@));
                    assert(decreases_to!(lv.items@ => lv.items@[k as int]));
                }
                let ghost g1 = gen_items(sigv, p0, itv, k as int).unwrap();
                bytecode.push(Instruction::Dup);
                bytecode.push(Instruction::PushUnsignedInt(k as u64));
                bytecode.push(Instruction::Swap);
                let ghost bk = bytecode@;
                let res = generate_bytecode_expr(sig, pool, &l.items[k], bytecode);
                proof {
                    assert(itv[k as int] == l.items@[k as int]@);
                }
                proof {
                    assert(gen_items(sigv, p0, itv, k + 1) == match gen_expr(sigv, g1.pool, itv[k as int]) {
                        None => None,
                        Some(g2) => if g2.err is Some { None } else {
                            Some(Gen {
                                pool: g2.pool,
                                code: g1.code + seq![Instruction::Dup, Instruction::PushUnsignedInt(k as u64), Instruction::Swap]
                                    + g2.code + seq![Instruction::ListStore],
                                err: None,
                            })
                        },
                    });
                }
                match res {
                    Some(Ok(())) => {},
                    _ => {
                        proof { lemma_gen_items_stops(sigv, p0, itv, k + 1, n as int); }
                        return None;
                    },
                }
                let ghost bi = bytecode@;
                bytecode.push(Instruction::ListStore);
                assert(bytecode@ =~= b0 + head + (g1.code + seq![Instruction::Dup, Instruction::PushUnsignedInt(k as u64), Instruction::Swap]
                    + bi.subrange(bk.len() as int, bi.len() as int) + seq![Instruction::ListStore]));
                k += 1;
            }
            assert(bytecode@ =~= b0 + (head + gen_items(sigv, p0, itv, n as int).unwrap().code));
            Some(Ok(()))
        },
        _ => None,
    }
}

/// Generates the code of a literal or of a variable (see
/// `generate_bytecode_expr`).
fn generate_leaf(sig: &HirModuleSignature, pool: &mut Vec<String>, expr: &HirExpr, bytecode: &mut Vec<Instruction>) -> (r: Option<HirResult<()>>)
    requires
        expr is IntegerLiteral || expr is FloatLiteral || expr is BooleanLiteral || expr is CharLiteral
            || expr is UnitLiteral || expr is UnsignedIntegerLiteral || expr is StringLiteral || expr is Ident,
    ensures
        match gen_expr(sig.functions.entries(), old(pool)@, expr@) {
            None => r is None,
            Some(g) => r == Some(outcome(g)) && final(pool)@ == g.pool && final(bytecode)@ == old(bytecode)@ + g.code,
        },
{
    let ghost b0 = bytecode@;
    match expr {
        HirExpr::IntegerLiteral(i) => {
            bytecode.push(Instruction::PushInt(i.value));
            assert(bytecode@ =~= b0 + seq![Instruction::PushInt(i.value)]);
            Some(Ok(()))
        },
        HirExpr::FloatLiteral(x) => {
            bytecode.push(Instruction::PushFloat(x.value));
            assert(bytecode@ =~= b0 + seq![Instruction::PushFloat(x.value)]);
            Some(Ok(()))
        },
        HirExpr::BooleanLiteral(x) => {
            bytecode.push(Instruction::PushBool(x.value));
            assert(bytecode@ =~= b0 + seq![Instruction::PushBool(x.value)]);
            Some(Ok(()))
        },
        HirExpr::CharLiteral(x) => {
            bytecode.push(Instruction::PushChar(x.value));
            assert(bytecode@ =~= b0 + seq![Instruction::PushChar(x.value)]);
            Some(Ok(()))
        },
        HirExpr::UnitLiteral(_) => {
            bytecode.push(Instruction::PushUnit);
            assert(bytecode@ =~= b0 + seq![Instruction::PushUnit]);
            Some(Ok(()))
        },
        HirExpr::UnsignedIntegerLiteral(x) => {
            bytecode.push(Instruction::PushUnsignedInt(x.value));
            assert(bytecode@ =~= b0 + seq![Instruction::PushUnsignedInt(x.value)]);
            Some(Ok(()))
        },
        HirExpr::StringLiteral(x) => {
            if pool.len() == usize::MAX {
                return None;
            }
            pool.push(x.value.clone());
            let index = pool.len() - 1;
            bytecode.push(Instruction::PushStr(index));
            assert(bytecode@ =~= b0 + seq![Instruction::PushStr(index)]);
            Some(Ok(()))
        },
        HirExpr::Ident(i) => {
            bytecode.push(Instruction::Load { var_name: i.name.clone() });
            assert(bytecode@ =~= b0 + seq![Instruction::Load { var_name: i.name }]);
            Some(Ok(()))
        },
        _ => None,
    }
}

/// Generates the code of `expr` at the end of `bytecode`, adding the strings
/// that it holds to `pool`; `None` where the generator stops without a result.
fn generate_bytecode_expr(sig: &HirModuleSignature, pool: &mut Vec<String>, expr: &HirExpr, bytecode: &mut Vec<Instruction>) -> (r: Option<HirResult<()>>)
    ensures
        match gen_expr(sig.functions.entries(), old(pool)@, expr@) {
            None => r is None,
            Some(g) => r == Some(outcome(g)) && final(pool)@ == g.pool && final(bytecode)@ == old(bytecode)@ + g.code,
        },
    decreases expr, 2int,
{
    match expr {
        HirExpr::Assign(_) => generate_assign(sig, pool, expr, bytecode),
        HirExpr::HirBinaryOp(_) => generate_binary(sig, pool, expr, bytecode),
        HirExpr::Unary(_) => generate_unary(sig, pool, expr, bytecode),
        HirExpr::Casting(_) => generate_cast(sig, pool, expr, bytecode),
        HirExpr::Indexing(_) => generate_index(sig, pool, expr, bytecode),
        HirExpr::Call(_) => generate_call(sig, pool, expr, bytecode),
        HirExpr::ListLiteral(_) => generate_list(sig, pool, expr, bytecode),
        HirExpr::NewArray(a) => {
            let ghost b0 = bytecode@;
            match generate_bytecode_expr(sig, pool, &a.size, bytecode) {
                Some(Ok(())) => {},
                other => return other,
            }
            let ghost b1 = bytecode@;
            bytecode.push(Instruction::NewList);
            assert(bytecode@ =~= b1 + seq![Instruction::NewList]);
            Some(Ok(()))
        },
        _ => generate_leaf(sig, pool, expr, bytecode),
    }
}


/// Generates the code of the statements of `block` at the end of `bytecode`;
/// `None` where the generator stops without a result.
fn generate_bytecode_block(sig: &HirModuleSignature, pool: &mut Vec<String>, block: &HirBlock, bytecode: &mut Vec<Instruction>) -> (r: Option<HirResult<()>>)
    ensures
        match gen_block(sig.functions.entries(), old(pool)@, block@, old(bytecode)@.len() as int) {
            None => r is None,
            Some(g) => r == Some(outcome(g)) && final(pool)@ == g.pool && final(bytecode)@ == old(bytecode)@ + g.code,
        },
    decreases block, 0int,
{
    let ghost sigv = sig.functions.entries();
    let ghost p0 = pool@;
    let ghost b0 = bytecode@;
    let ghost sv = stmts_view(block.statements@, block.statements@.len() as int);
    proof {
        lemma_stmts_view(block.statements@, block.statements@.len() as int);
        assert(b0 + Seq::<Instruction>::empty() =~= b0);
    }
    let mut k: usize = 0;
    while k < block.statements.len()
        invariant
            k <= block.statements@.len(),
            p0 == old(pool)@,
            b0 == old(bytecode)@,
            sigv == sig.functions.entries(),
            sv == stmts_view(block.statements@, block.statements@.len() as int),
            sv.len() == block.statements@.len(),
            block@.statements == sv,
            forall|i: int| 0 <= i < block.statements@.len() ==> #[trigger] sv[i] == stmt_view(block.statements@[i]),
            gen_stmts(sigv, p0, sv, k as int, b0.len() as int) is Some,
            gen_stmts(sigv, p0, sv, k as int, b0.len() as int).unwrap().err is None,
            gen_stmts(sigv, p0, sv, k as int, b0.len() as int).unwrap().pool == pool@,
            bytecode@ == b0 + gen_stmts(sigv, p0, sv, k as int, b0.len() as int).unwrap().code,
        decreases block.statements@.len() - k,
    {
        proof {
            assert(decreases_to!(*block => block.statements));
            assert(decreases_to!(block.statements => block.statements@));
            assert(decreases_to!(block.statements@ => block.statements@[k as int]));
        }
        let ghost g1 = gen_stmts(sigv, p0, sv, k as int, b0.len() as int).unwrap();
        let ghost bk = bytecode@;
        let res = generate_bytecode_stmt(sig, pool, &block.statements[k], bytecode);
        proof {
            assert(sv[k as int] == block.statements@[k as int]@);
            assert(gen_stmts(sigv, p0, sv, k + 1, b0.len() as int) == match gen_stmt(sigv, g1.pool, sv[k as int], (b0.len() + g1.code.len()) as int) {
                None => None,
                Some(g2) => Some(join(g1, g2)),
            });
        }
        match res {
            Some(Ok(())) => {},
            other => {
                proof {
                    lemma_gen_stmts_stops(sigv, p0, sv, k + 1, sv.len() as int, b0.len() as int);
                }
                assert(other is Some ==> (bytecode@ =~= b0 + (g1.code + bytecode@.subrange(bk.len() as int, bytecode@.len() as int))));
                return other;
            },
        }
        assert(bytecode@ =~= b0 + (g1.code + bytecode@.subrange(bk.len() as int, bytecode@.len() as int)));
        k += 1;
    }
    Some(Ok(()))
}

/// Generates the code of `if condition { then } else { else }`: the condition,
/// a jump over the `then` block when it is false, the `then` block, and with
/// an `else` block a jump over it.
fn generate_if(sig: &HirModuleSignature, pool: &mut Vec<String>, stmt: &HirStatement, bytecode: &mut Vec<Instruction>) -> (r: Option<HirResult<()>>)
    requires
        stmt is IfElse,
    ensures
        match gen_stmt(sig.functions.entries(), old(pool)@, stmt@, old(bytecode)@.len() as int) {
            None => r is None,
            Some(g) => r == Some(outcome(g)) && final(pool)@ == g.pool && final(bytecode)@ == old(bytecode)@ + g.code,
        },
    decreases stmt, 0int,
{
    let ghost b0 = bytecode@;
    match stmt {
        HirStatement::IfElse(i) => {
            match generate_bytecode_expr(sig, pool, &i.condition, bytecode) {
                Some(Ok(())) => {},
                other => return other,
            }
            let ghost b1 = bytecode@;
            let mut then_body: Vec<Instruction> = Vec::new();
            match generate_bytecode_block(sig, pool, &i.then_branch, &mut then_body) {
                Some(Ok(())) => {},
                other => return other,
            }
            let extra: usize = if i.else_branch.is_some() { 1 } else { 0 };
            if then_body.len() > usize::MAX - extra {
                return None;
            }
            let ghost t = then_body@;
            bytecode.push(Instruction::JmpZ { pos: (then_body.len() + extra) as isize });
            bytecode.append(&mut then_body);
            let ghost head = bytecode@;
            assert(head =~= b0 + (b1.subrange(b0.len() as int, b1.len() as int).push(Instruction::JmpZ { pos: (t.len() + extra) as isize }) + t));
            match &i.else_branch {
                Some(e) => {
                    let mut else_body: Vec<Instruction> = Vec::new();
                    match generate_bytecode_block(sig, pool, e, &mut else_body) {
                        Some(Ok(())) => {},
                        other => return other,
                    }
                    if else_body.len() == usize::MAX {
                        return None;
                    }
                    let ghost el = else_body@;
                    bytecode.push(Instruction::Jmp { pos: (else_body.len() + 1) as isize });
                    bytecode.append(&mut else_body);
                    assert(bytecode@ =~= b0 + (head.subrange(b0.len() as int, head.len() as int).push(Instruction::Jmp { pos: (el.len() + 1) as isize }) + el));
                },
                None => {},
            }
            Some(Ok(()))
        },
        _ => None,
    }
}

/// Generates the code of `while condition { body }`: the condition, a jump
/// past the loop when it is false, the body, and a jump back to the condition.
fn generate_while(sig: &HirModuleSignature, pool: &mut Vec<String>, stmt: &HirStatement, bytecode: &mut Vec<Instruction>) -> (r: Option<HirResult<()>>)
    requires
        stmt is While,
    ensures
        match gen_stmt(sig.functions.entries(), old(pool)@, stmt@, old(bytecode)@.len() as int) {
            None => r is None,
            Some(g) => r == Some(outcome(g)) && final(pool)@ == g.pool && final(bytecode)@ == old(bytecode)@ + g.code,
        },
    decreases stmt, 0int,
{
    let ghost b0 = bytecode@;
    match stmt {
        HirStatement::While(w) => {
            let start = bytecode.len() as isize;
            match generate_bytecode_expr(sig, pool, &w.condition, bytecode) {
                Some(Ok(())) => {},
                other => return other,
            }
            let ghost b1 = bytecode@;
            let mut body: Vec<Instruction> = Vec::new();
            match generate_bytecode_block(sig, pool, &w.body, &mut body) {
                Some(Ok(())) => {},
                other => return other,
            }
            if body.len() == usize::MAX {
                return None;
            }
            let ghost bd = body@;
            bytecode.push(Instruction::JmpZ { pos: (body.len() + 1) as isize });
            bytecode.append(&mut body);
            let back = match start.checked_sub(bytecode.len() as isize) {
                Some(x) => x,
                None => return None,
            };
            bytecode.push(Instruction::Jmp { pos: back });
            assert(bytecode@ =~= b0 + (b1.subrange(b0.len() as int, b1.len() as int).push(Instruction::JmpZ { pos: (bd.len() + 1) as isize }) + bd
                + seq![Instruction::Jmp { pos: back }]));
            Some(Ok(()))
        },
        _ => None,
    }
}

/// Generates the code of a statement at the end of `bytecode`; `None` where
/// the generator stops without a result.
fn generate_bytecode_stmt(sig: &HirModuleSignature, pool: &mut Vec<String>, stmt: &HirStatement, bytecode: &mut Vec<Instruction>) -> (r: Option<HirResult<()>>)
    ensures
        match gen_stmt(sig.functions.entries(), old(pool)@, stmt@, old(bytecode)@.len() as int) {
            None => r is None,
            Some(g) => r == Some(outcome(g)) && final(pool)@ == g.pool && final(bytecode)@ == old(bytecode)@ + g.code,
        },
    decreases stmt, 1int,
{
    let ghost b0 = bytecode@;
    match stmt {
        HirStatement::Return(e) => {
            match generate_bytecode_expr(sig, pool, &e.value, bytecode) {
                Some(Ok(())) => {},
                other => return other,
            }
            let ghost b1 = bytecode@;
            bytecode.push(Instruction::Return);
            assert(bytecode@ =~= b1 + seq![Instruction::Return]);
            Some(Ok(()))
        },
        HirStatement::IfElse(_) => generate_if(sig, pool, stmt, bytecode),
        HirStatement::While(_) => generate_while(sig, pool, stmt, bytecode),
        HirStatement::Let(l) => {
            let mut value: Vec<Instruction> = Vec::new();
            match generate_bytecode_expr(sig, pool, &l.value, &mut value) {
                Some(Ok(())) => {},
                other => {
                    assert(b0 + Seq::<Instruction>::empty() =~= b0);
                    return other;
                },
            }
            value.push(Instruction::Store { var_name: l.name.clone() });
            let ghost v = value@;
            bytecode.append(&mut value);
            assert(bytecode@ =~= b0 + v);
            Some(Ok(()))
        },
        HirStatement::Expr(e) => {
            match generate_bytecode_expr(sig, pool, &e.expr, bytecode) {
                Some(Ok(())) => {},
                other => return other,
            }
            let ghost b1 = bytecode@;
            bytecode.push(Instruction::Pop);
            assert(bytecode@ =~= b1 + seq![Instruction::Pop]);
            Some(Ok(()))
        },
        _ => {
            assert(b0 + Seq::<Instruction>::empty() =~= b0);
            Some(Err(HirError::UnsupportedStatement { span: stmt.span() }))
        },
    }
}


/// Generates the stores that take the arguments of a function off the stack:
/// the last parameter first.
fn generate_bytecode_args(params: &Vec<crate::hir::signature::HirFunctionParameterSignature>, bytecode: &mut Vec<Instruction>)
    ensures
        final(bytecode)@ == old(bytecode)@ + args_code(crate::hir::signature::param_views(params@)),
{
    let ghost pv = crate::hir::signature::param_views(params@);
    let ghost b0 = bytecode@;
    let n = params.len();
    let mut k: usize = n;
    while k > 0
        invariant
            k <= n,
            n == params@.len(),
            pv == crate::hir::signature::param_views(params@),
            bytecode@ == b0 + args_code(pv).take(n - k),
        decreases k,
    {
        k -= 1;
        bytecode.push(Instruction::Store { var_name: params[k].name.clone() });
        assert(args_code(pv).take(n - k) =~= args_code(pv).take(n - k - 1).push(Instruction::Store { var_name: params@[k as int].name }));
    }
    assert(args_code(pv).take(n as int) =~= args_code(pv));
}

/// Generates the code of the function `func` named `name`: the stores of its
/// arguments, its body and, for `main`, `Halt`.
fn generate_function(sig: &HirModuleSignature, pool: &mut Vec<String>, name: &String, func: &HirFunction) -> (r: Option<HirResult<Vec<Instruction>>>)
    ensures
        match gen_function(sig.functions.entries(), old(pool)@, *name, func.signature@.params, block_view(func.body)) {
            None => r is None,
            Some(g) => r is Some && final(pool)@ == g.pool && match g.err {
                Some(e) => r.unwrap() == Err::<Vec<Instruction>, HirError>(e),
                None => r.unwrap() is Ok && r.unwrap()->Ok_0@ == g.code,
            },
        },
{
    let mut bytecode: Vec<Instruction> = Vec::new();
    generate_bytecode_args(&func.signature.params, &mut bytecode);
    assert(Seq::<Instruction>::empty() + args_code(func.signature@.params) =~= args_code(func.signature@.params));
    match generate_bytecode_block(sig, pool, &func.body, &mut bytecode) {
        Some(Ok(())) => {},
        Some(Err(e)) => return Some(Err(e)),
        None => return None,
    }
    if name.eq(&String::from_str("main")) {
        bytecode.push(Instruction::Halt);
        assert(bytecode@ =~= args_code(func.signature@.params) + gen_block(sig.functions.entries(), old(pool)@, block_view(func.body), args_code(func.signature@.params).len() as int).unwrap().code + seq![Instruction::Halt]);
    } else {
        assert(bytecode@ =~= args_code(func.signature@.params) + gen_block(sig.functions.entries(), old(pool)@, block_view(func.body), args_code(func.signature@.params).len() as int).unwrap().code + Seq::<Instruction>::empty());
    }
    Some(Ok(bytecode))
}

/// The unit of code generation: a module, the program made from it, and the
/// position that the next function's code starts at.
pub struct CodeGenUnit {
    hir: HirModule,
    program: Program,
    current_pos: usize,
}

/// The outcome of compiling the functions of the unit's module from where the
/// unit stands; `None` where the generator stops without a result.
pub open spec fn compile_outcome(u: CodeGenUnit) -> Option<Compiled> {
    compile_functions(
        u.hir().signature.functions.entries(),
        u.hir().body.functions.entries(),
        u.hir().body.functions.entries().len() as int,
        u.program().string_pool,
        u.pos(),
    )
}

/// What compiling does, where it has an outcome `c`: on an error, the string
/// pool and the position move on and nothing else changes; else the program
/// gets the labels, the entry point `main`, the module's imports as its
/// libraries and the string pool, and a copy of it is returned.
pub open spec fn compiled(before: CodeGenUnit, after: CodeGenUnit, c: Compiled, r: HirResult<Program>) -> bool {
    &&& after.hir() == before.hir()
    &&& after.pos() == c.pos
    &&& match c.err {
        Some(e) => {
            &&& r == Err::<Program, HirError>(e)
            &&& after.program() == (ProgramView { string_pool: c.pool, ..before.program() })
        },
        None => {
            &&& r is Ok
            &&& r->Ok_0@ == after.program()
            &&& after.program().labels == c.labels
            &&& after.program().entry_point@ == "main"@
            &&& after.program().libraries == libraries_of(before.hir().body.imports@)
            &&& after.program().string_pool == c.pool
            &&& after.program().function_pool == before.program().function_pool
            &&& after.program().class_pool == before.program().class_pool
        },
    }
}

impl CodeGenUnit {
    /// The module.
    pub closed spec fn hir(&self) -> HirModule {
        self.hir
    }

    /// The program made so far.
    pub closed spec fn program(&self) -> ProgramView {
        self.program@
    }

    /// The position that the next function's code starts at.
    pub closed spec fn pos(&self) -> usize {
        self.current_pos
    }

    /// A unit for `hir`, with an empty program.
    pub fn new(hir: HirModule) -> (r: Self)
        ensures
            r.hir() == hir,
            r.pos() == 0,
            r.program().labels.len() == 0,
            r.program().entry_point@.len() == 0,
            r.program().libraries.len() == 0,
            r.program().string_pool.len() == 0,
            r.program().function_pool.len() == 0,
            r.program().class_pool.len() == 0,
    {
        CodeGenUnit { hir, program: Program::new(), current_pos: 0 }
    }

    /// Compiles the module into a program: each function, in the order of
    /// their names, becomes a label whose code takes the arguments, runs the
    /// body and, for `main`, halts. `None` where the generator stops without a
    /// result.
    #[verifier::rlimit(60)]
    pub fn try_compile(&mut self) -> (r: Option<HirResult<Program>>)
        ensures
            compile_outcome(*old(self)) is None ==> r is None,
            compile_outcome(*old(self)) is Some ==> r is Some && compiled(*old(self), *final(self), compile_outcome(*old(self)).unwrap(), r.unwrap()),
    {
        let ghost sigv = self.hir.signature.functions.entries();
        let ghost fns = self.hir.body.functions.entries();
        let ghost pool0 = self.program.global.string_pool@;
        let ghost pos0 = self.current_pos;
        let ghost prog0 = self.program@;
        let n = self.hir.body.functions.len();
        let mut labels: Vec<Label> = Vec::new();
        let mut k: usize = 0;
        while k < n
            invariant
                k <= n,
                n == fns.len(),
                sigv == self.hir.signature.functions.entries(),
                fns == self.hir.body.functions.entries(),
                self.hir == old(self).hir,
                sigv == old(self).hir().signature.functions.entries(),
                fns == old(self).hir().body.functions.entries(),
                pool0 == old(self).program().string_pool,
                pos0 == old(self).pos(),
                prog0 == old(self).program(),
                self.program@ == (ProgramView { string_pool: self.program.global.string_pool@, ..prog0 }),
                compile_functions(sigv, fns, n as int, pool0, pos0) is None ==> compile_functions(sigv, fns, k as int, pool0, pos0) is None
                    || compile_functions(sigv, fns, k as int, pool0, pos0).unwrap().err is None,
                compile_functions(sigv, fns, k as int, pool0, pos0) is Some,
                compile_functions(sigv, fns, k as int, pool0, pos0).unwrap().err is None,
                compile_functions(sigv, fns, k as int, pool0, pos0).unwrap().pool == self.program.global.string_pool@,
                compile_functions(sigv, fns, k as int, pool0, pos0).unwrap().pos == self.current_pos,
                compile_functions(sigv, fns, k as int, pool0, pos0).unwrap().labels == labels@.map_values(|l: Label| l@),
            decreases n - k,
        {
            let ghost c = compile_functions(sigv, fns, k as int, pool0, pos0).unwrap();
            let (name, func) = self.hir.body.functions.entry(k);
            let res = generate_function(&self.hir.signature, &mut self.program.global.string_pool, name, func);
            proof {
                lemma_compile_functions_stops(sigv, fns, k as int + 1, pool0, pos0);
            }
            let bytecode = match res {
                Some(Ok(b)) => b,
                Some(Err(e)) => {
                    proof { lemma_compile_functions_stops_at(sigv, fns, k as int + 1, n as int, pool0, pos0); }
                    return Some(Err(e));
                },
                None => {
                    proof { lemma_compile_functions_none(sigv, fns, k as int + 1, n as int, pool0, pos0); }
                    return None;
                },
            };
            let len = bytecode.len();
            let position = self.current_pos;
            self.current_pos = match self.current_pos.checked_add(len) {
                Some(p) => p,
                None => {
                    proof { lemma_compile_functions_none(sigv, fns, k as int + 1, n as int, pool0, pos0); }
                    return None;
                },
            };
            let ghost code = bytecode@;
            labels.push(Label { name: name.clone(), position, body: bytecode });
            assert(labels@.map_values(|l: Label| l@) =~= c.labels.push(LabelView { name: *name, position, body: code }));
            k += 1;
        }
        self.program.entry_point = String::from_str("main");
        self.program.labels = labels;
        let mut libraries: Vec<ImportedLibrary> = Vec::new();
        let mut j: usize = 0;
        while j < self.hir.body.imports.len()
            invariant
                j <= self.hir.body.imports@.len(),
                libraries@ == libraries_of(self.hir.body.imports@).take(j as int),
            decreases self.hir.body.imports@.len() - j,
        {
            libraries.push(ImportedLibrary { name: self.hir.body.imports[j].path.clone(), is_std: true });
            j += 1;
            assert(libraries@ =~= libraries_of(self.hir.body.imports@).take(j as int));
        }
        assert(libraries_of(self.hir.body.imports@).take(j as int) =~= libraries_of(self.hir.body.imports@));
        self.program.libraries = libraries;
        Some(Ok(self.program.copy()))
    }

    /// Compiles the module into a program (see `try_compile`), where the
    /// generator does not stop without a result.
    pub fn compile(&mut self) -> (r: HirResult<Program>)
        requires
            compile_outcome(*old(self)) is Some,
        ensures
            compiled(*old(self), *final(self), compile_outcome(*old(self)).unwrap(), r),
    {
        match self.try_compile() {
            Some(r) => r,
            None => Err(HirError::UnsupportedStatement { span: crate::span::Span { start: 0, end: 0 } }),
        }
    }
}

/// Compiling `k` functions stops the same way as compiling `k - 1` where that
/// stopped.
pub proof fn lemma_compile_functions_stops(sig: Seq<(String, HirFunctionSignature)>, fns: Seq<(String, HirFunction)>, k: int, pool: Seq<String>, pos: usize)
    requires
        1 <= k <= fns.len(),
    ensures
        compile_functions(sig, fns, k - 1, pool, pos) is None ==> compile_functions(sig, fns, k, pool, pos) is None,
{
}

/// Once compiling the first `k` functions fails, compiling more fails the same
/// way.
pub proof fn lemma_compile_functions_stops_at(sig: Seq<(String, HirFunctionSignature)>, fns: Seq<(String, HirFunction)>, k: int, n: int, pool: Seq<String>, pos: usize)
    requires
        0 <= k <= n <= fns.len(),
        compile_functions(sig, fns, k, pool, pos) is Some,
        compile_functions(sig, fns, k, pool, pos).unwrap().err is Some,
    ensures
        compile_functions(sig, fns, n, pool, pos) == compile_functions(sig, fns, k, pool, pos),
    decreases n,
{
    if n > k {
        lemma_compile_functions_stops_at(sig, fns, k, n - 1, pool, pos);
    }
}

/// Once compiling the first `k` functions has no outcome, compiling more has
/// none either.
pub proof fn lemma_compile_functions_none(sig: Seq<(String, HirFunctionSignature)>, fns: Seq<(String, HirFunction)>, k: int, n: int, pool: Seq<String>, pos: usize)
    requires
        0 <= k <= n <= fns.len(),
        compile_functions(sig, fns, k, pool, pos) is None,
    ensures
        compile_functions(sig, fns, n, pool, pos) is None,
    decreases n,
{
    if n > k {
        lemma_compile_functions_none(sig, fns, k, n - 1, pool, pos);
    }
}

} // verus!
