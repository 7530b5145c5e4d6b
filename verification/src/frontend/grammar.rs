//! What the parser reads: each parsing function as a function of the token
//! sequence and a position, giving the node (or the error) and the position
//! after it.
use vstd::prelude::*;
use crate::span::{Span, union_of};
use super::token::{Token, TokenKind, Literal, kind_eq};
use super::ast::{
    AstIdentifier, AstUnaryOp, AstBinaryOp, AstLiteral, AstExpr, AstBinaryOpExpr, AstUnaryOpExpr,
    TypeModel, type_span, FieldModel, LetModel, StructModel, ExternModel, AstInclude, ItemModel, FuncModel,
    expr_span,
};
use super::error::{ParseError, ParseResult, Expected, SourceSpan, UnexpectedTokenError};

verus! {

/// A token sequence as the lexer makes it: it ends with the end of input, and
/// no span ends before it starts.
pub open spec fn stream_ok(toks: Seq<Token>) -> bool {
    &&& toks.len() >= 1
    &&& toks.last().kind == TokenKind::EoI
    &&& forall|i: int| 0 <= i < toks.len() ==> #[trigger] toks[i].span.start <= toks[i].span.end
}

/// The end-of-input token that reading past the tokens gives.
pub open spec fn eoi_token() -> Token {
    Token { kind: TokenKind::EoI, span: Span { start: 0, end: 0 } }
}

/// The token at position `p`.
pub open spec fn cur(toks: Seq<Token>, p: int) -> Token {
    if 0 <= p < toks.len() { toks[p] } else { eoi_token() }
}

/// The position after consuming the token at `p`.
pub open spec fn adv(toks: Seq<Token>, p: int) -> int {
    if 0 <= p < toks.len() { p + 1 } else { p }
}

/// Where a token stands, as the error report gives it.
pub open spec fn source_span(t: Token) -> SourceSpan {
    SourceSpan { offset: t.span.start, length: (t.span.end - t.span.start) as usize }
}

/// The error for token `t` where `e` was expected.
pub open spec fn unexpected(t: Token, e: Expected, src: String) -> ParseError {
    ParseError::UnexpectedToken(UnexpectedTokenError { token: t, expected: e, span: source_span(t), src })
}

/// Consuming a token of kind `kind`.
pub open spec fn expect_spec(toks: Seq<Token>, src: String, p: int, kind: TokenKind) -> (ParseResult<Token>, int) {
    let t = cur(toks, p);
    if kind_eq(t.kind, kind) {
        (Ok(t), adv(toks, p))
    } else {
        (Err(unexpected(t, Expected::Kind(kind), src)), adv(toks, p))
    }
}

/// An identifier.
pub open spec fn ident_spec(toks: Seq<Token>, src: String, p: int) -> (ParseResult<AstIdentifier>, int) {
    let t = cur(toks, p);
    match t.kind {
        TokenKind::Literal(Literal::Identifier(s)) => (Ok(AstIdentifier { span: union_of(t.span, t.span), name: s }), adv(toks, p)),
        _ => (Err(unexpected(t, Expected::Identifier, src)), p),
    }
}

/// The type that a one-token type keyword names, spanning `s`.
pub open spec fn keyword_type(k: TokenKind, s: Span) -> Option<TypeModel> {
    match k {
        TokenKind::I64Ty => Some(TypeModel::Integer(s)),
        TokenKind::F64Ty => Some(TypeModel::Float(s)),
        TokenKind::U64Ty => Some(TypeModel::UnsignedIntegerer(s)),
        TokenKind::BoolTy => Some(TypeModel::Boolean(s)),
        TokenKind::StrTy => Some(TypeModel::String(s)),
        TokenKind::UnitTy => Some(TypeModel::Unit(s)),
        _ => None,
    }
}

/// A type: a type keyword, `&` and a type, a name, or `(types) -> type`.
pub open spec fn type_spec(toks: Seq<Token>, src: String, p: int) -> (ParseResult<TypeModel>, int)
    decreases toks.len() - p, 1int,
{
    if !(0 <= p < toks.len()) {
        (Err(unexpected(cur(toks, p), Expected::Type, src)), p)
    } else {
        let t = toks[p];
        let p1 = p + 1;
        match keyword_type(t.kind, union_of(t.span, cur(toks, p1).span)) {
            Some(ty) => (Ok(ty), p1),
            None => match t.kind {
                TokenKind::Ampersand => {
                    let (r, p2) = type_spec(toks, src, p1);
                    match r {
                        Err(e) => (Err(e), p2),
                        Ok(ty) => (Ok(TypeModel::Pointer { span: union_of(t.span, type_span(ty)), inner: Box::new(ty) }), p2),
                    }
                },
                TokenKind::Literal(Literal::Identifier(_)) => {
                    let (r, p2) = ident_spec(toks, src, p);
                    match r {
                        Err(e) => (Err(e), p2),
                        Ok(name) => (Ok(TypeModel::Named { span: union_of(t.span, cur(toks, p2).span), name }), p2),
                    }
                },
                TokenKind::LParen => {
                    let (rl, p2) = type_list_spec(toks, src, p1, Seq::empty());
                    match rl {
                        Err(e) => (Err(e), p2),
                        Ok(types) => {
                            let (r1, p3) = expect_spec(toks, src, p2, TokenKind::RParen);
                            match r1 {
                                Err(e) => (Err(e), p3),
                                Ok(_) => {
                                    let (r2, p4) = expect_spec(toks, src, p3, TokenKind::RArrow);
                                    match r2 {
                                        Err(e) => (Err(e), p4),
                                        Ok(_) => if p < p4 <= toks.len() {
                                            let (r3, p5) = type_spec(toks, src, p4);
                                            match r3 {
                                                Err(e) => (Err(e), p5),
                                                Ok(ret) => (Ok(TypeModel::Function {
                                                    span: union_of(t.span, cur(toks, p5).span),
                                                    args: types,
                                                    ret: Box::new(ret),
                                                }), p5),
                                            }
                                        } else {
                                            (Err(unexpected(cur(toks, p4), Expected::Type, src)), p4)
                                        },
                                    }
                                },
                            }
                        },
                    }
                },
                _ => (Err(unexpected(t, Expected::Type, src)), p),
            },
        }
    }
}

/// Types up to a `)`, each followed by an optional `,`, after those in `acc`.
pub open spec fn type_list_spec(toks: Seq<Token>, src: String, p: int, acc: Seq<TypeModel>) -> (ParseResult<Seq<TypeModel>>, int)
    decreases toks.len() - p, 2int,
{
    if !(0 <= p <= toks.len()) || cur(toks, p).kind is RParen {
        (Ok(acc), p)
    } else {
        let (r, p1) = type_spec(toks, src, p);
        match r {
            Err(e) => (Err(e), p1),
            Ok(ty) => {
                let p2 = if cur(toks, p1).kind is Comma { adv(toks, p1) } else { p1 };
                if p < p2 <= toks.len() {
                    type_list_spec(toks, src, p2, acc.push(ty))
                } else {
                    (Ok(acc.push(ty)), p2)
                }
            },
        }
    }
}

/// A primary expression: a literal.
pub open spec fn primary_spec(toks: Seq<Token>, src: String, p: int) -> (ParseResult<AstExpr>, int) {
    let t = cur(toks, p);
    let p1 = adv(toks, p);
    match t.kind {
        TokenKind::Literal(Literal::Bool(b)) => (Ok(AstExpr::Literal(AstLiteral::Boolean { span: t.span, value: b })), p1),
        TokenKind::Literal(Literal::Float(f)) => (Ok(AstExpr::Literal(AstLiteral::Float { span: t.span, value: f })), p1),
        TokenKind::Literal(Literal::F64(f)) => (Ok(AstExpr::Literal(AstLiteral::Float { span: t.span, value: f })), p1),
        TokenKind::Literal(Literal::U64(u)) => (Ok(AstExpr::Literal(AstLiteral::UnsignedIntegerer { span: t.span, value: u })), p1),
        TokenKind::Literal(Literal::Int(i)) => (Ok(AstExpr::Literal(AstLiteral::Integer { span: t.span, value: i })), p1),
        TokenKind::Literal(Literal::I64(i)) => (Ok(AstExpr::Literal(AstLiteral::Integer { span: t.span, value: i })), p1),
        TokenKind::Literal(Literal::StringLiteral(s)) => (Ok(AstExpr::Literal(AstLiteral::String { span: t.span, value: s })), p1),
        TokenKind::KwTrue => (Ok(AstExpr::Literal(AstLiteral::Boolean { span: t.span, value: true })), p1),
        TokenKind::KwFalse => (Ok(AstExpr::Literal(AstLiteral::Boolean { span: t.span, value: false })), p1),
        _ => (Err(unexpected(t, Expected::PrimaryExpression, src)), p),
    }
}

/// A unary expression: an optional `-` or `!`, then a primary expression.
pub open spec fn unary_spec(toks: Seq<Token>, src: String, p: int) -> (ParseResult<AstUnaryOpExpr>, int) {
    let t = cur(toks, p);
    let (op, p1) = match t.kind {
        TokenKind::OpSub => (Some(AstUnaryOp::Neg), adv(toks, p)),
        TokenKind::Bang => (Some(AstUnaryOp::Not), adv(toks, p)),
        _ => (None, p),
    };
    let (r, p2) = primary_spec(toks, src, p1);
    match r {
        Err(e) => (Err(e), p2),
        Ok(e) => (Ok(AstUnaryOpExpr { span: union_of(t.span, cur(toks, p2).span), op, expr: Box::new(e) }), p2),
    }
}

/// The comparison operator of a token kind.
pub open spec fn comparison_op(k: TokenKind) -> Option<AstBinaryOp> {
    match k {
        TokenKind::OpEq => Some(AstBinaryOp::Eq),
        TokenKind::OpNEq => Some(AstBinaryOp::NEq),
        TokenKind::OpGreaterThan => Some(AstBinaryOp::Gt),
        TokenKind::OpGreaterThanEq => Some(AstBinaryOp::Gte),
        TokenKind::OpLessThan => Some(AstBinaryOp::Lt),
        TokenKind::OpLessThanEq => Some(AstBinaryOp::Lte),
        _ => None,
    }
}

/// The multiplicative operator of a token kind.
pub open spec fn factor_op(k: TokenKind) -> Option<AstBinaryOp> {
    match k {
        TokenKind::OpMul => Some(AstBinaryOp::Mul),
        TokenKind::OpDiv => Some(AstBinaryOp::Div),
        TokenKind::OpMod => Some(AstBinaryOp::Mod),
        _ => None,
    }
}

/// The additive operator of a token kind.
pub open spec fn term_op(k: TokenKind) -> Option<AstBinaryOp> {
    match k {
        TokenKind::OpAdd => Some(AstBinaryOp::Add),
        TokenKind::OpSub => Some(AstBinaryOp::Sub),
        _ => None,
    }
}

/// The binary expression `lhs op rhs`.
pub open spec fn binary_node(op: AstBinaryOp, lhs: AstExpr, rhs: AstExpr) -> AstExpr {
    AstExpr::BinaryOp(AstBinaryOpExpr {
        span: union_of(expr_span(lhs), expr_span(rhs)),
        op,
        lhs: Box::new(lhs),
        rhs: Box::new(rhs),
    })
}

/// A comparison: a unary expression, optionally followed by a comparison
/// operator and a comparison (grouping to the right).
pub open spec fn condition_spec(toks: Seq<Token>, src: String, p: int) -> (ParseResult<AstExpr>, int)
    decreases toks.len() - p,
{
    let (r, p1) = unary_spec(toks, src, p);
    match r {
        Err(e) => (Err(e), p1),
        Ok(u) => {
            let left = AstExpr::UnaryOp(u);
            match comparison_op(cur(toks, p1).kind) {
                None => (Ok(left), p1),
                Some(op) => {
                    let p2 = adv(toks, p1);
                    if p < p2 <= toks.len() {
                        let (rr, p3) = condition_spec(toks, src, p2);
                        match rr {
                            Err(e) => (Err(e), p3),
                            Ok(right) => (Ok(binary_node(op, left, right)), p3),
                        }
                    } else {
                        (Ok(left), p1)
                    }
                },
            }
        },
    }
}

/// A product: a comparison, optionally followed by `*`, `/` or `%` and a
/// product (grouping to the right).
pub open spec fn factor_spec(toks: Seq<Token>, src: String, p: int) -> (ParseResult<AstExpr>, int)
    decreases toks.len() - p,
{
    let (r, p1) = condition_spec(toks, src, p);
    match r {
        Err(e) => (Err(e), p1),
        Ok(left) => match factor_op(cur(toks, p1).kind) {
            None => (Ok(left), p1),
            Some(op) => {
                let p2 = adv(toks, p1);
                if p < p2 <= toks.len() {
                    let (rr, p3) = factor_spec(toks, src, p2);
                    match rr {
                        Err(e) => (Err(e), p3),
                        Ok(right) => (Ok(binary_node(op, left, right)), p3),
                    }
                } else {
                    (Ok(left), p1)
                }
            },
        },
    }
}

/// A sum: a product, optionally followed by `+` or `-` and a sum (grouping to
/// the right).
pub open spec fn binary_spec(toks: Seq<Token>, src: String, p: int) -> (ParseResult<AstExpr>, int)
    decreases toks.len() - p,
{
    let (r, p1) = factor_spec(toks, src, p);
    match r {
        Err(e) => (Err(e), p1),
        Ok(left) => match term_op(cur(toks, p1).kind) {
            None => (Ok(left), p1),
            Some(op) => {
                let p2 = adv(toks, p1);
                if p < p2 <= toks.len() {
                    let (rr, p3) = binary_spec(toks, src, p2);
                    match rr {
                        Err(e) => (Err(e), p3),
                        Ok(right) => (Ok(binary_node(op, left, right)), p3),
                    }
                } else {
                    (Ok(left), p1)
                }
            },
        },
    }
}

/// A unary expression that is read moves past its position.
pub proof fn lemma_unary_advances(toks: Seq<Token>, src: String, p: int)
    requires
        0 <= p,
    ensures
        unary_spec(toks, src, p).0 is Ok ==> p < unary_spec(toks, src, p).1,
{
}

/// A comparison that is read moves past its position.
pub proof fn lemma_condition_advances(toks: Seq<Token>, src: String, p: int)
    requires
        0 <= p,
    ensures
        condition_spec(toks, src, p).0 is Ok ==> p < condition_spec(toks, src, p).1,
    decreases toks.len() - p,
{
    lemma_unary_advances(toks, src, p);
    let p1 = unary_spec(toks, src, p).1;
    let p2 = adv(toks, p1);
    if unary_spec(toks, src, p).0 is Ok && comparison_op(cur(toks, p1).kind) is Some && p < p2 <= toks.len() {
        lemma_condition_advances(toks, src, p2);
    }
}

/// A product that is read moves past its position.
pub proof fn lemma_factor_advances(toks: Seq<Token>, src: String, p: int)
    requires
        0 <= p,
    ensures
        factor_spec(toks, src, p).0 is Ok ==> p < factor_spec(toks, src, p).1,
    decreases toks.len() - p,
{
    lemma_condition_advances(toks, src, p);
    let p1 = condition_spec(toks, src, p).1;
    let p2 = adv(toks, p1);
    if condition_spec(toks, src, p).0 is Ok && factor_op(cur(toks, p1).kind) is Some && p < p2 <= toks.len() {
        lemma_factor_advances(toks, src, p2);
    }
}

/// The operator and the left side of a binary expression, if it is one.
pub open spec fn op_and_lhs(e: AstExpr) -> Option<(AstBinaryOp, AstExpr)> {
    match e {
        AstExpr::BinaryOp(b) => Some((b.op, *b.lhs)),
        _ => None,
    }
}

/// The operator of a parsed operation is the one its token spells, and its
/// left side is the operand read before that token: after a product, `+` and
/// `-` make `Add` and `Sub`; after a comparison, `*`, `/` and `%` make `Mul`,
/// `Div` and `Mod`; after a unary expression, `==`, `!=`, `>`, `>=`, `<` and
/// `<=` make `Eq`, `NEq`, `Gt`, `Gte`, `Lt` and `Lte`.
pub proof fn law_operators_are_spelled(toks: Seq<Token>, src: String, p: int)
    requires
        0 <= p,
    ensures
        ({
            let (rl, p1) = factor_spec(toks, src, p);
            let r = binary_spec(toks, src, p).0;
            let k = cur(toks, p1).kind;
            (rl is Ok && r is Ok) ==> {
                &&& k is OpAdd ==> op_and_lhs(r->Ok_0) == Some((AstBinaryOp::Add, rl->Ok_0))
                &&& k is OpSub ==> op_and_lhs(r->Ok_0) == Some((AstBinaryOp::Sub, rl->Ok_0))
            }
        }),
        ({
            let (rl, p1) = condition_spec(toks, src, p);
            let r = factor_spec(toks, src, p).0;
            let k = cur(toks, p1).kind;
            (rl is Ok && r is Ok) ==> {
                &&& k is OpMul ==> op_and_lhs(r->Ok_0) == Some((AstBinaryOp::Mul, rl->Ok_0))
                &&& k is OpDiv ==> op_and_lhs(r->Ok_0) == Some((AstBinaryOp::Div, rl->Ok_0))
                &&& k is OpMod ==> op_and_lhs(r->Ok_0) == Some((AstBinaryOp::Mod, rl->Ok_0))
            }
        }),
        ({
            let (rl, p1) = unary_spec(toks, src, p);
            let r = condition_spec(toks, src, p).0;
            let k = cur(toks, p1).kind;
            (rl is Ok && r is Ok) ==> {
                &&& k is OpEq ==> op_and_lhs(r->Ok_0) == Some((AstBinaryOp::Eq, AstExpr::UnaryOp(rl->Ok_0)))
                &&& k is OpNEq ==> op_and_lhs(r->Ok_0) == Some((AstBinaryOp::NEq, AstExpr::UnaryOp(rl->Ok_0)))
                &&& k is OpGreaterThan ==> op_and_lhs(r->Ok_0) == Some((AstBinaryOp::Gt, AstExpr::UnaryOp(rl->Ok_0)))
                &&& k is OpGreaterThanEq ==> op_and_lhs(r->Ok_0) == Some((AstBinaryOp::Gte, AstExpr::UnaryOp(rl->Ok_0)))
                &&& k is OpLessThan ==> op_and_lhs(r->Ok_0) == Some((AstBinaryOp::Lt, AstExpr::UnaryOp(rl->Ok_0)))
                &&& k is OpLessThanEq ==> op_and_lhs(r->Ok_0) == Some((AstBinaryOp::Lte, AstExpr::UnaryOp(rl->Ok_0)))
            }
        }),
{
    lemma_factor_advances(toks, src, p);
    lemma_condition_advances(toks, src, p);
    lemma_unary_advances(toks, src, p);
}

/// `let name: type = expression`, the keyword at `p`.
pub open spec fn let_spec(toks: Seq<Token>, src: String, p: int) -> (ParseResult<LetModel>, int) {
    let (rn, p1) = ident_spec(toks, src, adv(toks, p));
    match rn {
        Err(e) => (Err(e), p1),
        Ok(name) => {
            let (rc, p2) = expect_spec(toks, src, p1, TokenKind::Colon);
            match rc {
                Err(e) => (Err(e), p2),
                Ok(_) => {
                    let (rt, p3) = type_spec(toks, src, p2);
                    match rt {
                        Err(e) => (Err(e), p3),
                        Ok(ty) => {
                            let (ra, p4) = expect_spec(toks, src, p3, TokenKind::OpAssign);
                            match ra {
                                Err(e) => (Err(e), p4),
                                Ok(_) => {
                                    let (rv, p5) = binary_spec(toks, src, p4);
                                    match rv {
                                        Err(e) => (Err(e), p5),
                                        Ok(value) => (Ok(LetModel {
                                            span: union_of(name.span, expr_span(value)),
                                            name,
                                            ty: Some(ty),
                                            value,
                                        }), p5),
                                    }
                                },
                            }
                        },
                    }
                },
            }
        },
    }
}

/// `extern name(types) -> type`, the keyword at `p`.
pub open spec fn extern_spec(toks: Seq<Token>, src: String, p: int) -> (ParseResult<ExternModel>, int) {
    let (rn, p1) = ident_spec(toks, src, adv(toks, p));
    match rn {
        Err(e) => (Err(e), p1),
        Ok(name) => {
            let (rl, p2) = expect_spec(toks, src, p1, TokenKind::LParen);
            match rl {
                Err(e) => (Err(e), p2),
                Ok(_) => {
                    let (rs, p3) = type_list_spec(toks, src, p2, Seq::empty());
                    match rs {
                        Err(e) => (Err(e), p3),
                        Ok(args) => {
                            let (r1, p4) = expect_spec(toks, src, p3, TokenKind::RParen);
                            match r1 {
                                Err(e) => (Err(e), p4),
                                Ok(_) => {
                                    let (r2, p5) = expect_spec(toks, src, p4, TokenKind::RArrow);
                                    match r2 {
                                        Err(e) => (Err(e), p5),
                                        Ok(_) => {
                                            let (rr, p6) = type_spec(toks, src, p5);
                                            match rr {
                                                Err(e) => (Err(e), p6),
                                                Ok(ret) => (Ok(ExternModel {
                                                    span: union_of(name.span, type_span(ret)),
                                                    name,
                                                    args,
                                                    ret,
                                                }), p6),
                                            }
                                        },
                                    }
                                },
                            }
                        },
                    }
                },
            }
        },
    }
}

/// `include "path"` or `include "path" as alias`, the keyword at `p`.
pub open spec fn include_spec(toks: Seq<Token>, src: String, p: int) -> (ParseResult<AstInclude>, int) {
    let start = cur(toks, p);
    let p1 = adv(toks, p);
    match cur(toks, p1).kind {
        TokenKind::Literal(Literal::StringLiteral(path)) => {
            let p2 = adv(toks, p1);
            if cur(toks, p2).kind is KwAs {
                let (ra, p3) = ident_spec(toks, src, adv(toks, p2));
                match ra {
                    Err(e) => (Err(e), p3),
                    Ok(alias) => (Ok(AstInclude { span: union_of(start.span, alias.span), path, alias: Some(Box::new(alias)) }), p3),
                }
            } else {
                (Ok(AstInclude { span: union_of(start.span, start.span), path, alias: None }), p2)
            }
        },
        _ => (Err(unexpected(cur(toks, p1), Expected::StringLiteral, src)), p1),
    }
}

/// A field: `name: type`.
pub open spec fn field_spec(toks: Seq<Token>, src: String, p: int) -> (ParseResult<FieldModel>, int) {
    let (rn, p1) = ident_spec(toks, src, p);
    match rn {
        Err(e) => (Err(e), p1),
        Ok(name) => {
            let (rc, p2) = expect_spec(toks, src, p1, TokenKind::Colon);
            match rc {
                Err(e) => (Err(e), p2),
                Ok(_) => {
                    let (rt, p3) = type_spec(toks, src, p2);
                    match rt {
                        Err(e) => (Err(e), p3),
                        Ok(ty) => (Ok(FieldModel { span: union_of(name.span, type_span(ty)), name, ty }), p3),
                    }
                },
            }
        },
    }
}

/// Fields up to a `)`, each followed by an optional `,`, after those in `acc`.
pub open spec fn field_list_spec(toks: Seq<Token>, src: String, p: int, acc: Seq<FieldModel>) -> (ParseResult<Seq<FieldModel>>, int)
    decreases toks.len() - p,
{
    if !(0 <= p <= toks.len()) || cur(toks, p).kind is RParen {
        (Ok(acc), p)
    } else {
        let (r, p1) = field_spec(toks, src, p);
        match r {
            Err(e) => (Err(e), p1),
            Ok(f) => {
                let p2 = if cur(toks, p1).kind is Comma { adv(toks, p1) } else { p1 };
                if p < p2 <= toks.len() {
                    field_list_spec(toks, src, p2, acc.push(f))
                } else {
                    (Ok(acc.push(f)), p2)
                }
            },
        }
    }
}

/// `struct Name(fields)`, the keyword at `p`.
pub open spec fn struct_spec(toks: Seq<Token>, src: String, p: int) -> (ParseResult<StructModel>, int) {
    let (rn, p1) = ident_spec(toks, src, adv(toks, p));
    match rn {
        Err(e) => (Err(e), p1),
        Ok(name) => {
            let (rl, p2) = expect_spec(toks, src, p1, TokenKind::LParen);
            match rl {
                Err(e) => (Err(e), p2),
                Ok(_) => {
                    let (rf, p3) = field_list_spec(toks, src, p2, Seq::empty());
                    match rf {
                        Err(e) => (Err(e), p3),
                        Ok(fields) => {
                            let (rr, p4) = expect_spec(toks, src, p3, TokenKind::RParen);
                            match rr {
                                Err(e) => (Err(e), p4),
                                Ok(_) => (Ok(StructModel { span: union_of(name.span, cur(toks, p4).span), name, fields }), p4),
                            }
                        },
                    }
                },
            }
        },
    }
}

/// Expressions up to a `}`, each followed by an optional `;`, after those in
/// `acc`.
pub open spec fn expr_list_spec(toks: Seq<Token>, src: String, p: int, acc: Seq<AstExpr>) -> (ParseResult<Seq<AstExpr>>, int)
    decreases toks.len() - p,
{
    if !(0 <= p <= toks.len()) || cur(toks, p).kind is RBrace {
        (Ok(acc), p)
    } else {
        let (r, p1) = binary_spec(toks, src, p);
        match r {
            Err(e) => (Err(e), p1),
            Ok(x) => {
                let p2 = if cur(toks, p1).kind is Semicolon { adv(toks, p1) } else { p1 };
                if p < p2 <= toks.len() {
                    expr_list_spec(toks, src, p2, acc.push(x))
                } else {
                    (Ok(acc.push(x)), p2)
                }
            },
        }
    }
}

/// The body of a function: `{`, expressions, `}`; the body and the closing
/// brace.
pub open spec fn body_spec(toks: Seq<Token>, src: String, p: int) -> (ParseResult<(Seq<AstExpr>, Token)>, int) {
    let (rl, p1) = expect_spec(toks, src, p, TokenKind::LBrace);
    match rl {
        Err(e) => (Err(e), p1),
        Ok(_) => {
            let (re, p2) = expr_list_spec(toks, src, p1, Seq::empty());
            match re {
                Err(e) => (Err(e), p2),
                Ok(body) => {
                    let (rr, p3) = expect_spec(toks, src, p2, TokenKind::RBrace);
                    match rr {
                        Err(e) => (Err(e), p3),
                        Ok(close) => (Ok((body, close)), p3),
                    }
                },
            }
        },
    }
}

/// `func name(fields) -> type { body }`, the keyword at `p`; the function
/// spans from its name to the closing brace.
pub open spec fn func_spec(toks: Seq<Token>, src: String, p: int) -> (ParseResult<FuncModel>, int) {
    let (rn, p1) = ident_spec(toks, src, adv(toks, p));
    match rn {
        Err(e) => (Err(e), p1),
        Ok(name) => {
            let (rl, p2) = expect_spec(toks, src, p1, TokenKind::LParen);
            match rl {
                Err(e) => (Err(e), p2),
                Ok(_) => {
                    let (rf, p3) = field_list_spec(toks, src, p2, Seq::empty());
                    match rf {
                        Err(e) => (Err(e), p3),
                        Ok(args) => {
                            let (rr, p4) = expect_spec(toks, src, p3, TokenKind::RParen);
                            match rr {
                                Err(e) => (Err(e), p4),
                                Ok(_) => {
                                    let (ra, p5) = expect_spec(toks, src, p4, TokenKind::RArrow);
                                    match ra {
                                        Err(e) => (Err(e), p5),
                                        Ok(_) => {
                                            let (rt, p6) = type_spec(toks, src, p5);
                                            match rt {
                                                Err(e) => (Err(e), p6),
                                                Ok(ret) => {
                                                    let (rb, p7) = body_spec(toks, src, p6);
                                                    match rb {
                                                        Err(e) => (Err(e), p7),
                                                        Ok((body, close)) => (Ok(FuncModel {
                                                            span: union_of(name.span, close.span), name, args, ret, body,
                                                        }), p7),
                                                    }
                                                },
                                            }
                                        },
                                    }
                                },
                            }
                        },
                    }
                },
            }
        },
    }
}

/// An item: a structure, an include, an external function or a function.
pub open spec fn item_spec(toks: Seq<Token>, src: String, p: int) -> (ParseResult<ItemModel>, int) {
    let t = cur(toks, p);
    match t.kind {
        TokenKind::KwStruct => {
            let (r, p1) = struct_spec(toks, src, p);
            match r {
                Err(e) => (Err(e), p1),
                Ok(s) => (Ok(ItemModel::Struct(s)), p1),
            }
        },
        TokenKind::KwInclude => {
            let (r, p1) = include_spec(toks, src, p);
            match r {
                Err(e) => (Err(e), p1),
                Ok(i) => (Ok(ItemModel::Include(i)), p1),
            }
        },
        TokenKind::KwExtern => {
            let (r, p1) = extern_spec(toks, src, p);
            match r {
                Err(e) => (Err(e), p1),
                Ok(x) => (Ok(ItemModel::ExternFunction(x)), p1),
            }
        },
        TokenKind::KwFunc => {
            let (r, p1) = func_spec(toks, src, p);
            match r {
                Err(e) => (Err(e), p1),
                Ok(f) => (Ok(ItemModel::Func(f)), p1),
            }
        },
        _ => (Err(unexpected(t, Expected::Item, src)), p),
    }
}

/// Items up to the end of input, after those in `acc`.
pub open spec fn items_spec(toks: Seq<Token>, src: String, p: int, acc: Seq<ItemModel>) -> (ParseResult<Seq<ItemModel>>, int)
    decreases toks.len() - p,
{
    if !(0 <= p <= toks.len()) || cur(toks, p).kind is EoI {
        (Ok(acc), p)
    } else {
        let (r, p1) = item_spec(toks, src, p);
        match r {
            Err(e) => (Err(e), p1),
            Ok(it) => if p < p1 <= toks.len() {
                items_spec(toks, src, p1, acc.push(it))
            } else {
                (Ok(acc.push(it)), p1)
            },
        }
    }
}

/// A program: the first token is skipped, then items are read up to the end
/// of input.
pub open spec fn program_spec(toks: Seq<Token>, src: String, p: int) -> (ParseResult<Seq<ItemModel>>, int) {
    items_spec(toks, src, adv(toks, p), Seq::empty())
}

} // verus!
