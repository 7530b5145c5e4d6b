//! The recursive-descent parser, each function against its rule in `grammar`.
use vstd::prelude::*;
use crate::span::{Span, union_of};
use super::token::{Token, TokenKind, Literal, kind_eq};
use super::ast::{
    AstIdentifier, AstUnaryOp, AstBinaryOp, AstLiteral, AstExpr, AstBinaryOpExpr, AstUnaryOpExpr,
    AstType, TypeModel, type_model, types_model, FieldModel, AstObjField, AstLetExpr, LetModel,
    AstStruct, AstExternFunction, AstInclude, AstItem, ItemModel, AstProgram, AstFunction, FuncModel,
};
use super::error::{ParseError, ParseResult, Expected, SourceSpan, UnexpectedTokenError};
use super::grammar::{
    stream_ok, cur, adv, unexpected, expect_spec, ident_spec, type_spec, type_list_spec,
    primary_spec, unary_spec, condition_spec, factor_spec, binary_spec, let_spec, extern_spec,
    include_spec, field_spec, field_list_spec, struct_spec, item_spec, items_spec, program_spec,
    expr_list_spec, body_spec, func_spec,
    comparison_op, factor_op, term_op, binary_node, source_span,
};

verus! {

/// The models of some types.
pub open spec fn models(ts: Seq<AstType>) -> Seq<TypeModel> {
    ts.map_values(|t: AstType| t@)
}

pub proof fn lemma_types_model(ts: Seq<AstType>, n: int)
    requires
        0 <= n <= ts.len(),
    ensures
        types_model(ts, n) == models(ts.take(n)),
    decreases n,
{
    if n > 0 {
        lemma_types_model(ts, n - 1);
        assert(models(ts.take(n)) =~= models(ts.take(n - 1)).push(type_model(ts[n - 1])));
    } else {
        assert(models(ts.take(n)) =~= Seq::<TypeModel>::empty());
    }
}

pub open spec fn type_result(r: ParseResult<AstType>) -> ParseResult<TypeModel> {
    match r {
        Ok(t) => Ok(t@),
        Err(e) => Err(e),
    }
}

pub open spec fn types_result(r: ParseResult<Vec<AstType>>) -> ParseResult<Seq<TypeModel>> {
    match r {
        Ok(v) => Ok(models(v@)),
        Err(e) => Err(e),
    }
}

pub open spec fn fields_result(r: ParseResult<Vec<AstObjField>>) -> ParseResult<Seq<FieldModel>> {
    match r {
        Ok(v) => Ok(v@.map_values(|f: AstObjField| f@)),
        Err(e) => Err(e),
    }
}

pub open spec fn items_result(r: ParseResult<Vec<AstItem>>) -> ParseResult<Seq<ItemModel>> {
    match r {
        Ok(v) => Ok(v@.map_values(|i: AstItem| i@)),
        Err(e) => Err(e),
    }
}

/// The parser: the tokens, the path of the file they come from, the position
/// of the next token and the source text (for error reports).
pub struct Parser {
    tokens: Vec<Token>,
    file_path: String,
    pos: usize,
    src: String,
}

impl Parser {
    pub closed spec fn toks(&self) -> Seq<Token> {
        self.tokens@
    }

    pub closed spec fn position(&self) -> int {
        self.pos as int
    }

    pub closed spec fn source(&self) -> String {
        self.src
    }

    pub closed spec fn path(&self) -> String {
        self.file_path
    }

    /// The tokens are as the lexer makes them and the position is on one.
    pub open spec fn wf(&self) -> bool {
        &&& stream_ok(self.toks())
        &&& 0 <= self.position() < self.toks().len()
    }

    pub fn new(tokens: Vec<Token>, file_path: String, src: String) -> (r: Parser)
        ensures
            r.toks() == tokens@,
            r.position() == 0,
            r.source() == src,
            r.path() == file_path,
    {
        Parser { tokens, file_path, pos: 0, src }
    }

    /// The token at the position.
    pub fn current(&self) -> (r: &Token)
        requires
            0 <= self.position() < self.toks().len(),
        ensures
            *r == self.toks()[self.position()],
    {
        &self.tokens[self.pos]
    }

    /// The kind of the token after the one at the position, if there is one.
    pub fn peek(&self) -> (r: Option<TokenKind>)
        ensures
            r == (if self.position() + 1 < self.toks().len() {
                Some(self.toks()[self.position() + 1].kind)
            } else {
                None::<TokenKind>
            }),
    {
        if self.pos < self.tokens.len() && self.pos + 1 < self.tokens.len() {
            Some(self.tokens[self.pos + 1].kind())
        } else {
            None
        }
    }

    /// Consumes the token at the position; past the end, an end-of-input token.
    fn advance(&mut self) -> (r: Token)
        ensures
            final(self).toks() == old(self).toks(),
            final(self).source() == old(self).source(),
            r == cur(old(self).toks(), old(self).position()),
            final(self).position() == adv(old(self).toks(), old(self).position()),
            old(self).wf() && !(r.kind is EoI) ==> final(self).position() < final(self).toks().len(),
    {
        if self.pos < self.tokens.len() {
            let t = self.tokens[self.pos].copy();
            self.pos = self.pos + 1;
            proof {
                if old(self).wf() && !(t.kind is EoI) {
                    assert(self.toks().last() == self.toks()[self.toks().len() - 1]);
                }
            }
            t
        } else {
            Token::new(Span { start: 0, end: 0 }, TokenKind::EoI)
        }
    }

    /// The error for the token at the position, where `e` was expected.
    fn error_here(&self, e: Expected) -> (r: ParseError)
        requires
            self.wf(),
        ensures
            r == unexpected(cur(self.toks(), self.position()), e, self.source()),
    {
        let t = self.tokens[self.pos].copy();
        assert(t.span.start <= t.span.end);
        ParseError::UnexpectedToken(UnexpectedTokenError {
            span: SourceSpan { offset: t.span.start, length: t.span.end - t.span.start },
            token: t,
            expected: e,
            src: self.src.clone(),
        })
    }

    /// Consumes a token of kind `kind`.
    fn expect(&mut self, kind: TokenKind) -> (r: ParseResult<Token>)
        requires
            old(self).wf(),
            !(kind is EoI),
        ensures
            final(self).toks() == old(self).toks(),
            final(self).source() == old(self).source(),
            (r, final(self).position()) == expect_spec(old(self).toks(), old(self).source(), old(self).position(), kind),
            r is Ok ==> old(self).position() < final(self).position() < final(self).toks().len(),
    {
        let tok = self.advance();
        if tok.kind.same(&kind) {
            Ok(tok)
        } else {
            assert(tok.span.start <= tok.span.end);
            Err(ParseError::UnexpectedToken(UnexpectedTokenError {
                span: SourceSpan { offset: tok.span.start, length: tok.span.end - tok.span.start },
                token: tok,
                expected: Expected::Kind(kind),
                src: self.src.clone(),
            }))
        }
    }

    /// An identifier.
    pub fn parse_identifier(&mut self) -> (r: ParseResult<AstIdentifier>)
        requires
            old(self).wf(),
        ensures
            final(self).toks() == old(self).toks(),
            final(self).source() == old(self).source(),
            (r, final(self).position()) == ident_spec(old(self).toks(), old(self).source(), old(self).position()),
            r is Ok ==> old(self).position() < final(self).position() < final(self).toks().len(),
    {
        let t = self.current().copy();
        match t.kind {
            TokenKind::Literal(Literal::Identifier(s)) => {
                let span = Span::union_span(t.span, t.span);
                let _ = self.advance();
                Ok(AstIdentifier { span, name: s })
            },
            _ => Err(self.error_here(Expected::Identifier)),
        }
    }

    /// A type.
    pub fn parse_type(&mut self) -> (r: ParseResult<AstType>)
        requires
            old(self).wf(),
        ensures
            final(self).toks() == old(self).toks(),
            final(self).source() == old(self).source(),
            (type_result(r), final(self).position()) == type_spec(old(self).toks(), old(self).source(), old(self).position()),
            r is Ok ==> old(self).position() < final(self).position() < final(self).toks().len(),
        decreases old(self).toks().len() - old(self).position(), 1int,
    {
        let start = self.current().span();
        let kind = self.current().kind();
        match kind {
            TokenKind::I64Ty => {
                let _ = self.advance();
                Ok(AstType::Integer(Span::union_span(start, self.current().span())))
            },
            TokenKind::F64Ty => {
                let _ = self.advance();
                Ok(AstType::Float(Span::union_span(start, self.current().span())))
            },
            TokenKind::U64Ty => {
                let _ = self.advance();
                Ok(AstType::UnsignedIntegerer(Span::union_span(start, self.current().span())))
            },
            TokenKind::BoolTy => {
                let _ = self.advance();
                Ok(AstType::Boolean(Span::union_span(start, self.current().span())))
            },
            TokenKind::StrTy => {
                let _ = self.advance();
                Ok(AstType::String(Span::union_span(start, self.current().span())))
            },
            TokenKind::UnitTy => {
                let _ = self.advance();
                Ok(AstType::Unit(Span::union_span(start, self.current().span())))
            },
            TokenKind::Ampersand => {
                let _ = self.advance();
                let ty = self.parse_type()?;
                let span = Span::union_span(start, ty.span());
                Ok(AstType::Pointer { span, inner: Box::new(ty) })
            },
            TokenKind::Literal(Literal::Identifier(_)) => {
                let name = self.parse_identifier()?;
                Ok(AstType::Named { span: Span::union_span(start, self.current().span()), name: Box::new(name) })
            },
            TokenKind::LParen => {
                let _ = self.advance();
                let empty: Vec<AstType> = Vec::new();
                assert(models(empty@) =~= Seq::<TypeModel>::empty());
                let types = self.parse_type_list(empty)?;
                self.expect(TokenKind::RParen)?;
                self.expect(TokenKind::RArrow)?;
                let ret = self.parse_type()?;
                let span = Span::union_span(start, self.current().span());
                proof {
                    lemma_types_model(types@, types@.len() as int);
                    assert(types@.take(types@.len() as int) =~= types@);
                }
                Ok(AstType::Function { span, args: types, ret: Box::new(ret) })
            },
            _ => Err(self.error_here(Expected::Type)),
        }
    }

    /// Types up to a `)`, each followed by an optional `,`, after `acc`.
    fn parse_type_list(&mut self, acc: Vec<AstType>) -> (r: ParseResult<Vec<AstType>>)
        requires
            old(self).wf(),
        ensures
            final(self).toks() == old(self).toks(),
            final(self).source() == old(self).source(),
            (types_result(r), final(self).position())
                == type_list_spec(old(self).toks(), old(self).source(), old(self).position(), models(acc@)),
            r is Ok ==> old(self).position() <= final(self).position() < final(self).toks().len(),
        decreases old(self).toks().len() - old(self).position(), 2int,
    {
        if let TokenKind::RParen = self.current().kind {
            return Ok(acc);
        }
        let ty = self.parse_type()?;
        let mut acc = acc;
        let ghost before = acc@;
        acc.push(ty);
        assert(models(acc@) =~= models(before).push(ty@));
        if let TokenKind::Comma = self.current().kind {
            let _ = self.advance();
        }
        self.parse_type_list(acc)
    }

    /// A primary expression: a literal.
    pub fn parse_primary(&mut self) -> (r: ParseResult<AstExpr>)
        requires
            old(self).wf(),
        ensures
            final(self).toks() == old(self).toks(),
            final(self).source() == old(self).source(),
            (r, final(self).position()) == primary_spec(old(self).toks(), old(self).source(), old(self).position()),
            r is Ok ==> old(self).position() < final(self).position() < final(self).toks().len(),
    {
        let tok = self.current().copy();
        let span = tok.span;
        let node = match tok.kind {
            TokenKind::Literal(Literal::Bool(b)) => AstExpr::Literal(AstLiteral::Boolean { span, value: b }),
            TokenKind::Literal(Literal::Float(f)) => AstExpr::Literal(AstLiteral::Float { span, value: f }),
            TokenKind::Literal(Literal::F64(f)) => AstExpr::Literal(AstLiteral::Float { span, value: f }),
            TokenKind::Literal(Literal::U64(u)) => AstExpr::Literal(AstLiteral::UnsignedIntegerer { span, value: u }),
            TokenKind::Literal(Literal::Int(i)) => AstExpr::Literal(AstLiteral::Integer { span, value: i }),
            TokenKind::Literal(Literal::I64(i)) => AstExpr::Literal(AstLiteral::Integer { span, value: i }),
            TokenKind::Literal(Literal::StringLiteral(s)) => AstExpr::Literal(AstLiteral::String { span, value: s }),
            TokenKind::KwTrue => AstExpr::Literal(AstLiteral::Boolean { span, value: true }),
            TokenKind::KwFalse => AstExpr::Literal(AstLiteral::Boolean { span, value: false }),
            _ => return Err(self.error_here(Expected::PrimaryExpression)),
        };
        let _ = self.advance();
        Ok(node)
    }

    /// A unary expression.
    pub fn parse_unary(&mut self) -> (r: ParseResult<AstUnaryOpExpr>)
        requires
            old(self).wf(),
        ensures
            final(self).toks() == old(self).toks(),
            final(self).source() == old(self).source(),
            (r, final(self).position()) == unary_spec(old(self).toks(), old(self).source(), old(self).position()),
            r is Ok ==> old(self).position() < final(self).position() < final(self).toks().len(),
    {
        let start_pos = self.current().span();
        let op = match self.current().kind {
            TokenKind::OpSub => {
                let _ = self.advance();
                Some(AstUnaryOp::Neg)
            },
            TokenKind::Bang => {
                let _ = self.advance();
                Some(AstUnaryOp::Not)
            },
            _ => None,
        };
        let expr = self.parse_primary()?;
        Ok(AstUnaryOpExpr { span: Span::union_span(start_pos, self.current().span()), op, expr: Box::new(expr) })
    }

    /// The comparison operator of the token at the position, if it is one.
    fn comparison(&self) -> (r: Option<AstBinaryOp>)
        requires
            self.wf(),
        ensures
            r == comparison_op(cur(self.toks(), self.position()).kind),
    {
        match self.current().kind {
            TokenKind::OpEq => Some(AstBinaryOp::Eq),
            TokenKind::OpNEq => Some(AstBinaryOp::NEq),
            TokenKind::OpGreaterThan => Some(AstBinaryOp::Gt),
            TokenKind::OpGreaterThanEq => Some(AstBinaryOp::Gte),
            TokenKind::OpLessThan => Some(AstBinaryOp::Lt),
            TokenKind::OpLessThanEq => Some(AstBinaryOp::Lte),
            _ => None,
        }
    }

    /// A comparison.
    pub fn parse_condition(&mut self) -> (r: ParseResult<AstExpr>)
        requires
            old(self).wf(),
        ensures
            final(self).toks() == old(self).toks(),
            final(self).source() == old(self).source(),
            (r, final(self).position()) == condition_spec(old(self).toks(), old(self).source(), old(self).position()),
            r is Ok ==> old(self).position() < final(self).position() < final(self).toks().len(),
        decreases old(self).toks().len() - old(self).position(),
    {
        let left = AstExpr::UnaryOp(self.parse_unary()?);
        match self.comparison() {
            None => Ok(left),
            Some(op) => {
                let _ = self.advance();
                let right = self.parse_condition()?;
                let span = Span::union_span(left.span(), right.span());
                Ok(AstExpr::BinaryOp(AstBinaryOpExpr { span, op, lhs: Box::new(left), rhs: Box::new(right) }))
            },
        }
    }

    /// A product.
    pub fn parse_factor(&mut self) -> (r: ParseResult<AstExpr>)
        requires
            old(self).wf(),
        ensures
            final(self).toks() == old(self).toks(),
            final(self).source() == old(self).source(),
            (r, final(self).position()) == factor_spec(old(self).toks(), old(self).source(), old(self).position()),
            r is Ok ==> old(self).position() < final(self).position() < final(self).toks().len(),
        decreases old(self).toks().len() - old(self).position(),
    {
        let left = self.parse_condition()?;
        let op = match self.current().kind {
            TokenKind::OpMul => AstBinaryOp::Mul,
            TokenKind::OpDiv => AstBinaryOp::Div,
            TokenKind::OpMod => AstBinaryOp::Mod,
            _ => return Ok(left),
        };
        let _ = self.advance();
        let right = self.parse_factor()?;
        let span = Span::union_span(left.span(), right.span());
        Ok(AstExpr::BinaryOp(AstBinaryOpExpr { span, op, lhs: Box::new(left), rhs: Box::new(right) }))
    }

    /// A sum.
    pub fn parse_binary(&mut self) -> (r: ParseResult<AstExpr>)
        requires
            old(self).wf(),
        ensures
            final(self).toks() == old(self).toks(),
            final(self).source() == old(self).source(),
            (r, final(self).position()) == binary_spec(old(self).toks(), old(self).source(), old(self).position()),
            r is Ok ==> old(self).position() < final(self).position() < final(self).toks().len(),
        decreases old(self).toks().len() - old(self).position(),
    {
        let left = self.parse_factor()?;
        let op = match self.current().kind {
            TokenKind::OpAdd => AstBinaryOp::Add,
            TokenKind::OpSub => AstBinaryOp::Sub,
            _ => return Ok(left),
        };
        let _ = self.advance();
        let right = self.parse_binary()?;
        let span = Span::union_span(left.span(), right.span());
        Ok(AstExpr::BinaryOp(AstBinaryOpExpr { span, op, lhs: Box::new(left), rhs: Box::new(right) }))
    }
}


/// Items parsed so far, as plain values.
pub open spec fn let_result(r: ParseResult<AstLetExpr>) -> ParseResult<LetModel> {
    match r {
        Ok(l) => Ok(l@),
        Err(e) => Err(e),
    }
}

impl Parser {
    /// Whether the token at the position is not the end of input.
    pub open spec fn before_end(&self) -> bool {
        !(self.toks()[self.position()].kind is EoI)
    }

    /// `let name: type = expression`, the keyword at the position.
    pub fn parse_let(&mut self) -> (r: ParseResult<AstLetExpr>)
        requires
            old(self).wf(),
            old(self).before_end(),
        ensures
            final(self).toks() == old(self).toks(),
            final(self).source() == old(self).source(),
            (let_result(r), final(self).position()) == let_spec(old(self).toks(), old(self).source(), old(self).position()),
            r is Ok ==> old(self).position() < final(self).position() < final(self).toks().len(),
    {
        let _ = self.advance();
        let name = self.parse_identifier()?;
        self.expect(TokenKind::Colon)?;
        let ty = self.parse_type()?;
        self.expect(TokenKind::OpAssign)?;
        let value = self.parse_binary()?;
        let span = Span::union_span(name.span, value.span());
        Ok(AstLetExpr { span, name: Box::new(name), ty: Some(Box::new(ty)), value: Box::new(value) })
    }

    /// `extern name(types) -> type`, the keyword at the position.
    pub fn parse_extern_function(&mut self) -> (r: ParseResult<AstExternFunction>)
        requires
            old(self).wf(),
            old(self).before_end(),
        ensures
            final(self).toks() == old(self).toks(),
            final(self).source() == old(self).source(),
            (match r {
                Ok(x) => Ok::<super::ast::ExternModel, ParseError>(x@),
                Err(e) => Err(e),
            }, final(self).position()) == extern_spec(old(self).toks(), old(self).source(), old(self).position()),
            r is Ok ==> old(self).position() < final(self).position() < final(self).toks().len(),
    {
        let _ = self.advance();
        let name = self.parse_identifier()?;
        self.expect(TokenKind::LParen)?;
        let empty: Vec<AstType> = Vec::new();
        assert(models(empty@) =~= Seq::<TypeModel>::empty());
        let params = self.parse_type_list(empty)?;
        self.expect(TokenKind::RParen)?;
        let _ = self.expect(TokenKind::RArrow)?;
        let ret_ty = self.parse_type()?;
        let span = Span::union_span(name.span, ret_ty.span());
        Ok(AstExternFunction { span, name: Box::new(name), args: params, ret: Box::new(ret_ty) })
    }

    /// `include "path"` or `include "path" as alias`, the keyword at the position.
    pub fn parse_include(&mut self) -> (r: ParseResult<AstInclude>)
        requires
            old(self).wf(),
            old(self).before_end(),
        ensures
            final(self).toks() == old(self).toks(),
            final(self).source() == old(self).source(),
            (r, final(self).position()) == include_spec(old(self).toks(), old(self).source(), old(self).position()),
            r is Ok ==> old(self).position() < final(self).position() < final(self).toks().len(),
    {
        let start = self.advance();
        let path = match self.current().kind() {
            TokenKind::Literal(Literal::StringLiteral(s)) => s,
            _ => return Err(self.error_here(Expected::StringLiteral)),
        };
        let _ = self.advance();
        if let TokenKind::KwAs = self.current().kind {
            let _ = self.advance();
            let alias = self.parse_identifier()?;
            Ok(AstInclude { span: Span::union_span(start.span(), alias.span), path, alias: Some(Box::new(alias)) })
        } else {
            Ok(AstInclude { span: Span::union_span(start.span(), start.span()), path, alias: None })
        }
    }

    /// A field of a structure: `name: type`.
    pub fn parse_obj_field(&mut self) -> (r: ParseResult<AstObjField>)
        requires
            old(self).wf(),
        ensures
            final(self).toks() == old(self).toks(),
            final(self).source() == old(self).source(),
            (match r {
                Ok(f) => Ok::<FieldModel, ParseError>(f@),
                Err(e) => Err(e),
            }, final(self).position()) == field_spec(old(self).toks(), old(self).source(), old(self).position()),
            r is Ok ==> old(self).position() < final(self).position() < final(self).toks().len(),
    {
        let name = self.parse_identifier()?;
        self.expect(TokenKind::Colon)?;
        let ty = self.parse_type()?;
        let span = Span::union_span(name.span, ty.span());
        Ok(AstObjField { span, name: Box::new(name), ty: Box::new(ty) })
    }

    /// Fields up to a `)`, each followed by an optional `,`, after `acc`.
    fn parse_field_list(&mut self, acc: Vec<AstObjField>) -> (r: ParseResult<Vec<AstObjField>>)
        requires
            old(self).wf(),
        ensures
            final(self).toks() == old(self).toks(),
            final(self).source() == old(self).source(),
            (fields_result(r), final(self).position())
                == field_list_spec(old(self).toks(), old(self).source(), old(self).position(), acc@.map_values(|f: AstObjField| f@)),
            r is Ok ==> old(self).position() <= final(self).position() < final(self).toks().len(),
        decreases old(self).toks().len() - old(self).position(),
    {
        if let TokenKind::RParen = self.current().kind {
            return Ok(acc);
        }
        let field = self.parse_obj_field()?;
        let mut acc = acc;
        let ghost before = acc@;
        acc.push(field);
        assert(acc@.map_values(|f: AstObjField| f@) =~= before.map_values(|f: AstObjField| f@).push(field@));
        if let TokenKind::Comma = self.current().kind {
            let _ = self.advance();
        }
        self.parse_field_list(acc)
    }

    /// `struct Name(fields)`, the keyword at the position.
    pub fn parse_struct(&mut self) -> (r: ParseResult<AstStruct>)
        requires
            old(self).wf(),
            old(self).before_end(),
        ensures
            final(self).toks() == old(self).toks(),
            final(self).source() == old(self).source(),
            (match r {
                Ok(x) => Ok::<super::ast::StructModel, ParseError>(x@),
                Err(e) => Err(e),
            }, final(self).position()) == struct_spec(old(self).toks(), old(self).source(), old(self).position()),
            r is Ok ==> old(self).position() < final(self).position() < final(self).toks().len(),
    {
        let _ = self.advance();
        let ident = self.parse_identifier()?;
        self.expect(TokenKind::LParen)?;
        let empty: Vec<AstObjField> = Vec::new();
        assert(empty@.map_values(|f: AstObjField| f@) =~= Seq::<FieldModel>::empty());
        let fields = self.parse_field_list(empty)?;
        self.expect(TokenKind::RParen)?;
        let span = Span::union_span(ident.span, self.current().span());
        Ok(AstStruct { span, name: Box::new(ident), fields })
    }

    /// Expressions up to a `}`, each followed by an optional `;`, after `acc`.
    fn parse_expr_list(&mut self, acc: Vec<AstExpr>) -> (r: ParseResult<Vec<AstExpr>>)
        requires
            old(self).wf(),
        ensures
            final(self).toks() == old(self).toks(),
            final(self).source() == old(self).source(),
            (match r {
                Ok(v) => Ok::<Seq<AstExpr>, ParseError>(v@),
                Err(e) => Err(e),
            }, final(self).position()) == expr_list_spec(old(self).toks(), old(self).source(), old(self).position(), acc@),
            r is Ok ==> old(self).position() <= final(self).position() < final(self).toks().len(),
        decreases old(self).toks().len() - old(self).position(),
    {
        if let TokenKind::RBrace = self.current().kind {
            return Ok(acc);
        }
        let e = self.parse_binary()?;
        let mut acc = acc;
        acc.push(e);
        if let TokenKind::Semicolon = self.current().kind {
            let _ = self.advance();
        }
        self.parse_expr_list(acc)
    }

    /// A function's body: `{`, expressions, `}`; the body and the closing brace.
    fn parse_body(&mut self) -> (r: ParseResult<(Vec<AstExpr>, Token)>)
        requires
            old(self).wf(),
        ensures
            final(self).toks() == old(self).toks(),
            final(self).source() == old(self).source(),
            (match r {
                Ok((v, t)) => Ok::<(Seq<AstExpr>, Token), ParseError>((v@, t)),
                Err(e) => Err(e),
            }, final(self).position()) == body_spec(old(self).toks(), old(self).source(), old(self).position()),
            r is Ok ==> old(self).position() < final(self).position() < final(self).toks().len(),
    {
        self.expect(TokenKind::LBrace)?;
        let body = self.parse_expr_list(Vec::new())?;
        let close = self.expect(TokenKind::RBrace)?;
        Ok((body, close))
    }

    /// `func name(fields) -> type { body }`, the keyword at the position.
    pub fn parse_func(&mut self) -> (r: ParseResult<AstFunction>)
        requires
            old(self).wf(),
            old(self).before_end(),
        ensures
            final(self).toks() == old(self).toks(),
            final(self).source() == old(self).source(),
            (match r {
                Ok(f) => Ok::<FuncModel, ParseError>(f@),
                Err(e) => Err(e),
            }, final(self).position()) == func_spec(old(self).toks(), old(self).source(), old(self).position()),
            r is Ok ==> old(self).position() < final(self).position() < final(self).toks().len(),
    {
        let _ = self.advance();
        let name = self.parse_identifier()?;
        self.expect(TokenKind::LParen)?;
        let empty: Vec<AstObjField> = Vec::new();
        assert(empty@.map_values(|f: AstObjField| f@) =~= Seq::<FieldModel>::empty());
        let args = self.parse_field_list(empty)?;
        self.expect(TokenKind::RParen)?;
        self.expect(TokenKind::RArrow)?;
        let ret = self.parse_type()?;
        let (body, close) = self.parse_body()?;
        let span = Span::union_span(name.span, close.span());
        Ok(AstFunction { span, name: Box::new(name), args, ret: Box::new(ret), body })
    }

    /// An item.
    pub fn parse_item(&mut self) -> (r: ParseResult<AstItem>)
        requires
            old(self).wf(),
        ensures
            final(self).toks() == old(self).toks(),
            final(self).source() == old(self).source(),
            (match r {
                Ok(i) => Ok::<ItemModel, ParseError>(i@),
                Err(e) => Err(e),
            }, final(self).position()) == item_spec(old(self).toks(), old(self).source(), old(self).position()),
            r is Ok ==> old(self).position() < final(self).position() < final(self).toks().len(),
    {
        match self.current().kind {
            TokenKind::KwStruct => Ok(AstItem::Struct(self.parse_struct()?)),
            TokenKind::KwInclude => Ok(AstItem::Include(self.parse_include()?)),
            TokenKind::KwExtern => Ok(AstItem::ExternFunction(self.parse_extern_function()?)),
            TokenKind::KwFunc => Ok(AstItem::Func(self.parse_func()?)),
            _ => Err(self.error_here(Expected::Item)),
        }
    }

    /// Items up to the end of input, after `acc`.
    fn parse_items(&mut self, acc: Vec<AstItem>) -> (r: ParseResult<Vec<AstItem>>)
        requires
            old(self).wf(),
        ensures
            final(self).toks() == old(self).toks(),
            final(self).source() == old(self).source(),
            (items_result(r), final(self).position())
                == items_spec(old(self).toks(), old(self).source(), old(self).position(), acc@.map_values(|i: AstItem| i@)),
        decreases old(self).toks().len() - old(self).position(),
    {
        if let TokenKind::EoI = self.current().kind {
            return Ok(acc);
        }
        let item = self.parse_item()?;
        let mut acc = acc;
        let ghost before = acc@;
        acc.push(item);
        assert(acc@.map_values(|i: AstItem| i@) =~= before.map_values(|i: AstItem| i@).push(item@));
        self.parse_items(acc)
    }

    /// A program: the first token (the start of input) is skipped, then items
    /// are read up to the end of input.
    pub fn parse(&mut self) -> (r: ParseResult<AstProgram>)
        requires
            old(self).wf(),
            old(self).position() + 1 < old(self).toks().len(),
        ensures
            final(self).toks() == old(self).toks(),
            final(self).source() == old(self).source(),
            (match r {
                Ok(p) => Ok::<Seq<ItemModel>, ParseError>(p@),
                Err(e) => Err(e),
            }, final(self).position()) == program_spec(old(self).toks(), old(self).source(), old(self).position()),
    {
        let _ = self.advance();
        let empty: Vec<AstItem> = Vec::new();
        assert(empty@.map_values(|i: AstItem| i@) =~= Seq::<ItemModel>::empty());
        let items = self.parse_items(empty)?;
        Ok(AstProgram { items })
    }
}

} // verus!
