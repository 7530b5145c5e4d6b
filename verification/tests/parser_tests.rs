use atlas77::frontend::ast::{AstBinaryOp, AstExpr, AstItem, AstLiteral, AstType, AstUnaryOp};
use atlas77::frontend::error::{Expected, ParseError};
use atlas77::frontend::parser::Parser;
use atlas77::frontend::token::{Literal, Token, TokenKind};
use atlas77::span::Span;

/// Tokens with consecutive one-byte spans.
fn tokens(kinds: Vec<TokenKind>) -> Vec<Token> {
    let mut out = vec![Token::new(Span { start: 0, end: 0 }, TokenKind::SoI)];
    for (i, k) in kinds.into_iter().enumerate() {
        out.push(Token::new(Span { start: i + 1, end: i + 2 }, k));
    }
    let n = out.len();
    out.push(Token::new(Span { start: n, end: n }, TokenKind::EoI));
    out
}

fn ident(s: &str) -> TokenKind {
    TokenKind::Literal(Literal::Identifier(s.to_string()))
}

fn parser(kinds: Vec<TokenKind>) -> Parser {
    Parser::new(tokens(kinds), "test".to_string(), "source".to_string())
}

#[test]
fn test_parse_struct() {
    // include "foo.atlas" as foo
    // struct Foo(bar: &str, baz: f64)
    // extern print(&str) -> (i64) -> (i64, &u64) -> () -> &unit
    // func main() -> i64 {}
    let mut p = parser(vec![
        TokenKind::KwInclude,
        TokenKind::Literal(Literal::StringLiteral("foo.atlas".to_string())),
        TokenKind::KwAs,
        ident("foo"),
        TokenKind::KwStruct,
        ident("Foo"),
        TokenKind::LParen,
        ident("bar"),
        TokenKind::Colon,
        TokenKind::Ampersand,
        TokenKind::StrTy,
        TokenKind::Comma,
        ident("baz"),
        TokenKind::Colon,
        TokenKind::F64Ty,
        TokenKind::RParen,
        TokenKind::KwExtern,
        ident("print"),
        TokenKind::LParen,
        TokenKind::Ampersand,
        TokenKind::StrTy,
        TokenKind::RParen,
        TokenKind::RArrow,
        TokenKind::LParen,
        TokenKind::I64Ty,
        TokenKind::RParen,
        TokenKind::RArrow,
        TokenKind::LParen,
        TokenKind::I64Ty,
        TokenKind::Comma,
        TokenKind::Ampersand,
        TokenKind::U64Ty,
        TokenKind::RParen,
        TokenKind::RArrow,
        TokenKind::LParen,
        TokenKind::RParen,
        TokenKind::RArrow,
        TokenKind::Ampersand,
        TokenKind::UnitTy,
        TokenKind::KwFunc,
        ident("main"),
        TokenKind::LParen,
        TokenKind::RParen,
        TokenKind::RArrow,
        TokenKind::I64Ty,
        TokenKind::LBrace,
        TokenKind::RBrace,
    ]);
    let program = p.parse().unwrap();
    assert_eq!(program.items.len(), 4);
    match &program.items[0] {
        AstItem::Include(i) => {
            assert_eq!(i.path, "foo.atlas");
            assert_eq!(i.alias.as_ref().unwrap().name, "foo");
            assert_eq!(i.span, Span { start: 1, end: 5 });
        }
        _ => panic!("expected an include"),
    }
    match &program.items[1] {
        AstItem::Struct(s) => {
            assert_eq!(s.name.name, "Foo");
            assert_eq!(s.fields.len(), 2);
            assert_eq!(s.fields[0].name.name, "bar");
            assert!(matches!(s.fields[0].ty.as_ref(), AstType::Pointer { .. }));
            assert!(matches!(s.fields[1].ty.as_ref(), AstType::Float(_)));
        }
        _ => panic!("expected a struct"),
    }
    match &program.items[2] {
        AstItem::ExternFunction(e) => {
            assert_eq!(e.name.name, "print");
            assert_eq!(e.args.len(), 1);
            match e.ret.as_ref() {
                AstType::Function { args, ret, .. } => {
                    assert_eq!(args.len(), 1);
                    match ret.as_ref() {
                        AstType::Function { args, ret, .. } => {
                            assert_eq!(args.len(), 2);
                            match ret.as_ref() {
                                AstType::Function { args, ret, .. } => {
                                    assert!(args.is_empty());
                                    assert!(matches!(ret.as_ref(), AstType::Pointer { .. }));
                                }
                                _ => panic!("expected a function type"),
                            }
                        }
                        _ => panic!("expected a function type"),
                    }
                }
                _ => panic!("expected a function type"),
            }
        }
        _ => panic!("expected an extern function"),
    }
    match &program.items[3] {
        AstItem::Func(f) => {
            assert_eq!(f.name.name, "main");
            assert!(f.args.is_empty());
            assert!(matches!(f.ret.as_ref(), AstType::Integer(_)));
            assert!(f.body.is_empty());
            assert_eq!(f.span, Span { start: 41, end: 48 });
        }
        _ => panic!("expected a function"),
    }
}

#[test]
fn parses_a_function_with_parameters_and_a_body() {
    // func add(a: i64, b: i64) -> i64 { 1 + 2; 3 }
    let mut p = parser(vec![
        TokenKind::KwFunc,
        ident("add"),
        TokenKind::LParen,
        ident("a"),
        TokenKind::Colon,
        TokenKind::I64Ty,
        TokenKind::Comma,
        ident("b"),
        TokenKind::Colon,
        TokenKind::I64Ty,
        TokenKind::RParen,
        TokenKind::RArrow,
        TokenKind::I64Ty,
        TokenKind::LBrace,
        TokenKind::Literal(Literal::I64(1)),
        TokenKind::OpAdd,
        TokenKind::Literal(Literal::I64(2)),
        TokenKind::Semicolon,
        TokenKind::Literal(Literal::I64(3)),
        TokenKind::RBrace,
    ]);
    let program = p.parse().unwrap();
    assert_eq!(program.items.len(), 1);
    match &program.items[0] {
        AstItem::Func(f) => {
            assert_eq!(f.args.len(), 2);
            assert_eq!(f.args[1].name.name, "b");
            assert_eq!(f.body.len(), 2);
            assert!(matches!(f.body[0], AstExpr::BinaryOp(_)));
            match &f.body[1] {
                AstExpr::UnaryOp(u) => {
                    assert!(u.op.is_none());
                    assert!(matches!(u.expr.as_ref(), AstExpr::Literal(AstLiteral::Integer { value: 3, .. })));
                }
                _ => panic!("expected an operand"),
            }
        }
        _ => panic!("expected a function"),
    }
}

#[test]
fn a_function_without_its_closing_brace_is_an_error() {
    let mut p = parser(vec![
        TokenKind::KwFunc,
        ident("f"),
        TokenKind::LParen,
        TokenKind::RParen,
        TokenKind::RArrow,
        TokenKind::UnitTy,
        TokenKind::LBrace,
    ]);
    assert!(matches!(p.parse(), Err(ParseError::UnexpectedToken(_))));
}

#[test]
fn a_function_without_parameters_is_an_error() {
    let mut p = parser(vec![TokenKind::KwFunc, ident("main")]);
    match p.parse() {
        Err(ParseError::UnexpectedToken(e)) => assert_eq!(e.expected, Expected::Kind(TokenKind::LParen)),
        _ => panic!("expected an unexpected token"),
    }
}

#[test]
fn an_unexpected_item_is_reported() {
    let mut p = parser(vec![TokenKind::Colon]);
    match p.parse() {
        Err(ParseError::UnexpectedToken(e)) => {
            assert_eq!(e.expected, Expected::Item);
            assert_eq!(e.token.kind, TokenKind::Colon);
            assert_eq!(e.span.offset, 1);
            assert_eq!(e.span.length, 1);
            assert_eq!(e.src, "source");
        }
        _ => panic!("expected an unexpected token"),
    }
}

#[test]
fn missing_parenthesis_in_a_struct() {
    let mut p = parser(vec![TokenKind::KwStruct, ident("S"), TokenKind::Colon]);
    match p.parse() {
        Err(ParseError::UnexpectedToken(e)) => assert_eq!(e.expected, Expected::Kind(TokenKind::LParen)),
        _ => panic!("expected an unexpected token"),
    }
}

#[test]
fn expressions_group_by_precedence() {
    // 1 + 2 * 3
    let toks = tokens(vec![
        TokenKind::Literal(Literal::Int(1)),
        TokenKind::OpAdd,
        TokenKind::Literal(Literal::Int(2)),
        TokenKind::OpMul,
        TokenKind::Literal(Literal::Int(3)),
    ]);
    let mut p = Parser::new(toks[1..].to_vec(), "t".to_string(), "s".to_string());
    match p.parse_binary().unwrap() {
        AstExpr::BinaryOp(b) => {
            assert_eq!(b.op, AstBinaryOp::Add);
            assert!(matches!(b.rhs.as_ref(), AstExpr::BinaryOp(m) if m.op == AstBinaryOp::Mul));
            assert_eq!(b.span, Span { start: 1, end: 6 });
        }
        _ => panic!("expected a sum"),
    }
}

#[test]
fn unary_and_comparison() {
    let toks = tokens(vec![
        TokenKind::OpSub,
        TokenKind::Literal(Literal::I64(4)),
        TokenKind::OpLessThan,
        TokenKind::KwTrue,
    ]);
    let mut p = Parser::new(toks[1..].to_vec(), "t".to_string(), "s".to_string());
    match p.parse_condition().unwrap() {
        AstExpr::BinaryOp(b) => {
            assert_eq!(b.op, AstBinaryOp::Lt);
            match b.lhs.as_ref() {
                AstExpr::UnaryOp(u) => {
                    assert_eq!(u.op, Some(AstUnaryOp::Neg));
                    assert!(matches!(u.expr.as_ref(), AstExpr::Literal(AstLiteral::Integer { value: 4, .. })));
                }
                _ => panic!("expected a unary expression"),
            }
        }
        _ => panic!("expected a comparison"),
    }
}

#[test]
fn let_expression() {
    let toks = tokens(vec![
        ident("let"),
        ident("x"),
        TokenKind::Colon,
        TokenKind::I64Ty,
        TokenKind::OpAssign,
        TokenKind::Literal(Literal::Int(5)),
    ]);
    let mut p = Parser::new(toks[1..].to_vec(), "t".to_string(), "s".to_string());
    let l = p.parse_let().unwrap();
    assert_eq!(l.name.name, "x");
    assert!(matches!(l.ty.as_deref(), Some(AstType::Integer(_))));
}

#[test]
fn current_and_peek() {
    let p = parser(vec![TokenKind::Colon]);
    assert_eq!(p.current().kind, TokenKind::SoI);
    assert_eq!(p.peek(), Some(TokenKind::Colon));
}
