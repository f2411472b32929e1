use lox::ast::{Binary, Expr, ExprStmt, Grouping, PrintStmt, Stmt, Unary};
use lox::lex::Lexer;
use lox::parse::{Error, ErrorKind};
use lox::printer::{DebugPrinter, RpnPrinter};
use lox::span::Span;
use lox::token::{LiteralValue, Number, Token, TokenKind};

fn parse(source: &str) -> Result<Expr, Error> {
    let lexer = Lexer::new(source);
    let (mut parser, errors) = lexer.advance_to_parsing();
    assert!(errors.is_empty());
    parser.parse()
}

fn operator(kind: TokenKind, lexeme: &str) -> Token {
    Token { kind, literal: None, lexeme: lexeme.to_string(), span: Span::new() }
}

fn num(x: f64) -> Box<Expr> {
    Box::new(Expr::Literal(LiteralValue::Number(Number::Value {
        bits: x.to_bits(),
        text: format!("{}", x),
    })))
}

#[test]
fn test_parser() {
    let source = r#"
            2 + (3 - 4) * 9 != "foo"
        "#;
    let expr = parse(source).expect("Error while parsing!");
    assert_eq!(
        r#"(!= (+ 2 (* (group (- 3 4)) 9)) "foo")"#.to_string(),
        DebugPrinter::print(&expr)
    );
}

#[test]
fn parser_test_pretty_print() {
    let source = r#"
            2 + (3 - 4) * 9 != "foo"
        "#;
    let expr = parse(source).expect("Error while parsing!");
    assert_eq!(
        "(!= (+ 2 (* (group (- 3 4)) 9)) \"foo\")".to_string(),
        DebugPrinter::print(&expr)
    );
}

#[test]
fn postfix_form_of_a_parsed_expression() {
    let expr = parse(r#"2 + (3 - 4) * 9 != "foo""#).unwrap();
    assert_eq!(RpnPrinter::print(&expr), "2 3 4 - 9 * + \"foo\" !=");
}

#[test]
fn printer_test_pretty_print() {
    let expression = Expr::Binary(Binary {
        left: Box::new(Expr::Unary(Unary {
            operator: operator(TokenKind::MINUS, "-"),
            right: num(123.0),
        })),
        operator: operator(TokenKind::STAR, "*"),
        right: Box::new(Expr::Grouping(Grouping(num(45.67)))),
    });
    assert_eq!("(* (- 123) (group 45.67))", DebugPrinter::print(&expression));
}

#[test]
fn test_polish_print() {
    let expression = Expr::Binary(Binary {
        left: Box::new(Expr::Binary(Binary {
            left: num(1.0),
            operator: operator(TokenKind::PLUS, "+"),
            right: num(2.0),
        })),
        operator: operator(TokenKind::STAR, "*"),
        right: Box::new(Expr::Binary(Binary {
            left: num(4.0),
            operator: operator(TokenKind::MINUS, "-"),
            right: num(3.0),
        })),
    });
    assert_eq!("(* (+ 1 2) (- 4 3))", DebugPrinter::print(&expression));
    assert_eq!("1 2 + 4 3 - *", RpnPrinter::print(&expression));
}

#[test]
fn same_level_operators_group_to_the_left() {
    assert_eq!(DebugPrinter::print(&parse("1 - 2 - 3").unwrap()), "(- (- 1 2) 3)");
    assert_eq!(DebugPrinter::print(&parse("8 / 4 * 2").unwrap()), "(* (/ 8 4) 2)");
    assert_eq!(DebugPrinter::print(&parse("1 < 2 == true").unwrap()), "(== (< 1 2) true)");
    assert_eq!(DebugPrinter::print(&parse("3 > 2").unwrap()), "(> 3 2)");
}

#[test]
fn unary_and_primary_forms() {
    assert_eq!(DebugPrinter::print(&parse("!-nil").unwrap()), "(! (- nil))");
    assert_eq!(DebugPrinter::print(&parse("(false)").unwrap()), "(group false)");
}

#[test]
fn unclosed_group_at_end_is_unexpected_eof() {
    let err = parse("(1 + 2").unwrap_err();
    assert_eq!(err.kind, ErrorKind::UnexpectedEOF);
    assert!(err.token.is_none());
}

#[test]
fn unclosed_group_with_tokens_left() {
    let err = parse("(1 + 2 3").unwrap_err();
    assert_eq!(err.kind, ErrorKind::UnclosedParentheses);
    assert_eq!(err.token.unwrap().kind, TokenKind::NUMBER);
}

#[test]
fn invalid_and_missing_operands() {
    let err = parse("+ 1").unwrap_err();
    assert_eq!(err.kind, ErrorKind::InvalidExpression);
    assert_eq!(err.token.as_ref().unwrap().kind, TokenKind::PLUS);
    assert_eq!(err.describe(), "Invalid expression. Occurred at [1:0] +");
    assert_eq!(parse("").unwrap_err().kind, ErrorKind::UnexpectedEOF);
    assert_eq!(parse("1 +").unwrap_err().kind, ErrorKind::UnexpectedEOF);
}

#[test]
fn recovery_resumes_after_a_semicolon() {
    let lexer = Lexer::new(") ; 1 + 2");
    let (mut parser, _) = lexer.advance_to_parsing();
    let mut reported = Vec::new();
    let expr = parser.expression_wrapper(&mut reported).unwrap();
    assert_eq!(DebugPrinter::print(&expr), "(+ 1 2)");
    assert_eq!(reported.len(), 1);
    assert_eq!(reported[0].kind, ErrorKind::InvalidExpression);
}

#[test]
fn recovery_stops_before_a_statement_keyword() {
    let lexer = Lexer::new("* 2 print 7");
    let (mut parser, _) = lexer.advance_to_parsing();
    let mut reported = Vec::new();
    let err = parser.expression_wrapper(&mut reported).unwrap_err();
    assert_eq!(reported.len(), 1);
    assert_eq!(err.kind, ErrorKind::InvalidExpression);
    assert_eq!(err.token.unwrap().kind, TokenKind::PRINT);
}

#[test]
fn recovery_that_uses_up_the_tokens() {
    let lexer = Lexer::new(") 1 2");
    let (mut parser, _) = lexer.advance_to_parsing();
    let mut reported = Vec::new();
    let err = parser.expression_wrapper(&mut reported).unwrap_err();
    assert_eq!(err.kind, ErrorKind::EOFWhileSynchronizing);
    assert_eq!(err.describe(), "Encountered errors while parsing.");
    assert_eq!(reported.len(), 1);
}

#[test]
fn expression_constructors() {
    let e = Expr::binary(
        Expr::literal_bool(true),
        operator(TokenKind::PLUS, "+"),
        Expr::grouping(Expr::unary(operator(TokenKind::BANG, "!"), Expr::literal_nil())),
    );
    assert_eq!(DebugPrinter::print(&e), "(+ true (group (! nil)))");
    assert_eq!(RpnPrinter::print(&e), "true nil ! +");
}

#[test]
fn statements_in_sequence() {
    let lexer = Lexer::new("print 1 + 2 3 * 4; 5");
    let (mut parser, _) = lexer.advance_to_parsing();
    match parser.next() {
        Some(Ok(Stmt::PrintStmt(PrintStmt(e)))) => assert_eq!(DebugPrinter::print(&e), "(+ 1 2)"),
        other => panic!("unexpected {:?}", other),
    }
    match parser.next() {
        Some(Ok(Stmt::ExprStmt(ExprStmt(e)))) => assert_eq!(DebugPrinter::print(&e), "(* 3 4)"),
        other => panic!("unexpected {:?}", other),
    }
    match parser.next() {
        Some(Err(e)) => {
            assert_eq!(e.kind(), ErrorKind::MissingSemicolon);
            assert!(e.token.is_none());
        }
        other => panic!("unexpected {:?}", other),
    }
    assert!(parser.next().is_none());
}

#[test]
fn expression_statement_needs_a_semicolon() {
    let lexer = Lexer::new("1 + 2 )");
    let (mut parser, _) = lexer.advance_to_parsing();
    let err = parser.next().unwrap().unwrap_err();
    assert_eq!(err.kind, ErrorKind::MissingSemicolon);
    assert_eq!(err.token.unwrap().kind, TokenKind::RIGHT_PAREN);
}
