use lox::lex::{Error, ErrorKind, Lexer};
use lox::span::Span;
use lox::token::{escape_string, LiteralValue, Number, Token, TokenKind};
use lox::LoxError;

fn scan(source: &str) -> Vec<Result<Token, Error>> {
    let lexer = Lexer::new(source);
    let mut stream = lexer.scan_tokens();
    let mut out = Vec::new();
    while let Some(item) = stream.next() {
        out.push(item);
    }
    out
}

fn kinds(source: &str) -> Vec<TokenKind> {
    scan(source)
        .into_iter()
        .map(|r| r.expect("no lexical error").kind)
        .collect()
}

#[test]
fn test() -> Result<(), LoxError> {
    let source = r#"
            (2 + 3) != "foo" + bar
        "#;

    let _lexer = Lexer::new(source);

    Ok(())
}

#[test]
fn scans_operators_literals_and_identifiers() {
    let source = r#"(2 + 3) != "foo" + bar"#;
    assert_eq!(
        kinds(source),
        vec![
            TokenKind::LEFT_PAREN,
            TokenKind::NUMBER,
            TokenKind::PLUS,
            TokenKind::NUMBER,
            TokenKind::RIGHT_PAREN,
            TokenKind::BANG_EQUAL,
            TokenKind::STRING,
            TokenKind::PLUS,
            TokenKind::IDENTIFIER,
        ]
    );
    let tokens = scan(source);
    let foo = tokens[6].as_ref().unwrap();
    assert_eq!(foo.literal, Some(LiteralValue::String("foo".to_string())));
    assert_eq!(foo.lexeme, "\"foo\"");
    let bang_equal = tokens[5].as_ref().unwrap();
    assert_eq!(bang_equal.lexeme, "!=");
}

#[test]
fn two_character_operators_and_keywords() {
    assert_eq!(
        kinds("<= >= == = < > ! and class nil true false while _x9"),
        vec![
            TokenKind::LESS_EQUAL,
            TokenKind::GREATER_EQUAL,
            TokenKind::EQUAL_EQUAL,
            TokenKind::EQUAL,
            TokenKind::LESS,
            TokenKind::GREATER,
            TokenKind::BANG,
            TokenKind::AND,
            TokenKind::CLASS,
            TokenKind::NIL,
            TokenKind::TRUE,
            TokenKind::FALSE,
            TokenKind::WHILE,
            TokenKind::IDENTIFIER,
        ]
    );
}

#[test]
fn blank_and_comment_only_input_yields_no_tokens() {
    assert!(scan("").is_empty());
    assert!(scan("   \t\r\n\n  ").is_empty());
    assert!(scan("// just a comment").is_empty());
    assert!(scan("  // one\n\t// two\n   ").is_empty());
}

#[test]
fn numerals_parse_to_the_float_of_their_text() {
    for (text, expected) in [
        ("123", 123.0f64),
        ("45.67", 45.67f64),
        ("0.5", 0.5f64),
        ("007", 7.0f64),
        ("3.14159", 3.14159f64),
    ] {
        let tokens = scan(text);
        assert_eq!(tokens.len(), 1);
        let token = tokens[0].as_ref().unwrap();
        assert_eq!(token.kind, TokenKind::NUMBER);
        assert_eq!(token.lexeme, text);
        match &token.literal {
            Some(LiteralValue::Number(Number::Numeral(t))) => {
                assert_eq!(t, text);
                assert_eq!(t.parse::<f64>().unwrap(), expected);
            }
            other => panic!("unexpected payload {:?}", other),
        }
    }
}

#[test]
fn trailing_point_is_not_part_of_a_number() {
    assert_eq!(kinds("1."), vec![TokenKind::NUMBER, TokenKind::DOT]);
    let tokens = scan("1.x");
    assert_eq!(tokens[0].as_ref().unwrap().lexeme, "1");
    assert_eq!(tokens[1].as_ref().unwrap().kind, TokenKind::DOT);
    assert_eq!(tokens[2].as_ref().unwrap().kind, TokenKind::IDENTIFIER);
}

#[test]
fn unterminated_string_carries_escaped_content() {
    let tokens = scan("\"abc");
    assert_eq!(tokens.len(), 1);
    match &tokens[0] {
        Err(e) => assert_eq!(e.kind, ErrorKind::UnterminatedString("\"abc\"".to_string())),
        Ok(t) => panic!("expected an error, got {:?}", t),
    }
}

#[test]
fn unmatched_character_is_skipped_and_scanning_continues() {
    let tokens = scan("1 @ 2");
    assert_eq!(tokens.len(), 3);
    match &tokens[1] {
        Err(e) => {
            assert_eq!(e.kind, ErrorKind::UnmatchedCharacter('@'));
            assert_eq!(e.describe(), "Unmatched character: `@`. Occurred at 1:2");
        }
        Ok(t) => panic!("expected an error, got {:?}", t),
    }
    assert_eq!(tokens[2].as_ref().unwrap().kind, TokenKind::NUMBER);
}

#[test]
fn escapes_in_strings() {
    let tokens = scan(r#""a\nb\t\"c\\" "x\qy""#);
    assert_eq!(
        tokens[0].as_ref().unwrap().literal,
        Some(LiteralValue::String("a\nb\t\"c\\".to_string()))
    );
    assert_eq!(
        tokens[1].as_ref().unwrap().literal,
        Some(LiteralValue::String("x\\qy".to_string()))
    );
}

#[test]
fn spans_follow_lines_and_columns() {
    let tokens = scan("ab + c\n  12");
    let spans: Vec<String> = tokens
        .iter()
        .map(|t| t.as_ref().unwrap().span.render())
        .collect();
    assert_eq!(spans, vec!["1:0-1", "1:3", "1:5", "2:2-3"]);
    let multi = scan("\"a\nb\"");
    assert_eq!(multi[0].as_ref().unwrap().span.render(), "1-2:0-1");
}

#[test]
fn span_operations() {
    let mut span = Span::new();
    assert_eq!((span.start_line, span.end_line, span.start_character, span.end_character), (1, 1, 0, 0));
    span.advance();
    assert_eq!(span.render(), "1:0");
    span.advance();
    assert_eq!(span.render(), "1:0-1");
    span.reset();
    assert_eq!((span.start_character, span.end_character), (2, 2));
    span.newline();
    assert_eq!((span.end_line, span.start_character, span.end_character), (2, 0, 0));
    assert_eq!(span.render(), "1-2:0-0");
}

#[test]
fn keywords_are_looked_up() {
    assert_eq!(TokenKind::is_keyword("while"), Some(TokenKind::WHILE));
    assert_eq!(TokenKind::is_keyword("print"), Some(TokenKind::PRINT));
    assert_eq!(TokenKind::is_keyword("whilst"), None);
    assert_eq!(TokenKind::is_keyword(""), None);
}

#[test]
fn escape_string_quotes_and_escapes() {
    assert_eq!(escape_string("abc"), "\"abc\"");
    assert_eq!(escape_string("a\"b\\c\nd"), "\"a\\\"b\\\\c\\nd\"");
    assert_eq!(escape_string(""), "\"\"");
}

#[test]
fn tokens_render_with_span_kind_and_payload() {
    let tokens = scan("\"hi\" +");
    assert_eq!(tokens[0].as_ref().unwrap().render(), "[1:0-3] string: \"hi\"");
    assert_eq!(tokens[1].as_ref().unwrap().render(), "[1:5] +");
}

#[test]
fn advance_to_parsing_separates_errors() {
    let lexer = Lexer::new("1 # + $ 2");
    let (mut parser, errors) = lexer.advance_to_parsing();
    assert_eq!(errors.len(), 2);
    assert_eq!(errors[0].kind, ErrorKind::UnmatchedCharacter('#'));
    assert_eq!(errors[1].kind, ErrorKind::UnmatchedCharacter('$'));
    assert!(parser.parse().is_ok());
}

#[test]
fn invalid_escapes_are_reported_and_kept() {
    let lexer = Lexer::new(r#""x\qy" + "\z""#);
    let mut stream = lexer.scan_tokens();
    let first = stream.next().unwrap().unwrap();
    assert_eq!(first.literal, Some(LiteralValue::String("x\\qy".to_string())));
    let reported = stream.take_diagnostics();
    assert_eq!(reported.len(), 1);
    assert_eq!(reported[0].kind, ErrorKind::InvalidEscape(Some('q')));
    assert_eq!(reported[0].describe(), "Invalid Escape character: `q`. Occurred at 1:0-5");
    assert!(stream.take_diagnostics().is_empty());

    let (_, errors) = Lexer::new(r#""x\qy" + "\z""#).advance_to_parsing();
    let kinds: Vec<ErrorKind> = errors.into_iter().map(|e| e.kind).collect();
    assert_eq!(kinds, vec![ErrorKind::InvalidEscape(Some('q')), ErrorKind::InvalidEscape(Some('z'))]);
}

#[test]
fn backslash_at_the_end_of_the_source_is_reported() {
    let (_, errors) = Lexer::new("\"ab\\").advance_to_parsing();
    let kinds: Vec<ErrorKind> = errors.iter().map(|e| e.kind.clone()).collect();
    assert_eq!(
        kinds,
        vec![
            ErrorKind::InvalidEscape(None),
            ErrorKind::UnterminatedString("\"ab\\\\\"".to_string()),
        ]
    );
    assert_eq!(errors[0].describe(), "Invalid Escape at the end of the source. Occurred at 1:0-3");
}
