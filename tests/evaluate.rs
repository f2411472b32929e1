use lox::ast::{Binary, Expr};
use lox::evaluate::{
    is_truthy, Answer, ArithmeticOp, ComparisonOp, Error, ErrorKind, Evaluator, Request, Step,
};
use lox::lex::Lexer;
use lox::span::Span;
use lox::token::{LiteralValue, Number, Token, TokenKind};
use lox::LoxError;

fn to_f64(n: &Number) -> f64 {
    match n {
        Number::Numeral(text) => text.parse().unwrap(),
        Number::Value { bits, .. } => f64::from_bits(*bits),
    }
}

fn value(x: f64) -> Number {
    Number::Value { bits: x.to_bits(), text: format!("{}", x) }
}

fn host(q: &Request) -> Answer {
    match q {
        Request::Arithmetic { op, left, right } => {
            let (l, r) = (to_f64(left), to_f64(right));
            Answer::Number(value(match op {
                ArithmeticOp::Add => l + r,
                ArithmeticOp::Subtract => l - r,
                ArithmeticOp::Multiply => l * r,
                ArithmeticOp::Divide => l / r,
            }))
        }
        Request::Comparison { op, left, right } => {
            let (l, r) = (to_f64(left), to_f64(right));
            Answer::Bool(match op {
                ComparisonOp::Greater => l > r,
                ComparisonOp::GreaterEqual => l >= r,
                ComparisonOp::Less => l < r,
                ComparisonOp::LessEqual => l <= r,
                ComparisonOp::Equal => l == r,
                ComparisonOp::NotEqual => l != r,
            })
        }
        Request::Negation { operand } => Answer::Number(value(-to_f64(operand))),
        Request::RepeatCount { count } => {
            let c = to_f64(count);
            if c.fract() != 0.0 {
                Answer::Count(None)
            } else {
                Answer::Count(Some(c.trunc() as usize))
            }
        }
    }
}

fn run(source: &str) -> Result<LiteralValue, Error> {
    let lexer = Lexer::new(source);
    let (mut parser, errors) = lexer.advance_to_parsing();
    assert!(errors.is_empty());
    let expr = parser.parse().expect("parses");
    Evaluator::evaluate(expr, host)
}

fn number_of(v: LiteralValue) -> f64 {
    match v {
        LiteralValue::Number(n) => to_f64(&n),
        other => panic!("not a number: {:?}", other),
    }
}

fn operator(kind: TokenKind, lexeme: &str) -> Token {
    Token { kind, literal: None, lexeme: lexeme.to_string(), span: Span::new() }
}

fn lit(v: LiteralValue) -> Box<Expr> {
    Box::new(Expr::Literal(v))
}

#[test]
fn evaluator_evaluation_works() -> Result<(), Error> {
    let expression = Expr::Binary(Binary {
        left: Box::new(Expr::Binary(Binary {
            left: lit(LiteralValue::Number(value(1.0))),
            operator: operator(TokenKind::PLUS, "+"),
            right: lit(LiteralValue::Number(value(2.0))),
        })),
        operator: operator(TokenKind::STAR, "*"),
        right: Box::new(Expr::Binary(Binary {
            left: lit(LiteralValue::Number(value(4.0))),
            operator: operator(TokenKind::MINUS, "-"),
            right: lit(LiteralValue::Number(value(3.0))),
        })),
    });

    assert_eq!(LiteralValue::Number(value(3.)), Evaluator::evaluate(expression, host)?);
    Ok(())
}

#[test]
fn evaluator_evaluation_string_concatenation_works() -> Result<(), Error> {
    let expression = Expr::Binary(Binary {
        left: Box::new(Expr::Binary(Binary {
            left: lit(LiteralValue::String("Hello".into())),
            operator: operator(TokenKind::PLUS, "+"),
            right: lit(LiteralValue::String(" World".into())),
        })),
        operator: operator(TokenKind::PLUS, "+"),
        right: Box::new(Expr::Binary(Binary {
            left: lit(LiteralValue::String("!".into())),
            operator: operator(TokenKind::STAR, "*"),
            right: lit(LiteralValue::Number(value(3.0))),
        })),
    });

    assert_eq!(
        LiteralValue::String("Hello World!!!".into()),
        Evaluator::evaluate(expression, host)?
    );
    Ok(())
}

#[test]
fn string_repetition() {
    assert_eq!(run(r#""-" * 5"#).unwrap(), LiteralValue::String("-----".into()));
    assert_eq!(run(r#""ab" * 0"#).unwrap(), LiteralValue::String("".into()));
    let err = run(r#""-" * 2.5"#).unwrap_err();
    assert_eq!(err.kind, ErrorKind::BadStringRepCount);
    assert_eq!(err.token.kind, TokenKind::STAR);
}

#[test]
fn concatenation_and_repetition_from_source() {
    assert_eq!(
        run(r#""Hello" + " World" + "!" * 3"#).unwrap(),
        LiteralValue::String("Hello World!!!".into())
    );
}

#[test]
fn grouped_arithmetic_from_source() {
    assert_eq!(number_of(run("(1 + 2) * (4 - 3)").unwrap()), 3.0);
    assert_eq!(number_of(run("10 - 4 - 3").unwrap()), 3.0);
    assert_eq!(number_of(run("-(2.5 * 2)").unwrap()), -5.0);
}

#[test]
fn truthiness_of_negation() {
    assert_eq!(run("!nil").unwrap(), LiteralValue::Bool(true));
    assert_eq!(run("!false").unwrap(), LiteralValue::Bool(true));
    assert_eq!(run("!0").unwrap(), LiteralValue::Bool(false));
    assert_eq!(run(r#"!"""#).unwrap(), LiteralValue::Bool(false));
    assert!(!is_truthy(LiteralValue::Nil));
    assert!(is_truthy(LiteralValue::String(String::new())));
}

#[test]
fn booleans_coerce_to_numbers() {
    assert_eq!(number_of(run("true + 1").unwrap()), 2.0);
    assert_eq!(number_of(run("true + true").unwrap()), 2.0);
    assert_eq!(number_of(run("5 * false").unwrap()), 0.0);
    assert_eq!(run("true > false").unwrap(), LiteralValue::Bool(true));
}

#[test]
fn comparisons() {
    assert_eq!(run("1 < 2").unwrap(), LiteralValue::Bool(true));
    assert_eq!(run("2 >= 2").unwrap(), LiteralValue::Bool(true));
    assert_eq!(run("2 > 2").unwrap(), LiteralValue::Bool(false));
    assert_eq!(run("3 <= 2").unwrap(), LiteralValue::Bool(false));
}

#[test]
fn division_by_zero_is_infinite() {
    assert_eq!(number_of(run("1 / 0").unwrap()), f64::INFINITY);
}

#[test]
fn each_error_kind() {
    let cases = [
        ("-\"a\"", ErrorKind::BadNumericalNegation),
        ("nil + 1", ErrorKind::BadAddition),
        ("\"a\" + 1", ErrorKind::BadAddition),
        ("\"a\" - 1", ErrorKind::BadSubtraction),
        ("\"a\" * \"b\"", ErrorKind::BadMultiplication),
        ("3 * \"b\"", ErrorKind::BadMultiplication),
        ("nil / 1", ErrorKind::BadDivision),
        ("\"a\" < 1", ErrorKind::BadComparison),
    ];
    for (source, kind) in cases {
        assert_eq!(run(source).unwrap_err().kind, kind, "{}", source);
    }
}

#[test]
fn errors_describe_kind_and_operator() {
    let err = run("nil + 1").unwrap_err();
    assert_eq!(err.describe(), "Bad Addition Occurred at [1:4] +");
    let lox: LoxError = err.into();
    assert_eq!(lox.describe(), "Bad Addition Occurred at [1:4] +");
}

#[test]
fn first_failure_in_post_order_wins() {
    let err = run("(nil + 1) * (\"a\" - 1)").unwrap_err();
    assert_eq!(err.kind, ErrorKind::BadAddition);
}

#[test]
fn steps_ask_the_host_and_shrink_the_tree() {
    let lexer = Lexer::new("1 + 2 * 3");
    let (mut parser, _) = lexer.advance_to_parsing();
    let mut tree = parser.parse().unwrap();
    let mut requests = 0;
    loop {
        match Evaluator::step(&tree) {
            Step::Done(v) => {
                assert_eq!(number_of(v), 7.0);
                break;
            }
            Step::Failed(e) => panic!("{:?}", e),
            Step::Pending(q) => {
                requests += 1;
                tree = Evaluator::resume(tree, host(&q)).unwrap();
            }
        }
    }
    assert_eq!(requests, 2);
}

#[test]
fn equality_of_values() {
    assert_eq!(run("1 == 1").unwrap(), LiteralValue::Bool(true));
    assert_eq!(run("1 == 1.0").unwrap(), LiteralValue::Bool(true));
    assert_eq!(run("1 != 2").unwrap(), LiteralValue::Bool(true));
    assert_eq!(run(r#""a" == "a""#).unwrap(), LiteralValue::Bool(true));
    assert_eq!(run(r#""a" != "b""#).unwrap(), LiteralValue::Bool(true));
    assert_eq!(run("nil == nil").unwrap(), LiteralValue::Bool(true));
    assert_eq!(run("true == false").unwrap(), LiteralValue::Bool(false));
    assert_eq!(run(r#"1 == "1""#).unwrap(), LiteralValue::Bool(false));
    assert_eq!(run("nil != false").unwrap(), LiteralValue::Bool(true));
    assert_eq!(run(r#"2 + (3 - 4) * 9 != "foo""#).unwrap(), LiteralValue::Bool(true));
}

#[test]
fn operators_without_meaning_fail_at_the_operator() {
    let expression = Expr::Binary(Binary {
        left: lit(LiteralValue::Nil),
        operator: operator(TokenKind::COMMA, ","),
        right: lit(LiteralValue::Nil),
    });
    let err = Evaluator::evaluate(expression, host).unwrap_err();
    assert_eq!(err.kind, ErrorKind::UnsupportedOperator);
    assert_eq!(err.token.kind, TokenKind::COMMA);
}

#[test]
fn literal_rendering() {
    assert_eq!(LiteralValue::Bool(true).render(), "true");
    assert_eq!(LiteralValue::Nil.render(), "nil");
    assert_eq!(LiteralValue::String("a\"b".into()).render(), "\"a\\\"b\"");
    assert_eq!(LiteralValue::Number(value(2.5)).render(), "2.5");
    assert_eq!(Number::from_bool(true), value(1.0));
    assert_eq!(Number::from_bool(false), value(0.0));
}
