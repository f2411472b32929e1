//! The recursive-descent parser, one precedence level per function:
//! equality, comparison, term, factor, then unary and primary. Chains of
//! operators of one level group to the left: `1 - 2 - 3` is
//! `(1 - 2) - 3`.

use vstd::prelude::*;

use peekaboo::Peekable;
use std::vec::IntoIter;

use crate::ast::{Binary, ExprStmt, Expr, Grouping, PrintStmt, Stmt, Unary};
use crate::cursor::{next_token, peek_kind, token_cursor, tokens_ahead};
use crate::text::push_text;
use crate::token::{token_text, LiteralValue, Token, TokenKind};

verus! {

/// Why a parse failed.
#[derive(Clone, Copy, Debug, PartialEq, Eq, Structural)]
pub enum ErrorKind {
    /// A token that cannot start an operand.
    InvalidExpression,
    /// A group whose closing parenthesis is missing while tokens remain.
    UnclosedParentheses,
    /// The tokens ran out where an operand or a closing parenthesis was due.
    UnexpectedEOF,
    /// Recovery after an error passed over every token that was left.
    EOFWhileSynchronizing,
    /// An expression statement without its closing `;`.
    MissingSemicolon,
}

/// A parse failure, with the token at fault where there is one.
#[derive(Debug)]
pub struct Error {
    pub kind: ErrorKind,
    pub token: Option<Token>,
}


/// How a parse error kind is described.
pub open spec fn parse_kind_text(k: ErrorKind) -> Seq<char> {
    match k {
        ErrorKind::InvalidExpression => "Invalid expression."@,
        ErrorKind::UnclosedParentheses => "Unclosed Parentheses."@,
        ErrorKind::UnexpectedEOF => "Unexpected End of Source Code."@,
        ErrorKind::EOFWhileSynchronizing => "Encountered errors while parsing."@,
        ErrorKind::MissingSemicolon => "Expect ';' after expression."@,
    }
}

/// How a parse error is described: its kind, then the token at fault where
/// there is one.
pub open spec fn parse_error_text(e: Error) -> Seq<char> {
    match e.token {
        Some(t) => parse_kind_text(e.kind) + " Occurred at "@ + token_text(t@),
        None => parse_kind_text(e.kind),
    }
}

impl Error {
    /// An error with the token at fault.
    pub fn with_token(kind: ErrorKind, token: Token) -> (r: Error)
        ensures
            r == (Error { kind, token: Some(token) }),
    {
        Error { kind, token: Some(token) }
    }

    /// An error with no token to blame, as where the tokens ran out.
    pub fn without_token(kind: ErrorKind) -> (r: Error)
        ensures
            r == (Error { kind, token: None }),
    {
        Error { kind, token: None }
    }

    pub fn kind(&self) -> (r: ErrorKind)
        ensures
            r == self.kind,
    {
        self.kind
    }

    /// The error described as `parse_error_text` says.
    pub fn describe(&self) -> (r: String)
        ensures
            r@ == parse_error_text(*self),
    {
        let mut out = String::new();
        match self.kind {
            ErrorKind::InvalidExpression => push_text(&mut out, "Invalid expression."),
            ErrorKind::UnclosedParentheses => push_text(&mut out, "Unclosed Parentheses."),
            ErrorKind::UnexpectedEOF => push_text(&mut out, "Unexpected End of Source Code."),
            ErrorKind::EOFWhileSynchronizing => push_text(&mut out, "Encountered errors while parsing."),
            ErrorKind::MissingSemicolon => push_text(&mut out, "Expect ';' after expression."),
        }
        match &self.token {
            Some(t) => {
                push_text(&mut out, " Occurred at ");
                t.push_text(&mut out);
            },
            None => {},
        }
        assert(out@ =~= parse_error_text(*self));
        out
    }
}

/// The precedence levels, from the top: equality, comparison, term, factor;
/// level 0 is unary and primary.
pub const TOP_LEVEL: u8 = 4;

/// Whether `k` is an operator of `level`.
pub open spec fn level_operator(level: nat, k: TokenKind) -> bool {
    if level == 4 {
        k == TokenKind::EQUAL_EQUAL || k == TokenKind::BANG_EQUAL
    } else if level == 3 {
        k == TokenKind::GREATER || k == TokenKind::GREATER_EQUAL || k == TokenKind::LESS
            || k == TokenKind::LESS_EQUAL
    } else if level == 2 {
        k == TokenKind::PLUS || k == TokenKind::MINUS
    } else if level == 1 {
        k == TokenKind::STAR || k == TokenKind::SLASH
    } else {
        false
    }
}

/// A parse result and the tokens left after it.
pub type Parsed = (Result<Expr, Error>, Seq<Token>);

pub open spec fn failure(kind: ErrorKind, token: Option<Token>, rest: Seq<Token>) -> Parsed {
    (Err(Error { kind, token }), rest)
}

/// The expression of precedence `level` at the start of `ts`. At level 0 a
/// `!` or `-` applies to the unary expression after it, and otherwise a
/// primary stands there: `true`, `false`, `nil`, a number or string with
/// its payload, or a parenthesised expression.
pub open spec fn parse_level(level: nat, ts: Seq<Token>) -> Parsed
    decreases ts.len(), level, 1nat,
{
    if level > 0 {
        let (l, rest) = parse_level((level - 1) as nat, ts);
        match l {
            Ok(left) => if rest.len() <= ts.len() {
                parse_chain(level, left, rest)
            } else {
                (Ok(left), rest)
            },
            Err(e) => (Err(e), rest),
        }
    } else if ts.len() == 0 {
        failure(ErrorKind::UnexpectedEOF, None, ts)
    } else {
        let t = ts[0];
        let rest = ts.drop_first();
        if t.kind == TokenKind::BANG || t.kind == TokenKind::MINUS {
            let (r, after) = parse_level(0, rest);
            match r {
                Ok(right) => (Ok(Expr::Unary(Unary { operator: t, right: Box::new(right) })), after),
                Err(e) => (Err(e), after),
            }
        } else if t.kind == TokenKind::TRUE {
            (Ok(Expr::Literal(LiteralValue::Bool(true))), rest)
        } else if t.kind == TokenKind::FALSE {
            (Ok(Expr::Literal(LiteralValue::Bool(false))), rest)
        } else if t.kind == TokenKind::NIL {
            (Ok(Expr::Literal(LiteralValue::Nil)), rest)
        } else if (t.kind == TokenKind::NUMBER || t.kind == TokenKind::STRING) && t.literal is Some {
            (Ok(Expr::Literal(t.literal->0)), rest)
        } else if t.kind == TokenKind::LEFT_PAREN {
            let (inner, after) = parse_level(4, rest);
            match inner {
                Err(e) => (Err(e), after),
                Ok(e) => if after.len() == 0 {
                    failure(ErrorKind::UnexpectedEOF, None, after)
                } else if after[0].kind == TokenKind::RIGHT_PAREN {
                    (Ok(Expr::Grouping(Grouping(Box::new(e)))), after.drop_first())
                } else {
                    failure(ErrorKind::UnclosedParentheses, Some(after[0]), after.drop_first())
                },
            }
        } else {
            failure(ErrorKind::InvalidExpression, Some(t), rest)
        }
    }
}

/// After an operand `left` of `level`, each operator of the level and the
/// operand after it fold into `left`, from left to right.
pub open spec fn parse_chain(level: nat, left: Expr, ts: Seq<Token>) -> Parsed
    decreases ts.len(), level, 0nat,
{
    if level > 0 && ts.len() > 0 && level_operator(level, ts[0].kind) {
        let (r, rest) = parse_level((level - 1) as nat, ts.drop_first());
        match r {
            Ok(right) => {
                let joined = Expr::Binary(
                    Binary { left: Box::new(left), operator: ts[0], right: Box::new(right) },
                );
                if rest.len() < ts.len() {
                    parse_chain(level, joined, rest)
                } else {
                    (Ok(joined), rest)
                }
            },
            Err(e) => (Err(e), rest),
        }
    } else {
        (Ok(left), ts)
    }
}

/// One expression at the start of `ts`.
pub open spec fn parse_expression(ts: Seq<Token>) -> Parsed {
    parse_level(4, ts)
}

/// Parsing never gives back more tokens than it was handed.
pub proof fn lemma_parse_consumes(level: nat, ts: Seq<Token>)
    ensures
        parse_level(level, ts).1.len() <= ts.len(),
    decreases ts.len(), level, 1nat,
{
    if level > 0 {
        lemma_parse_consumes((level - 1) as nat, ts);
        let (l, rest) = parse_level((level - 1) as nat, ts);
        if let Ok(left) = l {
            lemma_chain_consumes(level, left, rest);
        }
    } else if ts.len() > 0 {
        lemma_parse_consumes(0, ts.drop_first());
        lemma_parse_consumes(4, ts.drop_first());
    }
}

pub proof fn lemma_chain_consumes(level: nat, left: Expr, ts: Seq<Token>)
    ensures
        parse_chain(level, left, ts).1.len() <= ts.len(),
    decreases ts.len(), level, 0nat,
{
    if level > 0 && ts.len() > 0 && level_operator(level, ts[0].kind) {
        lemma_parse_consumes((level - 1) as nat, ts.drop_first());
        let (r, rest) = parse_level((level - 1) as nat, ts.drop_first());
        if let Ok(right) = r {
            let joined = Expr::Binary(
                Binary { left: Box::new(left), operator: ts[0], right: Box::new(right) },
            );
            lemma_chain_consumes(level, joined, rest);
        }
    }
}

/// Tokens at which a new statement begins.
pub open spec fn starts_statement(k: TokenKind) -> bool {
    k == TokenKind::CLASS || k == TokenKind::FUN || k == TokenKind::VAR || k == TokenKind::FOR
        || k == TokenKind::IF || k == TokenKind::WHILE || k == TokenKind::PRINT || k
        == TokenKind::RETURN
}

/// What is left after recovery from an error: tokens are dropped up to and
/// including a `;`, or up to a token that begins a statement.
pub open spec fn synchronized(ts: Seq<Token>) -> Seq<Token>
    decreases ts.len(),
{
    if ts.len() == 0 {
        ts
    } else if ts[0].kind == TokenKind::SEMICOLON {
        ts.drop_first()
    } else if ts.len() > 1 && starts_statement(ts[1].kind) {
        ts.drop_first()
    } else {
        synchronized(ts.drop_first())
    }
}

/// A parse with one recovery: the first attempt's error, if any, is
/// reported, the tokens are synchronized and a second expression is parsed
/// from there; when recovery used up the tokens, that is the error.
pub open spec fn parse_recovering(ts: Seq<Token>) -> (Parsed, Option<Error>) {
    let (first, rest) = parse_expression(ts);
    match first {
        Ok(e) => ((Ok(e), rest), None),
        Err(err) => {
            let resumed = synchronized(rest);
            if resumed.len() == 0 {
                (failure(ErrorKind::EOFWhileSynchronizing, None, resumed), Some(err))
            } else {
                (parse_expression(resumed), Some(err))
            }
        },
    }
}

/// A group whose inner expression parses but is not followed by `)` fails:
/// with `UnclosedParentheses` where tokens remain, and with `UnexpectedEOF`
/// where none do.
pub proof fn lemma_unclosed_group(ts: Seq<Token>)
    requires
        ts.len() > 0,
        ts[0].kind == TokenKind::LEFT_PAREN,
        parse_expression(ts.drop_first()).0 is Ok,
        parse_expression(ts.drop_first()).1.len() == 0
            || parse_expression(ts.drop_first()).1[0].kind != TokenKind::RIGHT_PAREN,
    ensures
        parse_expression(ts).0 is Err,
        parse_expression(ts.drop_first()).1.len() == 0 ==> parse_expression(ts).0->Err_0.kind
            == ErrorKind::UnexpectedEOF,
        parse_expression(ts.drop_first()).1.len() > 0 ==> parse_expression(ts).0->Err_0.kind
            == ErrorKind::UnclosedParentheses,
{
    reveal_with_fuel(parse_level, 6);
}

/// One statement at the start of a non-empty `ts`: `print` and an
/// expression, or an expression and the `;` that ends it.
pub open spec fn parse_statement(ts: Seq<Token>) -> (Result<Stmt, Error>, Seq<Token>) {
    if ts.len() > 0 && ts[0].kind == TokenKind::PRINT {
        let (r, rest) = parse_expression(ts.drop_first());
        match r {
            Ok(e) => (Ok(Stmt::PrintStmt(PrintStmt(e))), rest),
            Err(err) => (Err(err), rest),
        }
    } else {
        let (r, rest) = parse_expression(ts);
        match r {
            Err(err) => (Err(err), rest),
            Ok(e) => if rest.len() > 0 && rest[0].kind == TokenKind::SEMICOLON {
                (Ok(Stmt::ExprStmt(ExprStmt(e))), rest.drop_first())
            } else if rest.len() > 0 {
                (Err(Error { kind: ErrorKind::MissingSemicolon, token: Some(rest[0]) }), rest.drop_first())
            } else {
                (Err(Error { kind: ErrorKind::MissingSemicolon, token: None }), rest)
            },
        }
    }
}

/// Builds expressions from a sequence of tokens.
pub struct Parser {
    tokens: Peekable<IntoIter<Token>, 1>,
}

impl Parser {
    pub fn new(tokens: Vec<Token>) -> (r: Parser)
        ensures
            r.ahead() == tokens@,
    {
        Parser { tokens: token_cursor(tokens) }
    }

    /// The tokens not yet consumed.
    pub closed spec fn ahead(&self) -> Seq<Token> {
        tokens_ahead(self.tokens)
    }

    /// Parses one expression.
    pub fn parse(&mut self) -> (r: Result<Expr, Error>)
        ensures
            (r, final(self).ahead()) == parse_expression(old(self).ahead()),
    {
        self.expression()
    }

    /// Parses one expression.
    pub fn expression(&mut self) -> (r: Result<Expr, Error>)
        ensures
            (r, final(self).ahead()) == parse_expression(old(self).ahead()),
    {
        self.level(TOP_LEVEL)
    }

    fn level(&mut self, level: u8) -> (r: Result<Expr, Error>)
        requires
            level <= 4,
        ensures
            (r, final(self).ahead()) == parse_level(level as nat, old(self).ahead()),
        decreases old(self).ahead().len(), level, 1nat,
    {
        if level > 0 {
            let ghost ts = self.ahead();
            match self.level(level - 1) {
                Ok(left) => {
                    proof {
                        lemma_parse_consumes((level - 1) as nat, ts);
                    }
                    self.chain(level, left)
                },
                Err(e) => Err(e),
            }
        } else {
            self.unary()
        }
    }

    fn chain(&mut self, level: u8, left: Expr) -> (r: Result<Expr, Error>)
        requires
            1 <= level <= 4,
        ensures
            (r, final(self).ahead()) == parse_chain(level as nat, left, old(self).ahead()),
        decreases old(self).ahead().len(), level, 0nat,
    {
        let mut acc = left;
        loop
            invariant
                1 <= level <= 4,
                parse_chain(level as nat, acc, self.ahead()) == parse_chain(
                    level as nat,
                    left,
                    old(self).ahead(),
                ),
                self.ahead().len() <= old(self).ahead().len(),
            decreases self.ahead().len(),
        {
            let ghost ts = self.ahead();
            let k = peek_kind(&mut self.tokens);
            let is_op = match k {
                Some(kind) => if level == 4 {
                    kind == TokenKind::EQUAL_EQUAL || kind == TokenKind::BANG_EQUAL
                } else if level == 3 {
                    kind == TokenKind::GREATER || kind == TokenKind::GREATER_EQUAL || kind
                        == TokenKind::LESS || kind == TokenKind::LESS_EQUAL
                } else if level == 2 {
                    kind == TokenKind::PLUS || kind == TokenKind::MINUS
                } else {
                    kind == TokenKind::STAR || kind == TokenKind::SLASH
                },
                None => false,
            };
            if !is_op {
                proof {
                    assert(!(ts.len() > 0 && level_operator(level as nat, ts[0].kind)));
                    assert(parse_chain(level as nat, acc, ts) == (Ok::<Expr, Error>(acc), ts));
                }
                return Ok(acc);
            }
            let operator = match next_token(&mut self.tokens) {
                Some(t) => t,
                None => {
                    return Ok(acc);
                },
            };
            match self.level(level - 1) {
                Ok(right) => {
                    proof {
                        lemma_parse_consumes((level - 1) as nat, ts.drop_first());
                    }
                    acc = Expr::binary(acc, operator, right);
                },
                Err(e) => {
                    return Err(e);
                },
            }
        }
    }

    fn unary(&mut self) -> (r: Result<Expr, Error>)
        ensures
            (r, final(self).ahead()) == parse_level(0, old(self).ahead()),
        decreases old(self).ahead().len(), 0nat, 0nat,
    {
        let ghost ts = self.ahead();
        let token = match next_token(&mut self.tokens) {
            Some(t) => t,
            None => {
                return Err(Error::without_token(ErrorKind::UnexpectedEOF));
            },
        };
        if token.kind == TokenKind::BANG || token.kind == TokenKind::MINUS {
            match self.unary() {
                Ok(right) => Ok(Expr::unary(token, right)),
                Err(e) => Err(e),
            }
        } else if token.kind == TokenKind::TRUE {
            Ok(Expr::literal_bool(true))
        } else if token.kind == TokenKind::FALSE {
            Ok(Expr::literal_bool(false))
        } else if token.kind == TokenKind::NIL {
            Ok(Expr::literal_nil())
        } else if token.kind == TokenKind::NUMBER || token.kind == TokenKind::STRING {
            match token {
                Token { literal: Some(value), .. } => Ok(Expr::Literal(value)),
                other => Err(Error::with_token(ErrorKind::InvalidExpression, other)),
            }
        } else if token.kind == TokenKind::LEFT_PAREN {
            match self.level(TOP_LEVEL) {
                Err(e) => Err(e),
                Ok(inner) => {
                    match peek_kind(&mut self.tokens) {
                        None => Err(Error::without_token(ErrorKind::UnexpectedEOF)),
                        Some(k) => {
                            let closing = next_token(&mut self.tokens);
                            if k == TokenKind::RIGHT_PAREN {
                                Ok(Expr::grouping(inner))
                            } else {
                                Err(
                                    Error {
                                        kind: ErrorKind::UnclosedParentheses,
                                        token: closing,
                                    },
                                )
                            }
                        },
                    }
                },
            }
        } else {
            Err(Error::with_token(ErrorKind::InvalidExpression, token))
        }
    }

    /// Drops tokens up to and including a `;`, or up to a token that begins
    /// a statement.
    pub fn synchronize(&mut self)
        ensures
            final(self).ahead() == synchronized(old(self).ahead()),
    {
        loop
            invariant
                synchronized(self.ahead()) == synchronized(old(self).ahead()),
            decreases self.ahead().len(),
        {
            let ghost ts = self.ahead();
            match next_token(&mut self.tokens) {
                None => {
                    return;
                },
                Some(token) => {
                    if token.kind == TokenKind::SEMICOLON {
                        return;
                    }
                    match peek_kind(&mut self.tokens) {
                        Some(k) => {
                            if k == TokenKind::CLASS || k == TokenKind::FUN || k == TokenKind::VAR
                                || k == TokenKind::FOR || k == TokenKind::IF || k
                                == TokenKind::WHILE || k == TokenKind::PRINT || k
                                == TokenKind::RETURN {
                                return;
                            }
                        },
                        None => {},
                    }
                },
            }
        }
    }

    /// Parses one expression; on an error, reports it into `reported`,
    /// synchronizes and parses again from there.
    pub fn expression_wrapper(&mut self, reported: &mut Vec<Error>) -> (r: Result<
        Expr,
        Error,
    >)
        ensures
            (r, final(self).ahead()) == parse_recovering(old(self).ahead()).0,
            parse_recovering(old(self).ahead()).1 is None ==> final(reported)@ == old(reported)@,
            parse_recovering(old(self).ahead()).1 is Some ==> final(reported)@ == old(reported)@.push(
                parse_recovering(old(self).ahead()).1->0,
            ),
    {
        match self.expression() {
            Ok(e) => Ok(e),
            Err(err) => {
                reported.push(err);
                self.synchronize();
                match peek_kind(&mut self.tokens) {
                    None => Err(Error::without_token(ErrorKind::EOFWhileSynchronizing)),
                    Some(_) => self.expression(),
                }
            },
        }
    }

    /// The next statement, or nothing once the tokens are used up.
    pub fn next(&mut self) -> (r: Option<Result<Stmt, Error>>)
        ensures
            old(self).ahead().len() == 0 ==> r is None && final(self).ahead() == old(self).ahead(),
            old(self).ahead().len() > 0 ==> r is Some && (r->0, final(self).ahead())
                == parse_statement(old(self).ahead()),
    {
        match peek_kind(&mut self.tokens) {
            None => None,
            Some(_) => Some(self.statement()),
        }
    }

    /// One statement: `print` and an expression, or an expression statement.
    pub fn statement(&mut self) -> (r: Result<Stmt, Error>)
        requires
            old(self).ahead().len() > 0,
        ensures
            (r, final(self).ahead()) == parse_statement(old(self).ahead()),
    {
        match peek_kind(&mut self.tokens) {
            Some(TokenKind::PRINT) => self.print_statement(),
            _ => self.expression_statement(),
        }
    }

    /// `print` and the expression after it.
    pub fn print_statement(&mut self) -> (r: Result<Stmt, Error>)
        requires
            old(self).ahead().len() > 0,
            old(self).ahead()[0].kind == TokenKind::PRINT,
        ensures
            (r, final(self).ahead()) == parse_statement(old(self).ahead()),
    {
        let _ = next_token(&mut self.tokens);
        match self.expression() {
            Ok(expr) => Ok(Stmt::print_statement(expr)),
            Err(e) => Err(e),
        }
    }

    /// An expression and the `;` that ends it.
    pub fn expression_statement(&mut self) -> (r: Result<Stmt, Error>)
        requires
            old(self).ahead().len() == 0 || old(self).ahead()[0].kind != TokenKind::PRINT,
        ensures
            (r, final(self).ahead()) == parse_statement(old(self).ahead()),
    {
        let expr = match self.expression() {
            Ok(e) => e,
            Err(e) => {
                return Err(e);
            },
        };
        match peek_kind(&mut self.tokens) {
            Some(TokenKind::SEMICOLON) => {
                let _ = next_token(&mut self.tokens);
                Ok(Stmt::expression_statement(expr))
            },
            Some(_) => {
                match next_token(&mut self.tokens) {
                    Some(failed) => Err(Error::with_token(ErrorKind::MissingSemicolon, failed)),
                    None => Err(Error::without_token(ErrorKind::MissingSemicolon)),
                }
            },
            None => Err(Error::without_token(ErrorKind::MissingSemicolon)),
        }
    }
}

} // verus!
