//! The scanner: source text in, a lazy stream of tokens and per-token errors
//! out.

use vstd::prelude::*;

use peekaboo::Peekable;
use std::vec::IntoIter;

use crate::cursor::{char_cursor, chars_ahead, next_char, peek_char};
use crate::parse::Parser;
use crate::span::Span;
use crate::text::{chars_of, push_char, push_text};
use crate::token::{
    escape_string, keyword_of, quoted, LiteralView, LiteralValue, Number, NumberView, Token,
    TokenKind, TokenView,
};

verus! {

pub open spec fn is_digit(c: char) -> bool {
    '0' <= c && c <= '9'
}

pub open spec fn is_word_start(c: char) -> bool {
    ('a' <= c && c <= 'z') || ('A' <= c && c <= 'Z') || c == '_'
}

pub open spec fn is_word_char(c: char) -> bool {
    is_word_start(c) || is_digit(c)
}

/// Characters that separate lexemes and make no token.
pub open spec fn is_blank(c: char) -> bool {
    c == ' ' || c == '\t' || c == '\r' || c == '\n'
}

/// How many digits `s` starts with.
pub open spec fn digit_run(s: Seq<char>) -> nat
    decreases s.len(),
{
    if s.len() > 0 && is_digit(s[0]) {
        1 + digit_run(s.drop_first())
    } else {
        0
    }
}

/// How many identifier characters `s` starts with.
pub open spec fn word_run(s: Seq<char>) -> nat
    decreases s.len(),
{
    if s.len() > 0 && is_word_char(s[0]) {
        1 + word_run(s.drop_first())
    } else {
        0
    }
}

/// How many characters `s` has before its first line break.
pub open spec fn line_run(s: Seq<char>) -> nat
    decreases s.len(),
{
    if s.len() > 0 && s[0] != '\n' {
        1 + line_run(s.drop_first())
    } else {
        0
    }
}

/// The length of the numeral at the start of `s`: a run of digits, then a
/// point and a second run only where a digit follows the point.
pub open spec fn numeral_len(s: Seq<char>) -> nat {
    let a = digit_run(s);
    if a + 1 < s.len() && s[a as int] == '.' && is_digit(s[(a + 1) as int]) {
        a + 1 + digit_run(s.skip((a + 1) as int))
    } else {
        a
    }
}

/// The character that an escape `\c` stands for, where `c` starts one.
pub open spec fn escape_of(c: char) -> Option<char> {
    if c == 'n' {
        Some('\n')
    } else if c == 't' {
        Some('\t')
    } else if c == 'r' {
        Some('\r')
    } else if c == '\\' {
        Some('\\')
    } else if c == '"' {
        Some('"')
    } else {
        None
    }
}

/// What follows an opening quote: the string's content, how many characters
/// it takes up to and including the closing quote, whether that quote came,
/// and for each backslash that starts no escape the character after it, or
/// nothing where the text ends right after it. Such a backslash stays in the
/// content as it is.
pub open spec fn string_body(s: Seq<char>) -> (Seq<char>, nat, bool, Seq<Option<char>>)
    decreases s.len(),
{
    if s.len() == 0 {
        (Seq::empty(), 0, false, Seq::empty())
    } else if s[0] == '"' {
        (Seq::empty(), 1, true, Seq::empty())
    } else if s[0] == '\\' && s.len() > 1 && escape_of(s[1]) is Some {
        let r = string_body(s.skip(2));
        (seq![escape_of(s[1])->0] + r.0, r.1 + 2, r.2, r.3)
    } else if s[0] == '\\' && s.len() > 1 {
        let r = string_body(s.drop_first());
        (seq![s[0]] + r.0, r.1 + 1, r.2, seq![Some(s[1])] + r.3)
    } else {
        let r = string_body(s.drop_first());
        let reported = if s[0] == '\\' {
            seq![None] + r.3
        } else {
            r.3
        };
        (seq![s[0]] + r.0, r.1 + 1, r.2, reported)
    }
}

/// Why a lexeme makes no token.
#[derive(Clone, Debug, PartialEq)]
pub enum ErrorKind {
    /// A character that starts no lexeme.
    UnmatchedCharacter(char),
    /// The source ended inside a string; this holds what was read of it,
    /// quoted and escaped for display.
    UnterminatedString(String),
    /// A backslash in a string followed by this character, which starts no
    /// escape. It is only reported: the backslash stays in the string.
    InvalidEscape(Option<char>),
}

pub ghost enum ErrorKindView {
    UnmatchedCharacter(char),
    UnterminatedString(Seq<char>),
    InvalidEscape(Option<char>),
}

impl View for ErrorKind {
    type V = ErrorKindView;

    open spec fn view(&self) -> ErrorKindView {
        match self {
            ErrorKind::UnmatchedCharacter(c) => ErrorKindView::UnmatchedCharacter(*c),
            ErrorKind::UnterminatedString(s) => ErrorKindView::UnterminatedString(s@),
            ErrorKind::InvalidEscape(c) => ErrorKindView::InvalidEscape(*c),
        }
    }
}

/// A lexeme that makes no token, and where it stands.
#[derive(Clone, Debug)]
pub struct Error {
    pub kind: ErrorKind,
    pub span: Span,
}

pub ghost struct ErrorView {
    pub kind: ErrorKindView,
    pub span: Span,
}

impl View for Error {
    type V = ErrorView;

    open spec fn view(&self) -> ErrorView {
        ErrorView { kind: self.kind@, span: self.span }
    }
}


/// How a lexical error kind is described.
pub open spec fn lex_kind_text(k: ErrorKindView) -> Seq<char> {
    match k {
        ErrorKindView::UnmatchedCharacter(c) => "Unmatched character: `"@ + seq![c] + "`."@,
        ErrorKindView::UnterminatedString(s) => "Unterminated String: `"@ + s + "`."@,
        ErrorKindView::InvalidEscape(Some(c)) => "Invalid Escape character: `"@ + seq![c] + "`."@,
        ErrorKindView::InvalidEscape(None) => "Invalid Escape at the end of the source."@,
    }
}

/// How a lexical error is described: its kind, then where it stands.
pub open spec fn lex_error_text(e: ErrorView) -> Seq<char> {
    lex_kind_text(e.kind) + " Occurred at "@ + e.span.text()
}

impl Error {
    /// An error of `kind` at `span`.
    pub fn spanned(span: Span, kind: ErrorKind) -> (r: Error)
        ensures
            r == (Error { kind, span }),
    {
        Error { kind, span }
    }

    /// The error described as `lex_error_text` says.
    pub fn describe(&self) -> (r: String)
        ensures
            r@ == lex_error_text(self@),
    {
        let mut out = String::new();
        match &self.kind {
            ErrorKind::UnmatchedCharacter(c) => {
                push_text(&mut out, "Unmatched character: `");
                push_char(&mut out, *c);
                push_text(&mut out, "`.");
            },
            ErrorKind::UnterminatedString(shown) => {
                push_text(&mut out, "Unterminated String: `");
                push_text(&mut out, shown.as_str());
                push_text(&mut out, "`.");
            },
            ErrorKind::InvalidEscape(Some(c)) => {
                push_text(&mut out, "Invalid Escape character: `");
                push_char(&mut out, *c);
                push_text(&mut out, "`.");
            },
            ErrorKind::InvalidEscape(None) => {
                push_text(&mut out, "Invalid Escape at the end of the source.");
            },
        }
        push_text(&mut out, " Occurred at ");
        let at = self.span.render();
        push_text(&mut out, at.as_str());
        assert(out@ =~= lex_error_text(self@));
        out
    }
}

/// What a lexeme makes.
pub ghost enum Scanned {
    Skip,
    Token(TokenKind, Option<LiteralView>),
    Failure(ErrorKindView),
}

/// The kind of a one-character operator.
pub open spec fn single_kind(c: char) -> Option<TokenKind> {
    if c == '(' {
        Some(TokenKind::LEFT_PAREN)
    } else if c == ')' {
        Some(TokenKind::RIGHT_PAREN)
    } else if c == '{' {
        Some(TokenKind::LEFT_BRACE)
    } else if c == '}' {
        Some(TokenKind::RIGHT_BRACE)
    } else if c == ',' {
        Some(TokenKind::COMMA)
    } else if c == '.' {
        Some(TokenKind::DOT)
    } else if c == '-' {
        Some(TokenKind::MINUS)
    } else if c == '+' {
        Some(TokenKind::PLUS)
    } else if c == ';' {
        Some(TokenKind::SEMICOLON)
    } else if c == '*' {
        Some(TokenKind::STAR)
    } else if c == '/' {
        Some(TokenKind::SLASH)
    } else if c == '!' {
        Some(TokenKind::BANG)
    } else if c == '=' {
        Some(TokenKind::EQUAL)
    } else if c == '>' {
        Some(TokenKind::GREATER)
    } else if c == '<' {
        Some(TokenKind::LESS)
    } else {
        None
    }
}

/// The kind of an operator that `c` begins when `=` follows it.
pub open spec fn with_equal_kind(c: char) -> Option<TokenKind> {
    if c == '!' {
        Some(TokenKind::BANG_EQUAL)
    } else if c == '=' {
        Some(TokenKind::EQUAL_EQUAL)
    } else if c == '>' {
        Some(TokenKind::GREATER_EQUAL)
    } else if c == '<' {
        Some(TokenKind::LESS_EQUAL)
    } else {
        None
    }
}

/// The lexeme at the start of a non-empty `s`: its length and what it makes.
pub open spec fn scan(s: Seq<char>) -> (nat, Scanned) {
    let c = s[0];
    let second = if s.len() > 1 { Some(s[1]) } else { None };
    if is_blank(c) {
        (1, Scanned::Skip)
    } else if c == '"' {
        let b = string_body(s.drop_first());
        if b.2 {
            (1 + b.1, Scanned::Token(TokenKind::STRING, Some(LiteralView::Str(b.0))))
        } else {
            (1 + b.1, Scanned::Failure(ErrorKindView::UnterminatedString(quoted(b.0))))
        }
    } else if is_digit(c) {
        let n = numeral_len(s);
        (
            n,
            Scanned::Token(
                TokenKind::NUMBER,
                Some(LiteralView::Number(NumberView::Numeral(s.take(n as int)))),
            )
        )
    } else if is_word_start(c) {
        let w = s.take(word_run(s) as int);
        let k = match keyword_of(w) {
            Some(k) => k,
            None => TokenKind::IDENTIFIER,
        };
        (word_run(s), Scanned::Token(k, Some(LiteralView::Str(w))))
    } else if c == '/' && second == Some('/') {
        (2 + line_run(s.skip(2)), Scanned::Skip)
    } else if with_equal_kind(c) is Some && second == Some('=') {
        (2, Scanned::Token(with_equal_kind(c)->0, None))
    } else if single_kind(c) is Some {
        (1, Scanned::Token(single_kind(c)->0, None))
    } else {
        (1, Scanned::Failure(ErrorKindView::UnmatchedCharacter(c)))
    }
}

/// The characters after backslashes that start no escape, in the string
/// that a non-empty `s` may begin with.
pub open spec fn scan_escapes(s: Seq<char>) -> Seq<Option<char>> {
    if s[0] == '"' {
        string_body(s.drop_first()).3
    } else {
        Seq::empty()
    }
}

/// The reports of the escapes of `bad`, each at the span of its string.
pub open spec fn escape_reports(bad: Seq<Option<char>>, sp: Span) -> Seq<ErrorView>
    decreases bad.len(),
{
    if bad.len() == 0 {
        Seq::empty()
    } else {
        escape_reports(bad.drop_last(), sp).push(
            ErrorView { kind: ErrorKindView::InvalidEscape(bad.last()), span: sp },
        )
    }
}

/// The span after one more character: every character widens it, and a
/// line break then moves it to the next line.
pub open spec fn span_step(sp: Span, c: char) -> Span {
    if c == '\n' {
        sp.advanced().broken()
    } else {
        sp.advanced()
    }
}

/// The span after the characters of `s`.
pub open spec fn span_over(sp: Span, s: Seq<char>) -> Span
    decreases s.len(),
{
    if s.len() == 0 {
        sp
    } else {
        span_step(span_over(sp, s.drop_last()), s.last())
    }
}

/// One pull on the stream, from the characters `rest` that are left and the
/// span `sp` of the last lexeme: what comes out, the characters left after
/// it, the span then, and the escapes that were reported on the way. Blanks
/// and comments are passed over; each lexeme's span starts where the one
/// before it ended.
pub open spec fn next_scan(rest: Seq<char>, sp: Span) -> (
    Option<Result<TokenView, ErrorView>>,
    Seq<char>,
    Span,
    Seq<ErrorView>,
)
    decreases rest.len(),
{
    let start = sp.restarted();
    if rest.len() == 0 {
        (None, rest, start, Seq::empty())
    } else {
        let n = scan(rest).0;
        if 1 <= n <= rest.len() {
            let after = span_over(start, rest.take(n as int));
            let reports = escape_reports(scan_escapes(rest), after);
            match scan(rest).1 {
                Scanned::Skip => next_scan(rest.skip(n as int), after),
                Scanned::Token(k, lit) => (
                    Some(Ok(TokenView { kind: k, lexeme: rest.take(n as int), literal: lit, span: after })),
                    rest.skip(n as int),
                    after,
                    reports,
                ),
                Scanned::Failure(e) => (
                    Some(Err(ErrorView { kind: e, span: after })),
                    rest.skip(n as int),
                    after,
                    reports,
                ),
            }
        } else {
            (None, rest, start, Seq::empty())
        }
    }
}

/// What a pull on the stream gave, to a proof.
pub open spec fn pulled(r: Option<Result<Token, Error>>) -> Option<Result<TokenView, ErrorView>> {
    match r {
        None => None,
        Some(Ok(t)) => Some(Ok(t@)),
        Some(Err(e)) => Some(Err(e@)),
    }
}

pub proof fn lemma_runs_bounded(s: Seq<char>)
    ensures
        digit_run(s) <= s.len(),
        word_run(s) <= s.len(),
        line_run(s) <= s.len(),
        string_body(s).1 <= s.len(),
    decreases s.len(),
{
    if s.len() > 0 {
        lemma_runs_bounded(s.drop_first());
        if s.len() > 1 {
            lemma_runs_bounded(s.skip(2));
        }
    }
}

/// Every lexeme takes at least one character and no more than are left.
pub proof fn lemma_scan_len(s: Seq<char>)
    requires
        s.len() > 0,
    ensures
        1 <= scan(s).0 <= s.len(),
{
    lemma_runs_bounded(s);
    lemma_runs_bounded(s.drop_first());
    if s.len() >= 2 {
        lemma_runs_bounded(s.skip(2));
    }
    let a = digit_run(s);
    if a + 1 < s.len() {
        lemma_runs_bounded(s.skip((a + 1) as int));
    }
}

pub proof fn lemma_span_over_append(sp: Span, a: Seq<char>, b: Seq<char>)
    ensures
        span_over(sp, a + b) == span_over(span_over(sp, a), b),
    decreases b.len(),
{
    if b.len() == 0 {
        assert(a + b =~= a);
    } else {
        assert((a + b).drop_last() =~= a + b.drop_last());
        lemma_span_over_append(sp, a, b.drop_last());
    }
}

/// The escape that `c` completes after a backslash.
fn escape_char(c: char) -> (r: Option<char>)
    ensures
        r == escape_of(c),
{
    if c == 'n' {
        Some('\n')
    } else if c == 't' {
        Some('\t')
    } else if c == 'r' {
        Some('\r')
    } else if c == '\\' {
        Some('\\')
    } else if c == '"' {
        Some('"')
    } else {
        None
    }
}


/// Every token of the text from `rest` on, and apart from them every error
/// and report, each in the order met.
pub open spec fn scan_all(rest: Seq<char>, sp: Span) -> (Seq<TokenView>, Seq<ErrorView>)
    decreases rest.len(),
{
    let (item, after, sp2, reports) = next_scan(rest, sp);
    match item {
        None => (Seq::empty(), reports),
        Some(x) => if after.len() < rest.len() {
            let (ts, es) = scan_all(after, sp2);
            match x {
                Ok(t) => (seq![t] + ts, reports + es),
                Err(e) => (ts, reports + seq![e] + es),
            }
        } else {
            (Seq::empty(), reports)
        },
    }
}

/// Each pull that gives something uses up characters.
pub proof fn lemma_pull_shrinks(rest: Seq<char>, sp: Span)
    ensures
        next_scan(rest, sp).1.len() <= rest.len(),
        next_scan(rest, sp).0 is Some ==> next_scan(rest, sp).1.len() < rest.len(),
    decreases rest.len(),
{
    if rest.len() > 0 {
        lemma_scan_len(rest);
        let n = scan(rest).0;
        let after = span_over(sp.restarted(), rest.take(n as int));
        lemma_pull_shrinks(rest.skip(n as int), after);
    }
}

pub open spec fn token_views(ts: Seq<Token>) -> Seq<TokenView> {
    ts.map_values(|t: Token| t@)
}

pub open spec fn error_views(es: Seq<Error>) -> Seq<ErrorView> {
    es.map_values(|e: Error| e@)
}

/// Scans one source text.
pub struct Lexer {
    source: String,
}

impl Lexer {
    pub fn new(source: &str) -> (r: Lexer)
        ensures
            r.text() == source@,
    {
        Lexer { source: source.to_owned() }
    }

    pub closed spec fn text(&self) -> Seq<char> {
        self.source@
    }

    /// A stream over the whole text, starting at line 1, column 0.
    pub fn scan_tokens(&self) -> (r: TokenStream)
        requires
            self.text().len() < usize::MAX - 1,
        ensures
            r.wf(),
            r.ahead() == self.text(),
            r.position() == Span::initial(),
            r.reported().len() == 0,
    {
        let chars = chars_of(self.source.as_str());
        TokenStream {
            source: char_cursor(chars),
            span: Span::new(),
            lexeme: String::new(),
            diagnostics: Vec::new(),
        }
    }

    /// Scans the whole text: the tokens, ready for parsing, and apart from
    /// them the errors of the lexemes that made none.
    pub fn advance_to_parsing(&self) -> (r: (Parser, Vec<Error>))
        requires
            self.text().len() < usize::MAX - 1,
        ensures
            token_views(r.0.ahead()) == scan_all(self.text(), Span::initial()).0,
            error_views(r.1@) == scan_all(self.text(), Span::initial()).1,
    {
        let mut stream = self.scan_tokens();
        let mut tokens: Vec<Token> = Vec::new();
        let mut errors: Vec<Error> = Vec::new();
        loop
            invariant
                stream.wf(),
                stream.reported().len() == 0,
                scan_all(self.text(), Span::initial()).0 == token_views(tokens@) + scan_all(
                    stream.ahead(),
                    stream.position(),
                ).0,
                scan_all(self.text(), Span::initial()).1 == error_views(errors@) + scan_all(
                    stream.ahead(),
                    stream.position(),
                ).1,
            decreases stream.ahead().len(),
        {
            let ghost rest = stream.ahead();
            let ghost sp = stream.position();
            proof {
                lemma_pull_shrinks(rest, sp);
            }
            let item = stream.next();
            let ghost reports = next_scan(rest, sp).3;
            let mut reported = stream.take_diagnostics();
            let ghost before = errors@;
            errors.append(&mut reported);
            proof {
                assert(error_views(errors@) =~= error_views(before) + reports);
            }
            match item {
                None => {
                    proof {
                        assert(token_views(tokens@) + Seq::<TokenView>::empty() =~= token_views(tokens@));
                        assert(error_views(before) + reports =~= error_views(errors@));
                    }
                    return (Parser::new(tokens), errors);
                },
                Some(Ok(t)) => {
                    let ghost before_tokens = tokens@;
                    tokens.push(t);
                    proof {
                        assert(token_views(tokens@) =~= token_views(before_tokens).push(t@));
                        assert(token_views(before_tokens) + (seq![t@] + scan_all(stream.ahead(), stream.position()).0)
                            =~= token_views(tokens@) + scan_all(stream.ahead(), stream.position()).0);
                        assert(error_views(before) + (reports + scan_all(stream.ahead(), stream.position()).1)
                            =~= error_views(errors@) + scan_all(stream.ahead(), stream.position()).1);
                    }
                },
                Some(Err(e)) => {
                    let ghost mid = errors@;
                    errors.push(e);
                    proof {
                        assert(error_views(errors@) =~= error_views(mid).push(e@));
                        assert(error_views(before) + (reports + seq![e@] + scan_all(stream.ahead(), stream.position()).1)
                            =~= error_views(errors@) + scan_all(stream.ahead(), stream.position()).1);
                    }
                },
            }
        }
    }
}

/// A single-pass stream of the tokens of a text, and of the errors of the
/// lexemes that make none.
pub struct TokenStream {
    source: Peekable<IntoIter<char>, 2>,
    span: Span,
    lexeme: String,
    diagnostics: Vec<Error>,
}

/// What `match_char` found after the first character of a lexeme.
type Matched = Option<Result<(TokenKind, Option<LiteralValue>), ErrorKind>>;

pub open spec fn matched_view(m: Matched) -> Scanned {
    match m {
        None => Scanned::Skip,
        Some(Ok((k, lit))) => Scanned::Token(
            k,
            match lit {
                Some(v) => Some(v@),
                None => None,
            },
        ),
        Some(Err(e)) => Scanned::Failure(e@),
    }
}

impl TokenStream {
    /// The characters not yet read.
    pub closed spec fn ahead(&self) -> Seq<char> {
        chars_ahead(self.source)
    }

    /// The span of the last lexeme read.
    pub closed spec fn position(&self) -> Span {
        self.span
    }

    /// The escapes reported and not yet taken.
    pub closed spec fn reported(&self) -> Seq<ErrorView> {
        error_views(self.diagnostics@)
    }

    /// Hands over the escapes reported so far, and forgets them.
    pub fn take_diagnostics(&mut self) -> (r: Vec<Error>)
        ensures
            error_views(r@) == old(self).reported(),
            final(self).reported().len() == 0,
            final(self).ahead() == old(self).ahead(),
            final(self).position() == old(self).position(),
            final(self).wf() == old(self).wf(),
    {
        let mut taken: Vec<Error> = Vec::new();
        std::mem::swap(&mut taken, &mut self.diagnostics);
        taken
    }

    /// The counters cannot overflow on what is left.
    pub closed spec fn wf(&self) -> bool {
        self.span.end_character + self.ahead().len() < usize::MAX
            && self.span.end_line + self.ahead().len() < usize::MAX
    }

    /// `after` is `before` with `k` more characters read into the lexeme.
    spec fn moved(before: TokenStream, after: TokenStream, k: nat) -> bool {
        &&& k <= before.ahead().len()
        &&& after.ahead() == before.ahead().skip(k as int)
        &&& after.lexeme@ == before.lexeme@ + before.ahead().take(k as int)
        &&& after.span == span_over(before.span, before.ahead().take(k as int))
        &&& after.diagnostics == before.diagnostics
    }

    proof fn lemma_moved_chain(a: TokenStream, b: TokenStream, c: TokenStream, k1: nat, k2: nat)
        requires
            Self::moved(a, b, k1),
            Self::moved(b, c, k2),
        ensures
            Self::moved(a, c, k1 + k2),
    {
        let s = a.ahead();
        assert(s.take(k1 as int) + s.skip(k1 as int).take(k2 as int) =~= s.take((k1 + k2) as int));
        assert(s.skip(k1 as int).skip(k2 as int) =~= s.skip((k1 + k2) as int));
        lemma_span_over_append(a.span, s.take(k1 as int), s.skip(k1 as int).take(k2 as int));
        assert(c.lexeme@ =~= a.lexeme@ + s.take((k1 + k2) as int));
    }

    proof fn lemma_moved_none(a: TokenStream)
        ensures
            Self::moved(a, a, 0),
    {
        assert(a.ahead().skip(0) =~= a.ahead());
        assert(a.lexeme@ + a.ahead().take(0) =~= a.lexeme@);
        assert(a.ahead().take(0).len() == 0);
    }

    /// Reads one character into the lexeme.
    fn advance(&mut self) -> (r: Option<char>)
        requires
            old(self).wf(),
        ensures
            final(self).wf(),
            old(self).ahead().len() == 0 ==> r is None && Self::moved(*old(self), *final(self), 0),
            old(self).ahead().len() > 0 ==> r == Some(old(self).ahead()[0]) && Self::moved(
                *old(self),
                *final(self),
                1,
            ),
    {
        let ghost before = *self;
        let c = next_char(&mut self.source);
        match c {
            None => {
                proof {
                    Self::lemma_moved_none(before);
                }
                None
            },
            Some(ch) => {
                self.span.advance();
                if ch == '\n' {
                    self.span.newline();
                }
                push_char(&mut self.lexeme, ch);
                proof {
                    let s = before.ahead();
                    assert(s.take(1) =~= seq![ch]);
                    assert(s.take(1).drop_last() =~= Seq::<char>::empty());
                    assert(self.lexeme@ =~= before.lexeme@ + s.take(1));
                    assert(span_over(before.span, s.take(1).drop_last()) == before.span);
                    assert(span_over(before.span, s.take(1)) == span_step(before.span, ch));
                }
                Some(ch)
            },
        }
    }

    /// Reads the next character if it is `expected`.
    fn advance_if_eq(&mut self, expected: char) -> (r: bool)
        requires
            old(self).wf(),
        ensures
            final(self).wf(),
            r == (old(self).ahead().len() > 0 && old(self).ahead()[0] == expected),
            Self::moved(*old(self), *final(self), if r { 1 } else { 0 }),
    {
        if peek_char::<1>(&mut self.source) == Some(expected) {
            self.advance();
            true
        } else {
            proof {
                Self::lemma_moved_none(*self);
            }
            false
        }
    }

    /// Reads a run of digits.
    fn digits(&mut self)
        requires
            old(self).wf(),
        ensures
            final(self).wf(),
            Self::moved(*old(self), *final(self), digit_run(old(self).ahead())),
    {
        let ghost start = *self;
        proof {
            Self::lemma_moved_none(start);
        }
        let ghost mut k: nat = 0;
        loop
            invariant
                self.wf(),
                start == *old(self),
                Self::moved(start, *self, k),
                digit_run(start.ahead()) == k + digit_run(self.ahead()),
            decreases self.ahead().len(),
        {
            let ghost before = *self;
            match peek_char::<1>(&mut self.source) {
                Some(c) => {
                    if '0' <= c && c <= '9' {
                        self.advance();
                        proof {
                            Self::lemma_moved_chain(start, before, *self, k, 1);
                            k = k + 1;
                        }
                    } else {
                        return;
                    }
                },
                None => {
                    return;
                },
            }
        }
    }

    /// Reads a run of identifier characters.
    fn word(&mut self)
        requires
            old(self).wf(),
        ensures
            final(self).wf(),
            Self::moved(*old(self), *final(self), word_run(old(self).ahead())),
    {
        let ghost start = *self;
        proof {
            Self::lemma_moved_none(start);
        }
        let ghost mut k: nat = 0;
        loop
            invariant
                self.wf(),
                start == *old(self),
                Self::moved(start, *self, k),
                word_run(start.ahead()) == k + word_run(self.ahead()),
            decreases self.ahead().len(),
        {
            let ghost before = *self;
            match peek_char::<1>(&mut self.source) {
                Some(c) => {
                    if ('a' <= c && c <= 'z') || ('A' <= c && c <= 'Z') || c == '_' || ('0' <= c
                        && c <= '9') {
                        self.advance();
                        proof {
                            Self::lemma_moved_chain(start, before, *self, k, 1);
                            k = k + 1;
                        }
                    } else {
                        return;
                    }
                },
                None => {
                    return;
                },
            }
        }
    }

    /// Reads up to, not including, the next line break.
    fn line_comment(&mut self)
        requires
            old(self).wf(),
        ensures
            final(self).wf(),
            Self::moved(*old(self), *final(self), line_run(old(self).ahead())),
    {
        let ghost start = *self;
        proof {
            Self::lemma_moved_none(start);
        }
        let ghost mut k: nat = 0;
        loop
            invariant
                self.wf(),
                start == *old(self),
                Self::moved(start, *self, k),
                line_run(start.ahead()) == k + line_run(self.ahead()),
            decreases self.ahead().len(),
        {
            let ghost before = *self;
            match peek_char::<1>(&mut self.source) {
                Some(c) => {
                    if c != '\n' {
                        self.advance();
                        proof {
                            Self::lemma_moved_chain(start, before, *self, k, 1);
                            k = k + 1;
                        }
                    } else {
                        return;
                    }
                },
                None => {
                    return;
                },
            }
        }
    }

    /// Reads the rest of a string after its opening quote.
    fn string(&mut self) -> (r: (String, bool, Vec<Option<char>>))
        requires
            old(self).wf(),
        ensures
            final(self).wf(),
            Self::moved(*old(self), *final(self), string_body(old(self).ahead()).1),
            r.0@ == string_body(old(self).ahead()).0,
            r.1 == string_body(old(self).ahead()).2,
            r.2@ == string_body(old(self).ahead()).3,
    {
        let ghost start = *self;
        proof {
            Self::lemma_moved_none(start);
        }
        let ghost mut k: nat = 0;
        let mut content = String::new();
        let mut bad: Vec<Option<char>> = Vec::new();
        loop
            invariant
                self.wf(),
                start == *old(self),
                Self::moved(start, *self, k),
                string_body(start.ahead()).0 == content@ + string_body(self.ahead()).0,
                string_body(start.ahead()).3 == bad@ + string_body(self.ahead()).3,
                string_body(start.ahead()).1 == k + string_body(self.ahead()).1,
                string_body(start.ahead()).2 == string_body(self.ahead()).2,
            decreases self.ahead().len(),
        {
            let ghost before = *self;
            let ghost s = self.ahead();
            match peek_char::<1>(&mut self.source) {
                None => {
                    proof {
                        assert(content@ + Seq::<char>::empty() =~= content@);
                        assert(bad@ + Seq::<Option<char>>::empty() =~= bad@);
                    }
                    return (content, false, bad);
                },
                Some(c) => {
                    if c == '"' {
                        self.advance();
                        proof {
                            Self::lemma_moved_chain(start, before, *self, k, 1);
                            assert(content@ + Seq::<char>::empty() =~= content@);
                            assert(bad@ + Seq::<Option<char>>::empty() =~= bad@);
                        }
                        return (content, true, bad);
                    } else if c == '\\' {
                        self.advance();
                        let ghost mid = *self;
                        proof {
                            Self::lemma_moved_chain(start, before, *self, k, 1);
                        }
                        let next = peek_char::<1>(&mut self.source);
                        let mapped = match next {
                            Some(e) => escape_char(e),
                            None => None,
                        };
                        match mapped {
                            Some(m) => {
                                self.advance();
                                proof {
                                    Self::lemma_moved_chain(start, mid, *self, k + 1, 1);
                                    assert(s.skip(2) =~= self.ahead());
                                    k = k + 2;
                                }
                                let ghost old_content = content@;
                                push_char(&mut content, m);
                                proof {
                                    assert(old_content + (seq![m] + string_body(self.ahead()).0)
                                        =~= content@ + string_body(self.ahead()).0);
                                }
                            },
                            None => {
                                proof {
                                    assert(s.drop_first() =~= self.ahead());
                                    k = k + 1;
                                }
                                let ghost old_bad = bad@;
                                bad.push(next);
                                proof {
                                    assert(old_bad + (seq![next] + string_body(self.ahead()).3)
                                        =~= bad@ + string_body(self.ahead()).3);
                                }
                                let ghost old_content = content@;
                                push_char(&mut content, '\\');
                                proof {
                                    assert(old_content + (seq!['\\'] + string_body(self.ahead()).0)
                                        =~= content@ + string_body(self.ahead()).0);
                                }
                            },
                        }
                    } else {
                        self.advance();
                        proof {
                            Self::lemma_moved_chain(start, before, *self, k, 1);
                            k = k + 1;
                        }
                        let ghost old_content = content@;
                        push_char(&mut content, c);
                        proof {
                            assert(old_content + (seq![c] + string_body(self.ahead()).0)
                                =~= content@ + string_body(self.ahead()).0);
                        }
                    }
                },
            }
        }
    }

    /// Reads the rest of a numeral whose first digit was read.
    fn number(&mut self)
        requires
            old(self).wf(),
            old(self).lexeme@.len() == 1,
            is_digit(old(self).lexeme@[0]),
        ensures
            final(self).wf(),
            Self::moved(
                *old(self),
                *final(self),
                (numeral_len(old(self).lexeme@ + old(self).ahead()) - 1) as nat,
            ),
    {
        let ghost start = *self;
        let ghost s = self.lexeme@ + self.ahead();
        proof {
            assert(s.drop_first() =~= self.ahead());
            lemma_runs_bounded(self.ahead());
        }
        self.digits();
        let ghost a = digit_run(s);
        let ghost mid = *self;
        proof {
            assert(a == 1 + digit_run(start.ahead()));
            assert(self.ahead() =~= s.skip(a as int));
        }
        let first = peek_char::<1>(&mut self.source);
        let second = peek_char::<2>(&mut self.source);
        let fraction = match (first, second) {
            (Some(p), Some(d)) => p == '.' && '0' <= d && d <= '9',
            _ => false,
        };
        if fraction {
            self.advance();
            let ghost dot = *self;
            proof {
                Self::lemma_moved_chain(start, mid, *self, (a - 1) as nat, 1);
                assert(self.ahead() =~= s.skip((a + 1) as int));
            }
            self.digits();
            proof {
                Self::lemma_moved_chain(start, dot, *self, a, digit_run(s.skip((a + 1) as int)));
            }
        }
    }

    /// Reads the rest of the lexeme that `c`, just read, begins, and says
    /// what it makes.
    fn match_char(&mut self, c: char) -> (r: (Matched, Vec<Option<char>>))
        requires
            old(self).wf(),
            old(self).lexeme@ == seq![c],
        ensures
            final(self).wf(),
            Self::moved(*old(self), *final(self), (scan(seq![c] + old(self).ahead()).0 - 1) as nat),
            matched_view(r.0) == scan(seq![c] + old(self).ahead()).1,
            r.1@ == scan_escapes(seq![c] + old(self).ahead()),
    {
        let ghost start = *self;
        let ghost s = seq![c] + self.ahead();
        proof {
            assert(s.drop_first() =~= self.ahead());
            assert(s[0] == c);
            lemma_scan_len(s);
            Self::lemma_moved_none(start);
            if s.len() > 1 {
                assert(s[1] == self.ahead()[0]);
            }
        }
        if c == ' ' || c == '\t' || c == '\r' || c == '\n' {
            (None, Vec::new())
        } else if c == '"' {
            let (content, terminated, bad) = self.string();
            if terminated {
                (Some(Ok((TokenKind::STRING, Some(LiteralValue::String(content))))), bad)
            } else {
                let shown = escape_string(content.as_str());
                (Some(Err(ErrorKind::UnterminatedString(shown))), bad)
            }
        } else if '0' <= c && c <= '9' {
            self.number();
            proof {
                assert(self.lexeme@ =~= s.take(numeral_len(s) as int));
            }
            (Some(Ok((TokenKind::NUMBER, Some(LiteralValue::Number(Number::Numeral(self.lexeme.clone())))))), Vec::new())
        } else if ('a' <= c && c <= 'z') || ('A' <= c && c <= 'Z') || c == '_' {
            self.word();
            proof {
                assert(word_run(s) == 1 + word_run(start.ahead()));
                assert(self.lexeme@ =~= s.take(word_run(s) as int));
            }
            let kind = match TokenKind::is_keyword(self.lexeme.as_str()) {
                Some(k) => k,
                None => TokenKind::IDENTIFIER,
            };
            (Some(Ok((kind, Some(LiteralValue::String(self.lexeme.clone()))))), Vec::new())
        } else if c == '/' {
            if self.advance_if_eq('/') {
                let ghost mid = *self;
                self.line_comment();
                proof {
                    assert(mid.ahead() =~= s.skip(2));
                    Self::lemma_moved_chain(start, mid, *self, 1, line_run(s.skip(2)));
                }
                (None, Vec::new())
            } else {
                (Some(Ok((TokenKind::SLASH, None))), Vec::new())
            }
        } else if c == '!' || c == '=' || c == '>' || c == '<' {
            let equal = self.advance_if_eq('=');
            let kind = if c == '!' {
                if equal { TokenKind::BANG_EQUAL } else { TokenKind::BANG }
            } else if c == '=' {
                if equal { TokenKind::EQUAL_EQUAL } else { TokenKind::EQUAL }
            } else if c == '>' {
                if equal { TokenKind::GREATER_EQUAL } else { TokenKind::GREATER }
            } else {
                if equal { TokenKind::LESS_EQUAL } else { TokenKind::LESS }
            };
            (Some(Ok((kind, None))), Vec::new())
        } else if c == '(' {
            (Some(Ok((TokenKind::LEFT_PAREN, None))), Vec::new())
        } else if c == ')' {
            (Some(Ok((TokenKind::RIGHT_PAREN, None))), Vec::new())
        } else if c == '{' {
            (Some(Ok((TokenKind::LEFT_BRACE, None))), Vec::new())
        } else if c == '}' {
            (Some(Ok((TokenKind::RIGHT_BRACE, None))), Vec::new())
        } else if c == ',' {
            (Some(Ok((TokenKind::COMMA, None))), Vec::new())
        } else if c == '.' {
            (Some(Ok((TokenKind::DOT, None))), Vec::new())
        } else if c == '-' {
            (Some(Ok((TokenKind::MINUS, None))), Vec::new())
        } else if c == '+' {
            (Some(Ok((TokenKind::PLUS, None))), Vec::new())
        } else if c == ';' {
            (Some(Ok((TokenKind::SEMICOLON, None))), Vec::new())
        } else if c == '*' {
            (Some(Ok((TokenKind::STAR, None))), Vec::new())
        } else {
            (Some(Err(ErrorKind::UnmatchedCharacter(c))), Vec::new())
        }
    }

    /// Reports each escape of `bad` at the current span.
    fn report_escapes(&mut self, bad: &Vec<Option<char>>)
        ensures
            final(self).reported() == old(self).reported() + escape_reports(bad@, old(self).span),
            final(self).ahead() == old(self).ahead(),
            final(self).span == old(self).span,
            final(self).lexeme == old(self).lexeme,
            final(self).wf() == old(self).wf(),
    {
        let mut i: usize = 0;
        proof {
            assert(escape_reports(bad@.take(0), old(self).span) =~= Seq::<ErrorView>::empty());
            assert(self.reported() + Seq::<ErrorView>::empty() =~= self.reported());
        }
        while i < bad.len()
            invariant
                i <= bad@.len(),
                self.reported() == old(self).reported() + escape_reports(bad@.take(i as int), old(self).span),
                self.ahead() == old(self).ahead(),
                self.span == old(self).span,
                self.lexeme == old(self).lexeme,
            decreases bad@.len() - i,
        {
            let ghost before = self.diagnostics@;
            self.diagnostics.push(Error::spanned(self.span, ErrorKind::InvalidEscape(bad[i])));
            proof {
                assert(error_views(self.diagnostics@) =~= error_views(before).push(self.diagnostics@.last()@));
                assert(bad@.take(i + 1).drop_last() =~= bad@.take(i as int));
                assert(escape_reports(bad@.take(i + 1), old(self).span) =~= escape_reports(
                    bad@.take(i as int),
                    old(self).span,
                ).push(ErrorView { kind: ErrorKindView::InvalidEscape(bad@[i as int]), span: old(self).span }));
            }
            i = i + 1;
        }
        assert(bad@.take(bad@.len() as int) =~= bad@);
    }

    /// The next token, or the error of the next lexeme that makes none;
    /// nothing once the text is used up. Blanks and comments are passed over.
    pub fn next(&mut self) -> (r: Option<Result<Token, Error>>)
        requires
            old(self).wf(),
        ensures
            final(self).wf(),
            pulled(r) == next_scan(old(self).ahead(), old(self).position()).0,
            final(self).ahead() == next_scan(old(self).ahead(), old(self).position()).1,
            final(self).position() == next_scan(old(self).ahead(), old(self).position()).2,
            final(self).reported() == old(self).reported() + next_scan(
                old(self).ahead(),
                old(self).position(),
            ).3,
    {
        loop
            invariant
                self.wf(),
                next_scan(self.ahead(), self.span) == next_scan(old(self).ahead(), old(self).span),
                self.diagnostics == old(self).diagnostics,
            decreases self.ahead().len(),
        {
            let ghost sp = self.span;
            self.span.reset();
            self.lexeme = String::new();
            let ghost st = *self;
            let ghost rest = self.ahead();
            match self.advance() {
                None => {
                    proof {
                        assert(self.reported() + Seq::<ErrorView>::empty() =~= self.reported());
                    }
                    return None;
                },
                Some(c) => {
                    let ghost mid = *self;
                    proof {
                        assert(mid.lexeme@ =~= seq![c]);
                        assert(seq![c] + mid.ahead() =~= rest);
                        lemma_scan_len(rest);
                    }
                    let (m, bad) = self.match_char(c);
                    proof {
                        Self::lemma_moved_chain(st, mid, *self, 1, (scan(rest).0 - 1) as nat);
                        assert(self.lexeme@ =~= rest.take(scan(rest).0 as int));
                    }
                    if m.is_some() {
                        self.report_escapes(&bad);
                    }
                    match m {
                        None => {},
                        Some(Ok((kind, literal))) => {
                            let lexeme = self.lexeme.clone();
                            return Some(Ok(Token { kind, lexeme, literal, span: self.span }));
                        },
                        Some(Err(kind)) => {
                            return Some(Err(Error::spanned(self.span, kind)));
                        },
                    }
                },
            }
        }
    }
}


/// Text made only of blanks and line comments.
pub open spec fn only_blanks(s: Seq<char>) -> bool
    decreases s.len(),
{
    if s.len() == 0 {
        true
    } else if is_blank(s[0]) {
        only_blanks(s.drop_first())
    } else if s.len() >= 2 && s[0] == '/' && s[1] == '/' && 2 + line_run(s.skip(2)) <= s.len() {
        only_blanks(s.skip((2 + line_run(s.skip(2))) as int))
    } else {
        false
    }
}

/// A text of blanks and comments alone makes no token and no error: the
/// first pull on its stream already finds it used up.
pub proof fn lemma_blank_text_yields_nothing(s: Seq<char>, sp: Span)
    requires
        only_blanks(s),
    ensures
        next_scan(s, sp).0 is None,
    decreases s.len(),
{
    if s.len() > 0 {
        lemma_scan_len(s);
        let n = scan(s).0;
        let after = span_over(sp.restarted(), s.take(n as int));
        if is_blank(s[0]) {
            lemma_blank_text_yields_nothing(s.drop_first(), after);
            assert(s.skip(1) =~= s.drop_first());
        } else {
            lemma_blank_text_yields_nothing(s.skip(n as int), after);
        }
    }
}

/// A numeral: digits, then optionally a point and more digits.
pub open spec fn is_numeral(s: Seq<char>) -> bool {
    let a = digit_run(s);
    a > 0 && (a == s.len() || (a + 1 < s.len() && s[a as int] == '.' && digit_run(
        s.skip((a + 1) as int),
    ) == s.len() - a - 1))
}

proof fn lemma_digit_run_all(s: Seq<char>, k: nat)
    requires
        k <= digit_run(s),
    ensures
        forall|i: int| 0 <= i < k ==> is_digit(#[trigger] s[i]),
    decreases k,
{
    lemma_runs_bounded(s);
    if k > 0 {
        lemma_digit_run_all(s.drop_first(), (k - 1) as nat);
        assert forall|i: int| 0 <= i < k implies is_digit(#[trigger] s[i]) by {
            if i > 0 {
                assert(s[i] == s.drop_first()[i - 1]);
            }
        }
    }
}

/// A text that is one numeral scans to a single number token whose lexeme
/// and payload are that numeral, character for character.
pub proof fn lemma_numeral_scans_whole(s: Seq<char>, sp: Span)
    requires
        is_numeral(s),
    ensures
        next_scan(s, sp).0 == Some(
            Ok::<TokenView, ErrorView>(
                TokenView {
                    kind: TokenKind::NUMBER,
                    lexeme: s,
                    literal: Some(LiteralView::Number(NumberView::Numeral(s))),
                    span: span_over(sp.restarted(), s),
                },
            ),
        ),
        next_scan(s, sp).1.len() == 0,
{
    lemma_runs_bounded(s);
    lemma_digit_run_all(s, digit_run(s));
    assert(is_digit(s[0]));
    assert(numeral_len(s) == s.len());
    assert(s.take(s.len() as int) =~= s);
}
} // verus!
