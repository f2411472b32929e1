use vstd::prelude::*;

use crate::span::Span;
use crate::text::{push_char, push_text, text_is};

verus! {

/// The kinds of token that the scanner produces.
#[derive(Copy, Clone, Debug, PartialEq, Eq, Structural)]
#[allow(non_camel_case_types)]
pub enum TokenKind {
    // Single-character tokens.
    LEFT_PAREN,
    RIGHT_PAREN,
    LEFT_BRACE,
    RIGHT_BRACE,
    COMMA,
    DOT,
    MINUS,
    PLUS,
    SEMICOLON,
    SLASH,
    STAR,
    // One or two character tokens.
    BANG,
    BANG_EQUAL,
    EQUAL,
    EQUAL_EQUAL,
    GREATER,
    GREATER_EQUAL,
    LESS,
    LESS_EQUAL,
    // Literals.
    IDENTIFIER,
    STRING,
    NUMBER,
    // Keywords.
    AND,
    CLASS,
    ELSE,
    FALSE,
    FUN,
    FOR,
    IF,
    NIL,
    OR,
    PRINT,
    RETURN,
    SUPER,
    THIS,
    TRUE,
    VAR,
    WHILE,
    EOF,
}

/// The keyword that `s` spells, if it spells one.
pub open spec fn keyword_of(s: Seq<char>) -> Option<TokenKind> {
    if s == seq!['a', 'n', 'd'] {
        Some(TokenKind::AND)
    } else if s == seq!['c', 'l', 'a', 's', 's'] {
        Some(TokenKind::CLASS)
    } else if s == seq!['e', 'l', 's', 'e'] {
        Some(TokenKind::ELSE)
    } else if s == seq!['f', 'a', 'l', 's', 'e'] {
        Some(TokenKind::FALSE)
    } else if s == seq!['f', 'u', 'n'] {
        Some(TokenKind::FUN)
    } else if s == seq!['f', 'o', 'r'] {
        Some(TokenKind::FOR)
    } else if s == seq!['i', 'f'] {
        Some(TokenKind::IF)
    } else if s == seq!['n', 'i', 'l'] {
        Some(TokenKind::NIL)
    } else if s == seq!['o', 'r'] {
        Some(TokenKind::OR)
    } else if s == seq!['p', 'r', 'i', 'n', 't'] {
        Some(TokenKind::PRINT)
    } else if s == seq!['r', 'e', 't', 'u', 'r', 'n'] {
        Some(TokenKind::RETURN)
    } else if s == seq!['s', 'u', 'p', 'e', 'r'] {
        Some(TokenKind::SUPER)
    } else if s == seq!['t', 'h', 'i', 's'] {
        Some(TokenKind::THIS)
    } else if s == seq!['t', 'r', 'u', 'e'] {
        Some(TokenKind::TRUE)
    } else if s == seq!['v', 'a', 'r'] {
        Some(TokenKind::VAR)
    } else if s == seq!['w', 'h', 'i', 'l', 'e'] {
        Some(TokenKind::WHILE)
    } else {
        None
    }
}

/// The short name under which a kind is shown.
pub open spec fn kind_name(k: TokenKind) -> Seq<char> {
    match k {
        TokenKind::LEFT_PAREN => seq!['('],
        TokenKind::RIGHT_PAREN => seq![')'],
        TokenKind::LEFT_BRACE => seq!['{'],
        TokenKind::RIGHT_BRACE => seq!['}'],
        TokenKind::COMMA => seq![','],
        TokenKind::DOT => seq!['.'],
        TokenKind::MINUS => seq!['-'],
        TokenKind::PLUS => seq!['+'],
        TokenKind::SEMICOLON => seq![';'],
        TokenKind::SLASH => seq!['/'],
        TokenKind::STAR => seq!['*'],
        TokenKind::BANG => seq!['!'],
        TokenKind::BANG_EQUAL => seq!['!', '='],
        TokenKind::EQUAL => seq!['='],
        TokenKind::EQUAL_EQUAL => seq!['=', '='],
        TokenKind::GREATER => seq!['>'],
        TokenKind::GREATER_EQUAL => seq!['>', '='],
        TokenKind::LESS => seq!['<'],
        TokenKind::LESS_EQUAL => seq!['<', '='],
        TokenKind::IDENTIFIER => seq!['I', 'd', 'e', 'n', 't'],
        TokenKind::STRING => seq!['s', 't', 'r', 'i', 'n', 'g'],
        TokenKind::NUMBER => seq!['n', 'u', 'm', 'b', 'e', 'r'],
        TokenKind::AND => seq!['a', 'n', 'd'],
        TokenKind::CLASS => seq!['c', 'l', 'a', 's', 's'],
        TokenKind::ELSE => seq!['e', 'l', 's', 'e'],
        TokenKind::FALSE => seq!['f', 'a', 'l', 's', 'e'],
        TokenKind::FUN => seq!['f', 'u', 'n'],
        TokenKind::FOR => seq!['f', 'o', 'r'],
        TokenKind::IF => seq!['i', 'f'],
        TokenKind::NIL => seq!['(', ')'],
        TokenKind::OR => seq!['o', 'r'],
        TokenKind::PRINT => seq!['p', 'r', 'i', 'n', 't'],
        TokenKind::RETURN => seq!['r', 'e', 't', 'u', 'r', 'n'],
        TokenKind::SUPER => seq!['s', 'u', 'p', 'e', 'r'],
        TokenKind::THIS => seq!['t', 'h', 'i', 's'],
        TokenKind::TRUE => seq!['t', 'r', 'u', 'e'],
        TokenKind::VAR => seq!['v', 'a', 'r'],
        TokenKind::WHILE => seq!['w', 'h', 'i', 'l', 'e'],
        TokenKind::EOF => seq!['<', 'E', 'O', 'F', '>'],
    }
}

impl TokenKind {
    /// The keyword that `s` spells, if it spells one.
    pub fn is_keyword(s: &str) -> (r: Option<TokenKind>)
        ensures
            r == keyword_of(s@),
    {
        proof {
            reveal_strlit("and");
            assert("and"@ =~= seq!['a', 'n', 'd']);
            reveal_strlit("class");
            assert("class"@ =~= seq!['c', 'l', 'a', 's', 's']);
            reveal_strlit("else");
            assert("else"@ =~= seq!['e', 'l', 's', 'e']);
            reveal_strlit("false");
            assert("false"@ =~= seq!['f', 'a', 'l', 's', 'e']);
            reveal_strlit("fun");
            assert("fun"@ =~= seq!['f', 'u', 'n']);
            reveal_strlit("for");
            assert("for"@ =~= seq!['f', 'o', 'r']);
            reveal_strlit("if");
            assert("if"@ =~= seq!['i', 'f']);
            reveal_strlit("nil");
            assert("nil"@ =~= seq!['n', 'i', 'l']);
            reveal_strlit("or");
            assert("or"@ =~= seq!['o', 'r']);
            reveal_strlit("print");
            assert("print"@ =~= seq!['p', 'r', 'i', 'n', 't']);
            reveal_strlit("return");
            assert("return"@ =~= seq!['r', 'e', 't', 'u', 'r', 'n']);
            reveal_strlit("super");
            assert("super"@ =~= seq!['s', 'u', 'p', 'e', 'r']);
            reveal_strlit("this");
            assert("this"@ =~= seq!['t', 'h', 'i', 's']);
            reveal_strlit("true");
            assert("true"@ =~= seq!['t', 'r', 'u', 'e']);
            reveal_strlit("var");
            assert("var"@ =~= seq!['v', 'a', 'r']);
            reveal_strlit("while");
            assert("while"@ =~= seq!['w', 'h', 'i', 'l', 'e']);
        }
        if text_is(s, "and") {
            Some(TokenKind::AND)
        } else if text_is(s, "class") {
            Some(TokenKind::CLASS)
        } else if text_is(s, "else") {
            Some(TokenKind::ELSE)
        } else if text_is(s, "false") {
            Some(TokenKind::FALSE)
        } else if text_is(s, "fun") {
            Some(TokenKind::FUN)
        } else if text_is(s, "for") {
            Some(TokenKind::FOR)
        } else if text_is(s, "if") {
            Some(TokenKind::IF)
        } else if text_is(s, "nil") {
            Some(TokenKind::NIL)
        } else if text_is(s, "or") {
            Some(TokenKind::OR)
        } else if text_is(s, "print") {
            Some(TokenKind::PRINT)
        } else if text_is(s, "return") {
            Some(TokenKind::RETURN)
        } else if text_is(s, "super") {
            Some(TokenKind::SUPER)
        } else if text_is(s, "this") {
            Some(TokenKind::THIS)
        } else if text_is(s, "true") {
            Some(TokenKind::TRUE)
        } else if text_is(s, "var") {
            Some(TokenKind::VAR)
        } else if text_is(s, "while") {
            Some(TokenKind::WHILE)
        } else {
            None
        }
    }

    /// Appends the kind's short name to `s`.
    pub fn push_name(&self, s: &mut String)
        ensures
            final(s)@ == old(s)@ + kind_name(*self),
    {
        let name: &str = match self {
            TokenKind::LEFT_PAREN => "(",
            TokenKind::RIGHT_PAREN => ")",
            TokenKind::LEFT_BRACE => "{",
            TokenKind::RIGHT_BRACE => "}",
            TokenKind::COMMA => ",",
            TokenKind::DOT => ".",
            TokenKind::MINUS => "-",
            TokenKind::PLUS => "+",
            TokenKind::SEMICOLON => ";",
            TokenKind::SLASH => "/",
            TokenKind::STAR => "*",
            TokenKind::BANG => "!",
            TokenKind::BANG_EQUAL => "!=",
            TokenKind::EQUAL => "=",
            TokenKind::EQUAL_EQUAL => "==",
            TokenKind::GREATER => ">",
            TokenKind::GREATER_EQUAL => ">=",
            TokenKind::LESS => "<",
            TokenKind::LESS_EQUAL => "<=",
            TokenKind::IDENTIFIER => "Ident",
            TokenKind::STRING => "string",
            TokenKind::NUMBER => "number",
            TokenKind::AND => "and",
            TokenKind::CLASS => "class",
            TokenKind::ELSE => "else",
            TokenKind::FALSE => "false",
            TokenKind::FUN => "fun",
            TokenKind::FOR => "for",
            TokenKind::IF => "if",
            TokenKind::NIL => "()",
            TokenKind::OR => "or",
            TokenKind::PRINT => "print",
            TokenKind::RETURN => "return",
            TokenKind::SUPER => "super",
            TokenKind::THIS => "this",
            TokenKind::TRUE => "true",
            TokenKind::VAR => "var",
            TokenKind::WHILE => "while",
            TokenKind::EOF => "<EOF>",
        };
        proof {
            reveal_strlit("(");
            reveal_strlit(")");
            reveal_strlit("{");
            reveal_strlit("}");
            reveal_strlit(",");
            reveal_strlit(".");
            reveal_strlit("-");
            reveal_strlit("+");
            reveal_strlit(";");
            reveal_strlit("/");
            reveal_strlit("*");
            reveal_strlit("!");
            reveal_strlit("!=");
            reveal_strlit("=");
            reveal_strlit("==");
            reveal_strlit(">");
            reveal_strlit(">=");
            reveal_strlit("<");
            reveal_strlit("<=");
            reveal_strlit("Ident");
            reveal_strlit("string");
            reveal_strlit("number");
            reveal_strlit("and");
            reveal_strlit("class");
            reveal_strlit("else");
            reveal_strlit("false");
            reveal_strlit("fun");
            reveal_strlit("for");
            reveal_strlit("if");
            reveal_strlit("()");
            reveal_strlit("or");
            reveal_strlit("print");
            reveal_strlit("return");
            reveal_strlit("super");
            reveal_strlit("this");
            reveal_strlit("true");
            reveal_strlit("var");
            reveal_strlit("while");
            reveal_strlit("<EOF>");
        }
        assert(name@ == kind_name(*self));
        push_text(s, name);
    }
}

/// How one character is written inside a quoted string.
pub open spec fn escaped_char(c: char) -> Seq<char> {
    if c == '\n' {
        seq!['\\', 'n']
    } else if c == '\\' {
        seq!['\\', '\\']
    } else if c == '"' {
        seq!['\\', '"']
    } else {
        seq![c]
    }
}

/// The characters of `s`, each written as `escaped_char` writes it.
pub open spec fn escaped_body(s: Seq<char>) -> Seq<char>
    decreases s.len(),
{
    if s.len() == 0 {
        Seq::empty()
    } else {
        escaped_body(s.drop_last()) + escaped_char(s.last())
    }
}

/// `s` between double quotes, with newlines, backslashes and quotes escaped.
pub open spec fn quoted(s: Seq<char>) -> Seq<char> {
    seq!['"'] + escaped_body(s) + seq!['"']
}

/// Appends `quoted(t)` to `out`.
pub fn push_quoted(out: &mut String, t: &str)
    ensures
        final(out)@ == old(out)@ + quoted(t@),
{
    let ghost start = out@;
    let n = t.unicode_len();
    push_char(out, '"');
    let mut i: usize = 0;
    while i < n
        invariant
            n == t@.len(),
            i <= n,
            out@ == start + seq!['"'] + escaped_body(t@.take(i as int)),
        decreases n - i,
    {
        let c = t.get_char(i);
        if c == '\n' {
            push_char(out, '\\');
            push_char(out, 'n');
        } else if c == '\\' {
            push_char(out, '\\');
            push_char(out, '\\');
        } else if c == '"' {
            push_char(out, '\\');
            push_char(out, '"');
        } else {
            push_char(out, c);
        }
        assert(t@.take(i + 1).drop_last() == t@.take(i as int));
        assert(out@ =~= start + seq!['"'] + escaped_body(t@.take(i + 1)));
        i = i + 1;
    }
    assert(t@.take(n as int) == t@);
    push_char(out, '"');
    assert(out@ =~= start + quoted(t@));
}

/// Quotes a string for display, escaping newlines, backslashes and quotes.
pub fn escape_string(s: &str) -> (r: String)
    ensures
        r@ == quoted(s@),
{
    let mut r = String::new();
    push_quoted(&mut r, s);
    assert(r@ =~= quoted(s@));
    r
}

/// A number, as far as this library knows it. The library never interprets
/// a number's value: that is the host's work.
#[derive(Clone, Debug, PartialEq)]
pub enum Number {
    /// A numeral as written in the source, digits with an optional fraction.
    Numeral(String),
    /// A value that the host computed: its IEEE-754 binary64 bit pattern and
    /// its decimal rendering.
    Value { bits: u64, text: String },
}

/// What a number is to a proof: the numeral's characters, or the bit
/// pattern and rendering.
pub ghost enum NumberView {
    Numeral(Seq<char>),
    Value(u64, Seq<char>),
}

impl View for Number {
    type V = NumberView;

    open spec fn view(&self) -> NumberView {
        match self {
            Number::Numeral(s) => NumberView::Numeral(s@),
            Number::Value { bits, text } => NumberView::Value(*bits, text@),
        }
    }
}

/// The bit pattern of `0.0`.
pub const ZERO_BITS: u64 = 0;

/// The bit pattern of `1.0`.
pub const ONE_BITS: u64 = 0x3FF0_0000_0000_0000;

/// The number that a boolean stands for in arithmetic.
pub open spec fn bool_number(b: bool) -> NumberView {
    if b {
        NumberView::Value(ONE_BITS, seq!['1'])
    } else {
        NumberView::Value(ZERO_BITS, seq!['0'])
    }
}

/// How a number is shown: its numeral or its rendering.
pub open spec fn number_text(n: NumberView) -> Seq<char> {
    match n {
        NumberView::Numeral(s) => s,
        NumberView::Value(_, t) => t,
    }
}

impl Number {
    /// `0.0` for false and `1.0` for true.
    pub fn from_bool(b: bool) -> (r: Number)
        ensures
            r@ == bool_number(b),
    {
        let mut text = String::new();
        if b {
            push_char(&mut text, '1');
            assert(text@ =~= seq!['1']);
            Number::Value { bits: ONE_BITS, text }
        } else {
            push_char(&mut text, '0');
            assert(text@ =~= seq!['0']);
            Number::Value { bits: ZERO_BITS, text }
        }
    }

    /// A copy of this number.
    pub fn duplicate(&self) -> (r: Number)
        ensures
            r == *self,
    {
        match self {
            Number::Numeral(s) => Number::Numeral(s.clone()),
            Number::Value { bits, text } => Number::Value { bits: *bits, text: text.clone() },
        }
    }

    /// Appends how the number is shown.
    pub fn push_text(&self, out: &mut String)
        ensures
            final(out)@ == old(out)@ + number_text(self@),
    {
        match self {
            Number::Numeral(s) => push_text(out, s.as_str()),
            Number::Value { text, .. } => push_text(out, text.as_str()),
        }
    }
}

/// A literal: a token's payload and the evaluator's runtime value.
#[derive(Clone, Debug, PartialEq)]
pub enum LiteralValue {
    Number(Number),
    String(String),
    Bool(bool),
    Nil,
}

/// What a literal is to a proof.
pub ghost enum LiteralView {
    Number(NumberView),
    Str(Seq<char>),
    Bool(bool),
    Nil,
}

impl View for LiteralValue {
    type V = LiteralView;

    open spec fn view(&self) -> LiteralView {
        match self {
            LiteralValue::Number(n) => LiteralView::Number(n@),
            LiteralValue::String(s) => LiteralView::Str(s@),
            LiteralValue::Bool(b) => LiteralView::Bool(*b),
            LiteralValue::Nil => LiteralView::Nil,
        }
    }
}

/// How a literal is shown: numbers as they are shown, strings quoted.
pub open spec fn literal_text(v: LiteralView) -> Seq<char> {
    match v {
        LiteralView::Number(n) => number_text(n),
        LiteralView::Str(s) => quoted(s),
        LiteralView::Bool(b) => if b { seq!['t', 'r', 'u', 'e'] } else { seq!['f', 'a', 'l', 's', 'e'] },
        LiteralView::Nil => seq!['n', 'i', 'l'],
    }
}

impl LiteralValue {
    /// A copy of this value.
    pub fn duplicate(&self) -> (r: LiteralValue)
        ensures
            r == *self,
    {
        match self {
            LiteralValue::Number(n) => LiteralValue::Number(n.duplicate()),
            LiteralValue::String(s) => LiteralValue::String(s.clone()),
            LiteralValue::Bool(b) => LiteralValue::Bool(*b),
            LiteralValue::Nil => LiteralValue::Nil,
        }
    }

    /// Appends `literal_text` of this value.
    pub fn push_text(&self, out: &mut String)
        ensures
            final(out)@ == old(out)@ + literal_text(self@),
    {
        match self {
            LiteralValue::Number(n) => n.push_text(out),
            LiteralValue::String(s) => push_quoted(out, s.as_str()),
            LiteralValue::Bool(b) => {
                proof {
                    reveal_strlit("true");
                    reveal_strlit("false");
                }
                if *b {
                    push_text(out, "true");
                } else {
                    push_text(out, "false");
                }
            },
            LiteralValue::Nil => {
                proof {
                    reveal_strlit("nil");
                }
                push_text(out, "nil");
            },
        }
    }

    /// The value shown as `literal_text` describes.
    pub fn render(&self) -> (r: String)
        ensures
            r@ == literal_text(self@),
    {
        let mut r = String::new();
        self.push_text(&mut r);
        assert(r@ =~= literal_text(self@));
        r
    }
}

/// A scanned token: its kind, the source text it came from, its payload and
/// where it stands.
#[derive(Clone, Debug)]
pub struct Token {
    pub kind: TokenKind,
    pub lexeme: String,
    pub literal: Option<LiteralValue>,
    pub span: Span,
}

/// What a token is to a proof.
pub ghost struct TokenView {
    pub kind: TokenKind,
    pub lexeme: Seq<char>,
    pub literal: Option<LiteralView>,
    pub span: Span,
}

impl View for Token {
    type V = TokenView;

    open spec fn view(&self) -> TokenView {
        TokenView {
            kind: self.kind,
            lexeme: self.lexeme@,
            literal: match self.literal {
                Some(v) => Some(v@),
                None => None,
            },
            span: self.span,
        }
    }
}

/// How a token is shown: `[span] kind` and, where it has a payload,
/// `: payload`.
pub open spec fn token_text(t: TokenView) -> Seq<char> {
    let head = seq!['['] + t.span.text() + seq![']', ' '] + kind_name(t.kind);
    match t.literal {
        Some(v) => head + seq![':', ' '] + literal_text(v),
        None => head,
    }
}

impl Token {
    /// A copy of this token.
    pub fn duplicate(&self) -> (r: Token)
        ensures
            r == *self,
    {
        let literal = match &self.literal {
            Some(v) => Some(v.duplicate()),
            None => None,
        };
        Token { kind: self.kind, lexeme: self.lexeme.clone(), literal, span: self.span }
    }

    /// Appends `token_text` of this token.
    pub fn push_text(&self, out: &mut String)
        ensures
            final(out)@ == old(out)@ + token_text(self@),
    {
        let ghost start = out@;
        push_char(out, '[');
        let sp = self.span.render();
        push_text(out, sp.as_str());
        push_char(out, ']');
        push_char(out, ' ');
        self.kind.push_name(out);
        let ghost head = seq!['['] + self.span.text() + seq![']', ' '] + kind_name(self.kind);
        assert(out@ =~= start + head);
        match &self.literal {
            Some(v) => {
                push_char(out, ':');
                push_char(out, ' ');
                v.push_text(out);
                assert(out@ =~= start + token_text(self@));
            },
            None => {},
        }
    }

    /// The token shown as `token_text` describes.
    pub fn render(&self) -> (r: String)
        ensures
            r@ == token_text(self@),
    {
        let mut r = String::new();
        self.push_text(&mut r);
        assert(r@ =~= token_text(self@));
        r
    }
}

} // verus!
