use vstd::prelude::*;

use crate::text::{decimal, push_char, push_decimal};

verus! {

/// A range of source positions: lines count from 1, columns from 0, and the
/// end column is one past the last character.
#[derive(Clone, Copy, Debug, PartialEq, Eq, Structural)]
pub struct Span {
    pub start_line: usize,
    pub end_line: usize,
    pub start_character: usize,
    pub end_character: usize,
}

impl Span {
    /// The empty range at the start of the first line.
    pub open spec fn initial() -> Span {
        Span { start_line: 1, end_line: 1, start_character: 0, end_character: 0 }
    }

    /// The empty range at the start of the first line.
    pub fn new() -> (r: Self)
        ensures
            r == Span::initial(),
    {
        Span { start_line: 1, start_character: 0, end_line: 1, end_character: 0 }
    }

    /// The range after one more character on the current line.
    pub open spec fn advanced(self) -> Span {
        Span { end_character: (self.end_character + 1) as usize, ..self }
    }

    /// The range after a line break.
    pub open spec fn broken(self) -> Span {
        Span { end_line: (self.end_line + 1) as usize, start_character: 0, end_character: 0, ..self }
    }

    /// The empty range that starts where this one ends.
    pub open spec fn restarted(self) -> Span {
        Span { start_character: self.end_character, start_line: self.end_line, ..self }
    }

    /// Extends the end column by one character.
    pub fn advance(&mut self)
        requires
            old(self).end_character < usize::MAX,
        ensures
            *final(self) == old(self).advanced(),
    {
        self.end_character += 1;
    }

    /// Moves the end to the start of the next line.
    pub fn newline(&mut self)
        requires
            old(self).end_line < usize::MAX,
        ensures
            *final(self) == old(self).broken(),
    {
        self.end_line += 1;
        self.start_character = 0;
        self.end_character = 0;
    }

    /// Collapses the start onto the end, where the next lexeme begins.
    pub fn reset(&mut self)
        ensures
            *final(self) == old(self).restarted(),
    {
        self.start_character = self.end_character;
        self.start_line = self.end_line;
    }

    /// The last column covered: one before the end, or 0 for an empty range
    /// at the start of a line.
    pub open spec fn last_column(self) -> nat {
        if self.end_character == 0 { 0 } else { (self.end_character - 1) as nat }
    }

    /// The textual form: `line:col` for one character on one line,
    /// `line:start-end` for several characters on one line, and
    /// `first-last:col` or `first-last:start-end` across lines.
    pub open spec fn text(self) -> Seq<char> {
        let lines = if self.end_line == self.start_line {
            decimal(self.start_line as nat)
        } else {
            decimal(self.start_line as nat).push('-') + decimal(self.end_line as nat)
        };
        let columns = if self.end_character == self.start_character + 1 {
            decimal(self.start_character as nat)
        } else {
            decimal(self.start_character as nat).push('-') + decimal(self.last_column())
        };
        lines.push(':') + columns
    }

    /// Renders the range as `text` describes.
    pub fn render(&self) -> (r: String)
        ensures
            r@ == self.text(),
    {
        let mut s = String::new();
        push_decimal(&mut s, self.start_line);
        if self.end_line != self.start_line {
            push_char(&mut s, '-');
            push_decimal(&mut s, self.end_line);
        }
        push_char(&mut s, ':');
        push_decimal(&mut s, self.start_character);
        if self.start_character >= usize::MAX || self.end_character != self.start_character + 1 {
            push_char(&mut s, '-');
            let last: usize = if self.end_character == 0 { 0 } else { self.end_character - 1 };
            push_decimal(&mut s, last);
        }
        let ghost lines = if self.end_line == self.start_line {
            decimal(self.start_line as nat)
        } else {
            decimal(self.start_line as nat).push('-') + decimal(self.end_line as nat)
        };
        assert(s@ =~= self.text());
        s
    }
}

} // verus!
