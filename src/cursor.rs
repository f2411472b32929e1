//! The lookahead iterators that the scanner and the parser read from, and the
//! few of their operations that the library uses.

use vstd::prelude::*;

use peekaboo::{IteratorExt, Peekable};
use std::vec::IntoIter;

use crate::token::{Token, TokenKind};

verus! {

#[verifier::external_type_specification]
#[verifier::external_body]
#[verifier::reject_recursive_types(I)]
pub struct ExPeekable<I: Iterator, const N: usize>(Peekable<I, N>);

/// The characters that a character cursor has yet to yield, in order.
pub uninterp spec fn chars_ahead(p: Peekable<IntoIter<char>, 2>) -> Seq<char>;

/// The tokens that a token cursor has yet to yield, in order.
pub uninterp spec fn tokens_ahead(p: Peekable<IntoIter<Token>, 1>) -> Seq<Token>;

/// Relies on `IteratorExt::peekable_n` of peekaboo: the new cursor yields the
/// vector's characters in order, with two of lookahead.
#[verifier::external_body]
pub(crate) fn char_cursor(chars: Vec<char>) -> (r: Peekable<IntoIter<char>, 2>)
    ensures
        chars_ahead(r) == chars@,
{
    chars.into_iter().peekable_n::<2>()
}

/// Relies on `Iterator::next` of peekaboo's `Peekable`: yields the first
/// character that is left, or nothing once none is.
#[verifier::external_body]
pub(crate) fn next_char(p: &mut Peekable<IntoIter<char>, 2>) -> (r: Option<char>)
    ensures
        chars_ahead(*old(p)).len() == 0 ==> r is None && chars_ahead(*final(p)) == chars_ahead(*old(p)),
        chars_ahead(*old(p)).len() > 0 ==> r == Some(chars_ahead(*old(p))[0])
            && chars_ahead(*final(p)) == chars_ahead(*old(p)).drop_first(),
{
    p.next()
}

/// Relies on `Peekable::peek` of peekaboo: the character `IDX` places ahead,
/// without consuming anything. It panics unless `1 <= IDX <= 2`.
#[verifier::external_body]
pub(crate) fn peek_char<const IDX: usize>(p: &mut Peekable<IntoIter<char>, 2>) -> (r: Option<char>)
    requires
        1 <= IDX <= 2,
    ensures
        chars_ahead(*final(p)) == chars_ahead(*old(p)),
        IDX <= chars_ahead(*old(p)).len() ==> r == Some(chars_ahead(*old(p))[IDX - 1]),
        IDX > chars_ahead(*old(p)).len() ==> r is None,
{
    p.peek::<IDX>().copied()
}

/// Relies on `IteratorExt::peekable_n` of peekaboo: the new cursor yields the
/// vector's tokens in order, with one of lookahead.
#[verifier::external_body]
pub(crate) fn token_cursor(tokens: Vec<Token>) -> (r: Peekable<IntoIter<Token>, 1>)
    ensures
        tokens_ahead(r) == tokens@,
{
    tokens.into_iter().peekable_n::<1>()
}

/// Relies on `Iterator::next` of peekaboo's `Peekable`: yields the first
/// token that is left, or nothing once none is.
#[verifier::external_body]
pub(crate) fn next_token(p: &mut Peekable<IntoIter<Token>, 1>) -> (r: Option<Token>)
    ensures
        tokens_ahead(*old(p)).len() == 0 ==> r is None && tokens_ahead(*final(p)) == tokens_ahead(*old(p)),
        tokens_ahead(*old(p)).len() > 0 ==> r == Some(tokens_ahead(*old(p))[0])
            && tokens_ahead(*final(p)) == tokens_ahead(*old(p)).drop_first(),
{
    p.next()
}

/// Relies on `Peekable::peek` of peekaboo: the kind of the next token,
/// without consuming it.
#[verifier::external_body]
pub(crate) fn peek_kind(p: &mut Peekable<IntoIter<Token>, 1>) -> (r: Option<TokenKind>)
    ensures
        tokens_ahead(*final(p)) == tokens_ahead(*old(p)),
        tokens_ahead(*old(p)).len() > 0 ==> r == Some(tokens_ahead(*old(p))[0].kind),
        tokens_ahead(*old(p)).len() == 0 ==> r is None,
{
    p.peek::<1>().map(|t| t.kind)
}

} // verus!
