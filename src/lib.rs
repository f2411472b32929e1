//! A front end for a small expression language: a scanner that turns source
//! text into tokens, a recursive-descent parser that builds an expression
//! tree, two renderers for that tree, and an evaluator that reduces it to a
//! value.
//!
//! Numbers are IEEE-754 doubles. The library never interprets their value: a
//! number is carried either as the numeral written in the source or as the
//! bit pattern and rendering that the host computed, and every operation that
//! depends on the numeric value is asked of the host (see `evaluate`).

pub mod ast;
pub mod error;
pub mod evaluate;
mod cursor;
pub mod lex;
pub mod parse;
pub mod printer;
pub mod span;
pub mod text;
pub mod token;

pub use error::{LoxError, RuntimeError};
pub use evaluate::Evaluator;
pub use lex::Lexer;
pub use parse::Parser;
