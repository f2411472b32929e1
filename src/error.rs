//! The errors of the whole pipeline.

use vstd::prelude::*;

use crate::{evaluate, lex, parse};

verus! {

/// An error at any stage: scanning, parsing or evaluation.
#[derive(Debug)]
pub enum LoxError {
    LexerError(lex::Error),
    ParserError(parse::Error),
    RuntimeError(RuntimeError),
}

/// An error while running a program.
#[derive(Debug)]
pub enum RuntimeError {
    EvaluationError(evaluate::Error),
}

impl From<lex::Error> for LoxError {
    fn from(error: lex::Error) -> (r: LoxError) {
        LoxError::LexerError(error)
    }
}

impl vstd::std_specs::convert::FromSpecImpl<lex::Error> for LoxError {
    open spec fn obeys_from_spec() -> bool {
        true
    }

    open spec fn from_spec(error: lex::Error) -> LoxError {
        LoxError::LexerError(error)
    }
}

impl From<parse::Error> for LoxError {
    fn from(error: parse::Error) -> (r: LoxError) {
        LoxError::ParserError(error)
    }
}

impl vstd::std_specs::convert::FromSpecImpl<parse::Error> for LoxError {
    open spec fn obeys_from_spec() -> bool {
        true
    }

    open spec fn from_spec(error: parse::Error) -> LoxError {
        LoxError::ParserError(error)
    }
}

impl From<evaluate::Error> for RuntimeError {
    fn from(error: evaluate::Error) -> (r: RuntimeError) {
        RuntimeError::EvaluationError(error)
    }
}

impl vstd::std_specs::convert::FromSpecImpl<evaluate::Error> for RuntimeError {
    open spec fn obeys_from_spec() -> bool {
        true
    }

    open spec fn from_spec(error: evaluate::Error) -> RuntimeError {
        RuntimeError::EvaluationError(error)
    }
}

impl From<evaluate::Error> for LoxError {
    fn from(error: evaluate::Error) -> (r: LoxError) {
        LoxError::RuntimeError(RuntimeError::EvaluationError(error))
    }
}

impl vstd::std_specs::convert::FromSpecImpl<evaluate::Error> for LoxError {
    open spec fn obeys_from_spec() -> bool {
        true
    }

    open spec fn from_spec(error: evaluate::Error) -> LoxError {
        LoxError::RuntimeError(RuntimeError::EvaluationError(error))
    }
}

/// How an error of any stage is described.
pub open spec fn lox_error_text(e: LoxError) -> Seq<char> {
    match e {
        LoxError::LexerError(x) => lex::lex_error_text(x@),
        LoxError::ParserError(x) => parse::parse_error_text(x),
        LoxError::RuntimeError(RuntimeError::EvaluationError(x)) => evaluate::eval_error_text(x),
    }
}

impl LoxError {
    /// The error described as its stage describes it.
    pub fn describe(&self) -> (r: String)
        ensures
            r@ == lox_error_text(*self),
    {
        match self {
            LoxError::LexerError(x) => x.describe(),
            LoxError::ParserError(x) => x.describe(),
            LoxError::RuntimeError(RuntimeError::EvaluationError(x)) => x.describe(),
        }
    }
}

} // verus!
