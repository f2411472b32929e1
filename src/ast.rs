//! The expression tree.

use vstd::prelude::*;

use crate::token::{LiteralValue, Token};

verus! {

/// A parenthesised expression.
#[derive(Debug)]
pub struct Grouping(pub Box<Expr>);

/// Two operands and the operator between them.
#[derive(Debug)]
pub struct Binary {
    pub left: Box<Expr>,
    pub operator: Token,
    pub right: Box<Expr>,
}

/// A prefix operator and its operand.
#[derive(Debug)]
pub struct Unary {
    pub operator: Token,
    pub right: Box<Expr>,
}

/// An expression: each composite node owns its children.
///
/// The variants are closed, and each consumer dispatches on them with one
/// `match`: the printers and `Evaluator::step` borrow the tree, and
/// `Evaluator::resume` takes it by value.
#[derive(Debug)]
pub enum Expr {
    Grouping(Grouping),
    Binary(Binary),
    Unary(Unary),
    Literal(LiteralValue),
}

/// An expression evaluated for its effect, ended by `;`.
#[derive(Debug)]
pub struct ExprStmt(pub Expr);

/// `print` and the expression to show.
#[derive(Debug)]
pub struct PrintStmt(pub Expr);

/// A statement.
#[derive(Debug)]
pub enum Stmt {
    ExprStmt(ExprStmt),
    PrintStmt(PrintStmt),
}

impl Stmt {
    pub fn print_statement(expr: Expr) -> (r: Self)
        ensures
            r == Stmt::PrintStmt(PrintStmt(expr)),
    {
        Stmt::PrintStmt(PrintStmt(expr))
    }

    pub fn expression_statement(expr: Expr) -> (r: Self)
        ensures
            r == Stmt::ExprStmt(ExprStmt(expr)),
    {
        Stmt::ExprStmt(ExprStmt(expr))
    }
}

/// A parsed program: for now one expression.
#[derive(Debug)]
pub enum Ast {
    Expr(Expr),
}

impl Expr {
    pub fn binary(left: Expr, operator: Token, right: Expr) -> (r: Self)
        ensures
            r == Expr::Binary(Binary { left: Box::new(left), operator, right: Box::new(right) }),
    {
        Expr::Binary(Binary { left: Box::new(left), operator, right: Box::new(right) })
    }

    pub fn unary(operator: Token, right: Expr) -> (r: Self)
        ensures
            r == Expr::Unary(Unary { operator, right: Box::new(right) }),
    {
        Expr::Unary(Unary { operator, right: Box::new(right) })
    }

    pub fn literal_bool(value: bool) -> (r: Self)
        ensures
            r == Expr::Literal(LiteralValue::Bool(value)),
    {
        Expr::Literal(LiteralValue::Bool(value))
    }

    pub fn literal_nil() -> (r: Self)
        ensures
            r == Expr::Literal(LiteralValue::Nil),
    {
        Expr::Literal(LiteralValue::Nil)
    }

    pub fn grouping(expr: Expr) -> (r: Self)
        ensures
            r == Expr::Grouping(Grouping(Box::new(expr))),
    {
        Expr::Grouping(Grouping(Box::new(expr)))
    }
}

} // verus!
