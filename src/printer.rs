//! Two renderings of an expression tree: a parenthesised prefix form and a
//! space-separated postfix form.

use vstd::prelude::*;

use crate::ast::Expr;
use crate::text::{push_char, push_text};
use crate::token::literal_text;

verus! {

/// The prefix form: `(op operand...)` for operators, `(group inner)` for
/// groups, and literals as they are shown.
pub open spec fn debug_form(e: Expr) -> Seq<char>
    decreases e,
{
    match e {
        Expr::Literal(v) => literal_text(v@),
        Expr::Grouping(g) => seq!['(', 'g', 'r', 'o', 'u', 'p', ' '] + debug_form(*g.0) + seq![')'],
        Expr::Unary(u) => seq!['('] + u.operator.lexeme@ + seq![' '] + debug_form(*u.right) + seq![')'],
        Expr::Binary(b) => seq!['('] + b.operator.lexeme@ + seq![' '] + debug_form(*b.left) + seq![' ']
            + debug_form(*b.right) + seq![')'],
    }
}

/// The postfix form: operands, then the operator, separated by spaces;
/// groups leave no trace.
pub open spec fn rpn_form(e: Expr) -> Seq<char>
    decreases e,
{
    match e {
        Expr::Literal(v) => literal_text(v@),
        Expr::Grouping(g) => rpn_form(*g.0),
        Expr::Unary(u) => rpn_form(*u.right) + seq![' '] + u.operator.lexeme@,
        Expr::Binary(b) => rpn_form(*b.left) + seq![' '] + rpn_form(*b.right) + seq![' ']
            + b.operator.lexeme@,
    }
}

fn push_debug(e: &Expr, out: &mut String)
    ensures
        final(out)@ == old(out)@ + debug_form(*e),
    decreases e,
{
    let ghost start = out@;
    match e {
        Expr::Literal(v) => v.push_text(out),
        Expr::Grouping(g) => {
            proof {
                reveal_strlit("(group ");
                assert("(group "@ =~= seq!['(', 'g', 'r', 'o', 'u', 'p', ' ']);
            }
            push_text(out, "(group ");
            push_debug(&g.0, out);
            push_char(out, ')');
            assert(out@ =~= start + debug_form(*e));
        },
        Expr::Unary(u) => {
            push_char(out, '(');
            push_text(out, u.operator.lexeme.as_str());
            push_char(out, ' ');
            push_debug(&u.right, out);
            push_char(out, ')');
            assert(out@ =~= start + debug_form(*e));
        },
        Expr::Binary(b) => {
            push_char(out, '(');
            push_text(out, b.operator.lexeme.as_str());
            push_char(out, ' ');
            push_debug(&b.left, out);
            push_char(out, ' ');
            push_debug(&b.right, out);
            push_char(out, ')');
            assert(out@ =~= start + debug_form(*e));
        },
    }
}

fn push_rpn(e: &Expr, out: &mut String)
    ensures
        final(out)@ == old(out)@ + rpn_form(*e),
    decreases e,
{
    let ghost start = out@;
    match e {
        Expr::Literal(v) => v.push_text(out),
        Expr::Grouping(g) => push_rpn(&g.0, out),
        Expr::Unary(u) => {
            push_rpn(&u.right, out);
            push_char(out, ' ');
            push_text(out, u.operator.lexeme.as_str());
            assert(out@ =~= start + rpn_form(*e));
        },
        Expr::Binary(b) => {
            push_rpn(&b.left, out);
            push_char(out, ' ');
            push_rpn(&b.right, out);
            push_char(out, ' ');
            push_text(out, b.operator.lexeme.as_str());
            assert(out@ =~= start + rpn_form(*e));
        },
    }
}

/// Renders trees in the prefix form.
pub struct DebugPrinter;

impl DebugPrinter {
    pub fn print(expr: &Expr) -> (r: String)
        ensures
            r@ == debug_form(*expr),
    {
        let mut out = String::new();
        push_debug(expr, &mut out);
        assert(out@ =~= debug_form(*expr));
        out
    }
}

/// Renders trees in the postfix form.
pub struct RpnPrinter;

impl RpnPrinter {
    pub fn print(expr: &Expr) -> (r: String)
        ensures
            r@ == rpn_form(*expr),
    {
        let mut out = String::new();
        push_rpn(expr, &mut out);
        assert(out@ =~= rpn_form(*expr));
        out
    }
}

} // verus!
