//! The evaluator: a post-order reduction of an expression tree to a value.
//!
//! The library decides everything that does not depend on a number's value:
//! which operation an operator means for the types at hand, coercion of
//! booleans to numbers, string concatenation and repetition, truthiness, and
//! each error. What does depend on it (arithmetic, comparison, negation, and
//! whether a repetition count is whole) is asked of the host as a `Request`,
//! answered with an `Answer` and folded back into the tree by `resume`.

use vstd::prelude::*;

use crate::ast::{Binary, Expr, Grouping, Unary};
use crate::text::push_text;
use crate::token::{token_text, bool_number, LiteralValue, LiteralView, Number, NumberView, Token, TokenKind};

verus! {

/// An expression tree as proofs see it: strings as character sequences.
pub ghost enum ExprView {
    Literal(LiteralView),
    Grouping(Box<ExprView>),
    Unary(Token, Box<ExprView>),
    Binary(Box<ExprView>, Token, Box<ExprView>),
}

pub open spec fn expr_view(e: Expr) -> ExprView
    decreases e,
{
    match e {
        Expr::Literal(v) => ExprView::Literal(v@),
        Expr::Grouping(g) => ExprView::Grouping(Box::new(expr_view(*g.0))),
        Expr::Unary(u) => ExprView::Unary(u.operator, Box::new(expr_view(*u.right))),
        Expr::Binary(b) => ExprView::Binary(
            Box::new(expr_view(*b.left)),
            b.operator,
            Box::new(expr_view(*b.right)),
        ),
    }
}

/// The number of nodes.
pub open spec fn view_size(e: ExprView) -> nat
    decreases e,
{
    match e {
        ExprView::Literal(_) => 1,
        ExprView::Grouping(inner) => 1 + view_size(*inner),
        ExprView::Unary(_, right) => 1 + view_size(*right),
        ExprView::Binary(left, _, right) => 1 + view_size(*left) + view_size(*right),
    }
}

#[derive(Clone, Copy, Debug, PartialEq, Eq, Structural)]
pub enum ArithmeticOp {
    Add,
    Subtract,
    Multiply,
    Divide,
}

#[derive(Clone, Copy, Debug, PartialEq, Eq, Structural)]
pub enum ComparisonOp {
    Greater,
    GreaterEqual,
    Less,
    LessEqual,
    Equal,
    NotEqual,
}

/// Work on numeric values that the host does.
#[derive(Debug)]
pub enum Request {
    /// `left op right`; answered with a `Number`.
    Arithmetic { op: ArithmeticOp, left: Number, right: Number },
    /// `left op right`; answered with a `Bool`.
    Comparison { op: ComparisonOp, left: Number, right: Number },
    /// `-operand`; answered with a `Number`.
    Negation { operand: Number },
    /// How many times a string is repeated: answered with `Count(None)` where
    /// `count` has a fractional part, and otherwise with `Count(Some(n))`, `n`
    /// its integer part converted to `usize`.
    RepeatCount { count: Number },
}

pub ghost enum RequestView {
    Arithmetic(ArithmeticOp, NumberView, NumberView),
    Comparison(ComparisonOp, NumberView, NumberView),
    Negation(NumberView),
    RepeatCount(NumberView),
}

impl View for Request {
    type V = RequestView;

    open spec fn view(&self) -> RequestView {
        match self {
            Request::Arithmetic { op, left, right } => RequestView::Arithmetic(*op, left@, right@),
            Request::Comparison { op, left, right } => RequestView::Comparison(*op, left@, right@),
            Request::Negation { operand } => RequestView::Negation(operand@),
            Request::RepeatCount { count } => RequestView::RepeatCount(count@),
        }
    }
}

/// The host's answer to a `Request`.
#[derive(Debug)]
pub enum Answer {
    Number(Number),
    Bool(bool),
    Count(Option<usize>),
}

/// Whether an answer has the shape that the request asks for.
pub open spec fn fits(q: RequestView, a: Answer) -> bool {
    match q {
        RequestView::Arithmetic(..) => a is Number,
        RequestView::Comparison(..) => a is Bool,
        RequestView::Negation(_) => a is Number,
        RequestView::RepeatCount(_) => a is Count,
    }
}

/// Why an evaluation failed.
#[derive(Clone, Copy, Debug, PartialEq, Eq, Structural)]
pub enum ErrorKind {
    BadNumericalNegation,
    BadAddition,
    BadSubtraction,
    BadMultiplication,
    BadDivision,
    BadStringRepCount,
    BadComparison,
    /// An operator that has no meaning in an expression, such as `=` or
    /// `,` in a tree built by hand.
    UnsupportedOperator,
}

/// An evaluation failure and the operator at fault.
#[derive(Debug)]
pub struct Error {
    pub kind: ErrorKind,
    pub token: Token,
}


/// How an evaluation error kind is described.
pub open spec fn eval_kind_text(k: ErrorKind) -> Seq<char> {
    match k {
        ErrorKind::BadNumericalNegation => "Bad Numerical Negation"@,
        ErrorKind::BadAddition => "Bad Addition"@,
        ErrorKind::BadSubtraction => "Bad Subtraction"@,
        ErrorKind::BadMultiplication => "Bad Multiplication"@,
        ErrorKind::BadDivision => "Bad Division"@,
        ErrorKind::BadStringRepCount => "Bad count for string repetition, expected an integer"@,
        ErrorKind::BadComparison => "Bad Comparison"@,
        ErrorKind::UnsupportedOperator => "Unsupported Operator"@,
    }
}

/// How an evaluation error is described: its kind, then the operator.
pub open spec fn eval_error_text(e: Error) -> Seq<char> {
    eval_kind_text(e.kind) + " Occurred at "@ + token_text(e.token@)
}

impl Error {
    /// An error of `kind` at the operator `token`.
    pub fn tokened(token: Token, kind: ErrorKind) -> (r: Error)
        ensures
            r == (Error { kind, token }),
    {
        Error { kind, token }
    }

    /// The error described as `eval_error_text` says.
    pub fn describe(&self) -> (r: String)
        ensures
            r@ == eval_error_text(*self),
    {
        let mut out = String::new();
        match self.kind {
            ErrorKind::BadNumericalNegation => push_text(&mut out, "Bad Numerical Negation"),
            ErrorKind::BadAddition => push_text(&mut out, "Bad Addition"),
            ErrorKind::BadSubtraction => push_text(&mut out, "Bad Subtraction"),
            ErrorKind::BadMultiplication => push_text(&mut out, "Bad Multiplication"),
            ErrorKind::BadDivision => push_text(&mut out, "Bad Division"),
            ErrorKind::BadStringRepCount => push_text(
                &mut out,
                "Bad count for string repetition, expected an integer",
            ),
            ErrorKind::BadComparison => push_text(&mut out, "Bad Comparison"),
            ErrorKind::UnsupportedOperator => push_text(&mut out, "Unsupported Operator"),
        }
        push_text(&mut out, " Occurred at ");
        self.token.push_text(&mut out);
        assert(out@ =~= eval_error_text(*self));
        out
    }
}

/// Where a reduction stands.
#[derive(Debug)]
pub enum Step {
    /// The tree's value.
    Done(LiteralValue),
    /// The first failure in post-order.
    Failed(Error),
    /// The first operation in post-order that needs the host.
    Pending(Request),
}

pub ghost enum Outcome {
    Done(LiteralView),
    Failed(ErrorKind, Token),
    Pending(RequestView),
}

impl View for Step {
    type V = Outcome;

    open spec fn view(&self) -> Outcome {
        match self {
            Step::Done(v) => Outcome::Done(v@),
            Step::Failed(e) => Outcome::Failed(e.kind, e.token),
            Step::Pending(q) => Outcome::Pending(q@),
        }
    }
}

/// `false` and `nil` are falsy; every other value, zero and the empty
/// string included, is truthy.
pub open spec fn truthy(v: LiteralView) -> bool {
    match v {
        LiteralView::Bool(b) => b,
        LiteralView::Nil => false,
        _ => true,
    }
}

/// The number that a value stands for in arithmetic: numbers themselves,
/// and booleans as `0` and `1`.
pub open spec fn numeric(v: LiteralView) -> Option<NumberView> {
    match v {
        LiteralView::Number(n) => Some(n),
        LiteralView::Bool(b) => Some(bool_number(b)),
        _ => None,
    }
}

pub open spec fn arithmetic(op: ArithmeticOp, l: LiteralView, r: LiteralView, t: Token, bad: ErrorKind) -> Outcome {
    if numeric(l) is Some && numeric(r) is Some {
        Outcome::Pending(RequestView::Arithmetic(op, numeric(l)->0, numeric(r)->0))
    } else {
        Outcome::Failed(bad, t)
    }
}

pub open spec fn comparison(op: ComparisonOp, l: LiteralView, r: LiteralView, t: Token) -> Outcome {
    if numeric(l) is Some && numeric(r) is Some {
        Outcome::Pending(RequestView::Comparison(op, numeric(l)->0, numeric(r)->0))
    } else {
        Outcome::Failed(ErrorKind::BadComparison, t)
    }
}

/// Whether two values that are not both numbers are equal: strings by
/// their characters, booleans by their truth, `nil` only to `nil`, and
/// values of different types never.
pub open spec fn same_value(l: LiteralView, r: LiteralView) -> bool {
    match (l, r) {
        (LiteralView::Str(a), LiteralView::Str(b)) => a == b,
        (LiteralView::Bool(a), LiteralView::Bool(b)) => a == b,
        (LiteralView::Nil, LiteralView::Nil) => true,
        _ => false,
    }
}

/// `==` (or, `negated`, `!=`): two numbers are compared by the host, and
/// other values as `same_value` says.
pub open spec fn equality(negated: bool, l: LiteralView, r: LiteralView) -> Outcome {
    match (l, r) {
        (LiteralView::Number(a), LiteralView::Number(b)) => Outcome::Pending(
            RequestView::Comparison(
                if negated { ComparisonOp::NotEqual } else { ComparisonOp::Equal },
                a,
                b,
            ),
        ),
        _ => Outcome::Done(LiteralView::Bool(same_value(l, r) != negated)),
    }
}

/// What a binary operator makes of two values.
pub open spec fn binary_outcome(t: Token, l: LiteralView, r: LiteralView) -> Outcome {
    let k = t.kind;
    if k == TokenKind::PLUS {
        match (l, r) {
            (LiteralView::Str(a), LiteralView::Str(b)) => Outcome::Done(LiteralView::Str(a + b)),
            _ => arithmetic(ArithmeticOp::Add, l, r, t, ErrorKind::BadAddition),
        }
    } else if k == TokenKind::MINUS {
        arithmetic(ArithmeticOp::Subtract, l, r, t, ErrorKind::BadSubtraction)
    } else if k == TokenKind::STAR {
        match (l, r) {
            (LiteralView::Str(_), LiteralView::Number(n)) => Outcome::Pending(
                RequestView::RepeatCount(n),
            ),
            _ => arithmetic(ArithmeticOp::Multiply, l, r, t, ErrorKind::BadMultiplication),
        }
    } else if k == TokenKind::SLASH {
        arithmetic(ArithmeticOp::Divide, l, r, t, ErrorKind::BadDivision)
    } else if k == TokenKind::GREATER {
        comparison(ComparisonOp::Greater, l, r, t)
    } else if k == TokenKind::GREATER_EQUAL {
        comparison(ComparisonOp::GreaterEqual, l, r, t)
    } else if k == TokenKind::LESS {
        comparison(ComparisonOp::Less, l, r, t)
    } else if k == TokenKind::LESS_EQUAL {
        comparison(ComparisonOp::LessEqual, l, r, t)
    } else if k == TokenKind::EQUAL_EQUAL {
        equality(false, l, r)
    } else if k == TokenKind::BANG_EQUAL {
        equality(true, l, r)
    } else {
        Outcome::Failed(ErrorKind::UnsupportedOperator, t)
    }
}

/// What a unary operator makes of a value.
pub open spec fn unary_outcome(t: Token, v: LiteralView) -> Outcome {
    if t.kind == TokenKind::MINUS {
        match v {
            LiteralView::Number(n) => Outcome::Pending(RequestView::Negation(n)),
            _ => Outcome::Failed(ErrorKind::BadNumericalNegation, t),
        }
    } else if t.kind == TokenKind::BANG {
        Outcome::Done(LiteralView::Bool(!truthy(v)))
    } else {
        Outcome::Failed(ErrorKind::UnsupportedOperator, t)
    }
}

/// The reduction of a tree in post-order: operands before their operator,
/// left before right, stopping at the first failure or the first operation
/// that needs the host.
pub open spec fn reduce(e: ExprView) -> Outcome
    decreases e,
{
    match e {
        ExprView::Literal(v) => Outcome::Done(v),
        ExprView::Grouping(inner) => reduce(*inner),
        ExprView::Unary(op, right) => match reduce(*right) {
            Outcome::Done(v) => unary_outcome(op, v),
            other => other,
        },
        ExprView::Binary(left, op, right) => match reduce(*left) {
            Outcome::Done(l) => match reduce(*right) {
                Outcome::Done(r) => binary_outcome(op, l, r),
                other => other,
            },
            other => other,
        },
    }
}

/// `s` written `k` times.
pub open spec fn repeated(s: Seq<char>, k: nat) -> Seq<char>
    decreases k,
{
    if k == 0 {
        Seq::empty()
    } else {
        repeated(s, (k - 1) as nat) + s
    }
}

/// The literal that an answer becomes in the tree.
pub open spec fn answer_literal(a: Answer) -> LiteralView {
    match a {
        Answer::Number(n) => LiteralView::Number(n@),
        Answer::Bool(b) => LiteralView::Bool(b),
        Answer::Count(_) => LiteralView::Nil,
    }
}

/// The node whose operation is pending, once the host answered: it becomes
/// the answer as a literal, or for a repetition the repeated string, or the
/// repetition error where the count was not whole.
pub open spec fn settle(e: ExprView, a: Answer) -> Result<ExprView, (ErrorKind, Token)> {
    match (e, a) {
        (ExprView::Binary(left, op, _), Answer::Count(count)) => match count {
            Some(k) => match reduce(*left) {
                Outcome::Done(LiteralView::Str(s)) => Ok(ExprView::Literal(LiteralView::Str(repeated(s, k as nat)))),
                _ => Ok(ExprView::Literal(LiteralView::Nil)),
            },
            None => Err((ErrorKind::BadStringRepCount, op)),
        },
        _ => Ok(ExprView::Literal(answer_literal(a))),
    }
}

/// The tree after the host answered its pending request: the pending node
/// is settled and the rest of the tree is kept as it was.
pub open spec fn resumed(e: ExprView, a: Answer) -> Result<ExprView, (ErrorKind, Token)>
    decreases e,
{
    match e {
        ExprView::Literal(_) => Ok(e),
        ExprView::Grouping(inner) => match resumed(*inner, a) {
            Ok(t) => Ok(ExprView::Grouping(Box::new(t))),
            Err(x) => Err(x),
        },
        ExprView::Unary(op, right) => if reduce(*right) is Pending {
            match resumed(*right, a) {
                Ok(t) => Ok(ExprView::Unary(op, Box::new(t))),
                Err(x) => Err(x),
            }
        } else {
            settle(e, a)
        },
        ExprView::Binary(left, op, right) => if reduce(*left) is Pending {
            match resumed(*left, a) {
                Ok(t) => Ok(ExprView::Binary(Box::new(t), op, right)),
                Err(x) => Err(x),
            }
        } else if reduce(*right) is Pending {
            match resumed(*right, a) {
                Ok(t) => Ok(ExprView::Binary(left, op, Box::new(t))),
                Err(x) => Err(x),
            }
        } else {
            settle(e, a)
        },
    }
}


/// Answering the pending request of a tree leaves a tree with fewer nodes,
/// so a host that answers every request brings any evaluation to its end.
pub proof fn lemma_resume_shrinks(e: ExprView, a: Answer)
    requires
        reduce(e) is Pending,
    ensures
        resumed(e, a) is Ok ==> view_size(resumed(e, a)->Ok_0) < view_size(e),
    decreases e,
{
    match e {
        ExprView::Literal(_) => {},
        ExprView::Grouping(inner) => {
            lemma_resume_shrinks(*inner, a);
            if resumed(*inner, a) is Ok {
                let t = resumed(*inner, a)->Ok_0;
                assert(resumed(e, a) == Ok::<ExprView, (ErrorKind, Token)>(ExprView::Grouping(Box::new(t))));
                assert(view_size(ExprView::Grouping(Box::new(t))) == 1 + view_size(t));
            }
        },
        ExprView::Unary(op, right) => {
            if reduce(*right) is Pending {
                lemma_resume_shrinks(*right, a);
                if resumed(*right, a) is Ok {
                    let t = resumed(*right, a)->Ok_0;
                    assert(view_size(ExprView::Unary(op, Box::new(t))) == 1 + view_size(t));
                }
            } else {
                assert(view_size(e) == 1 + view_size(*right));
            }
        },
        ExprView::Binary(left, op, right) => {
            if reduce(*left) is Pending {
                lemma_resume_shrinks(*left, a);
                if resumed(*left, a) is Ok {
                    let t = resumed(*left, a)->Ok_0;
                    assert(view_size(ExprView::Binary(Box::new(t), op, right)) == 1 + view_size(t)
                        + view_size(*right));
                }
            } else if reduce(*right) is Pending {
                lemma_resume_shrinks(*right, a);
                if resumed(*right, a) is Ok {
                    let t = resumed(*right, a)->Ok_0;
                    assert(view_size(ExprView::Binary(left, op, Box::new(t))) == 1 + view_size(*left)
                        + view_size(t));
                }
            } else {
                assert(view_size(e) == 1 + view_size(*left) + view_size(*right));
            }
        },
    }
}


/// `!` gives the negation of its operand's truthiness, whatever the operand
/// reduced to.
pub proof fn lemma_negation_is_falsiness(op: Token, e: ExprView)
    requires
        op.kind == TokenKind::BANG,
        reduce(e) is Done,
    ensures
        reduce(ExprView::Unary(op, Box::new(e))) == Outcome::Done(
            LiteralView::Bool(!truthy(reduce(e)->Done_0)),
        ),
{
}

/// A string times a number asks the host for the count; a whole count gives
/// the string written that many times, and a count with a fraction fails
/// with `BadStringRepCount` at the operator.
pub proof fn lemma_repetition(s: Seq<char>, op: Token, n: NumberView, count: Option<usize>)
    requires
        op.kind == TokenKind::STAR,
    ensures
        ({
            let e = ExprView::Binary(
                Box::new(ExprView::Literal(LiteralView::Str(s))),
                op,
                Box::new(ExprView::Literal(LiteralView::Number(n))),
            );
            &&& reduce(e) == Outcome::Pending(RequestView::RepeatCount(n))
            &&& count is Some ==> resumed(e, Answer::Count(count)) == Ok::<
                ExprView,
                (ErrorKind, Token),
            >(ExprView::Literal(LiteralView::Str(repeated(s, count->0 as nat))))
            &&& count is None ==> resumed(e, Answer::Count(count)) == Err::<
                ExprView,
                (ErrorKind, Token),
            >((ErrorKind::BadStringRepCount, op))
        }),
{
}

/// The end of an evaluation of `e` in which the host met, in order, the
/// requests of `trace` with its answers: the value or the failure, or
/// nothing where `trace` does not fit the evaluation.
pub open spec fn evaluation(e: ExprView, trace: Seq<(Request, Answer)>) -> Option<
    Result<LiteralView, (ErrorKind, Token)>,
>
    decreases trace.len(),
{
    match reduce(e) {
        Outcome::Done(v) => if trace.len() == 0 {
            Some(Ok(v))
        } else {
            None
        },
        Outcome::Failed(k, t) => if trace.len() == 0 {
            Some(Err((k, t)))
        } else {
            None
        },
        Outcome::Pending(q) => if trace.len() == 0 || trace[0].0@ != q {
            None
        } else {
            match resumed(e, trace[0].1) {
                Ok(next) => evaluation(next, trace.drop_first()),
                Err(x) => if trace.len() == 1 {
                    Some(Err(x))
                } else {
                    None
                },
            }
        },
    }
}

/// An evaluation's result, to a proof.
pub open spec fn result_view(r: Result<LiteralValue, Error>) -> Result<LiteralView, (ErrorKind, Token)> {
    match r {
        Ok(v) => Ok(v@),
        Err(e) => Err((e.kind, e.token)),
    }
}

/// Whether every answer of `trace` is one that `host` may give to its
/// request.
pub open spec fn answered_by<F: Fn(&Request) -> Answer>(host: F, trace: Seq<(Request, Answer)>) -> bool {
    forall|i: int| 0 <= i < trace.len() ==> host.ensures((&(#[trigger] trace[i]).0,), trace[i].1)
}

/// Whether `value` is truthy: all but `false` and `nil` are.
pub fn is_truthy(value: LiteralValue) -> (r: bool)
    ensures
        r == truthy(value@),
{
    match value {
        LiteralValue::Bool(false) => false,
        LiteralValue::Nil => false,
        _ => true,
    }
}

/// The number that `v` stands for in arithmetic, if any.
fn numeric_of(v: &LiteralValue) -> (r: Option<Number>)
    ensures
        r is Some == numeric(v@) is Some,
        r is Some ==> r->0@ == numeric(v@)->0,
{
    match v {
        LiteralValue::Number(n) => Some(n.duplicate()),
        LiteralValue::Bool(b) => Some(Number::from_bool(*b)),
        _ => None,
    }
}

/// Applies a binary operator to two values.
fn binary_step(op: &Token, l: LiteralValue, r: LiteralValue) -> (s: Step)
    ensures
        s@ == binary_outcome(*op, l@, r@),
{
    let k = op.kind;
    if k == TokenKind::EQUAL_EQUAL || k == TokenKind::BANG_EQUAL {
        return equality_step(k == TokenKind::BANG_EQUAL, l, r);
    }
    if !(k == TokenKind::PLUS || k == TokenKind::MINUS || k == TokenKind::STAR || k
        == TokenKind::SLASH || k == TokenKind::GREATER || k == TokenKind::GREATER_EQUAL || k
        == TokenKind::LESS || k == TokenKind::LESS_EQUAL) {
        return Step::Failed(Error::tokened(op.duplicate(), ErrorKind::UnsupportedOperator));
    }
    if k == TokenKind::PLUS {
        if let LiteralValue::String(a) = &l {
            if let LiteralValue::String(b) = &r {
                let mut joined = a.clone();
                push_text(&mut joined, b.as_str());
                return Step::Done(LiteralValue::String(joined));
            }
        }
    }
    if k == TokenKind::STAR {
        if let LiteralValue::String(_) = &l {
            if let LiteralValue::Number(n) = &r {
                return Step::Pending(Request::RepeatCount { count: n.duplicate() });
            }
        }
    }
    let ln = numeric_of(&l);
    let rn = numeric_of(&r);
    match (ln, rn) {
        (Some(a), Some(b)) => {
            if k == TokenKind::PLUS {
                Step::Pending(Request::Arithmetic { op: ArithmeticOp::Add, left: a, right: b })
            } else if k == TokenKind::MINUS {
                Step::Pending(Request::Arithmetic { op: ArithmeticOp::Subtract, left: a, right: b })
            } else if k == TokenKind::STAR {
                Step::Pending(Request::Arithmetic { op: ArithmeticOp::Multiply, left: a, right: b })
            } else if k == TokenKind::SLASH {
                Step::Pending(Request::Arithmetic { op: ArithmeticOp::Divide, left: a, right: b })
            } else if k == TokenKind::GREATER {
                Step::Pending(Request::Comparison { op: ComparisonOp::Greater, left: a, right: b })
            } else if k == TokenKind::GREATER_EQUAL {
                Step::Pending(
                    Request::Comparison { op: ComparisonOp::GreaterEqual, left: a, right: b },
                )
            } else if k == TokenKind::LESS {
                Step::Pending(Request::Comparison { op: ComparisonOp::Less, left: a, right: b })
            } else {
                Step::Pending(Request::Comparison { op: ComparisonOp::LessEqual, left: a, right: b })
            }
        },
        _ => {
            let kind = if k == TokenKind::PLUS {
                ErrorKind::BadAddition
            } else if k == TokenKind::MINUS {
                ErrorKind::BadSubtraction
            } else if k == TokenKind::STAR {
                ErrorKind::BadMultiplication
            } else if k == TokenKind::SLASH {
                ErrorKind::BadDivision
            } else {
                ErrorKind::BadComparison
            };
            Step::Failed(Error::tokened(op.duplicate(), kind))
        },
    }
}

/// Applies a unary operator to a value.
fn unary_step(op: &Token, v: LiteralValue) -> (s: Step)
    ensures
        s@ == unary_outcome(*op, v@),
{
    if op.kind == TokenKind::MINUS {
        match v {
            LiteralValue::Number(n) => Step::Pending(Request::Negation { operand: n }),
            _ => Step::Failed(Error::tokened(op.duplicate(), ErrorKind::BadNumericalNegation)),
        }
    } else if op.kind == TokenKind::BANG {
        Step::Done(LiteralValue::Bool(!is_truthy(v)))
    } else {
        Step::Failed(Error::tokened(op.duplicate(), ErrorKind::UnsupportedOperator))
    }
}

/// Applies `==`, or `!=` where `negated`, to two values.
fn equality_step(negated: bool, l: LiteralValue, r: LiteralValue) -> (s: Step)
    ensures
        s@ == equality(negated, l@, r@),
{
    let same = match (&l, &r) {
        (LiteralValue::Number(a), LiteralValue::Number(b)) => {
            let op = if negated { ComparisonOp::NotEqual } else { ComparisonOp::Equal };
            return Step::Pending(Request::Comparison { op, left: a.duplicate(), right: b.duplicate() });
        },
        (LiteralValue::String(a), LiteralValue::String(b)) => a.eq(b),
        (LiteralValue::Bool(a), LiteralValue::Bool(b)) => *a == *b,
        (LiteralValue::Nil, LiteralValue::Nil) => true,
        _ => false,
    };
    Step::Done(LiteralValue::Bool(same != negated))
}

/// `s` written `count` times.
fn repeat(s: &String, count: usize) -> (r: String)
    ensures
        r@ == repeated(s@, count as nat),
{
    let mut word = String::new();
    let mut i: usize = 0;
    while i < count
        invariant
            i <= count,
            word@ == repeated(s@, i as nat),
        decreases count - i,
    {
        push_text(&mut word, s.as_str());
        i = i + 1;
    }
    word
}

/// The evaluator's entry points.
pub struct Evaluator;

impl Evaluator {
    /// Reduces the tree as far as the library can: to its value, to its
    /// first failure, or to the first request for the host.
    pub fn step(e: &Expr) -> (r: Step)
        ensures
            r@ == reduce(expr_view(*e)),
        decreases e,
    {
        match e {
            Expr::Literal(v) => Step::Done(v.duplicate()),
            Expr::Grouping(g) => Self::step(&g.0),
            Expr::Unary(u) => match Self::step(&u.right) {
                Step::Done(v) => unary_step(&u.operator, v),
                other => other,
            },
            Expr::Binary(b) => match Self::step(&b.left) {
                Step::Done(l) => match Self::step(&b.right) {
                    Step::Done(r) => binary_step(&b.operator, l, r),
                    other => other,
                },
                other => other,
            },
        }
    }

    /// Folds the host's answer to the pending request into the tree.
    pub fn resume(e: Expr, a: Answer) -> (r: Result<Expr, Error>)
        requires
            reduce(expr_view(e)) is Pending,
            fits(reduce(expr_view(e))->Pending_0, a),
        ensures
            r is Ok ==> resumed(expr_view(e), a) == Ok::<ExprView, (ErrorKind, Token)>(expr_view(r->Ok_0)),
            r is Err ==> resumed(expr_view(e), a) == Err::<ExprView, (ErrorKind, Token)>((r->Err_0.kind, r->Err_0.token)),
        decreases e,
    {
        let ghost ev = expr_view(e);
        let ghost ga = a;
        match e {
            Expr::Literal(v) => Ok(Expr::Literal(v)),
            Expr::Grouping(Grouping(inner)) => match Self::resume(*inner, a) {
                Ok(t) => Ok(Expr::grouping(t)),
                Err(x) => Err(x),
            },
            Expr::Unary(Unary { operator, right }) => {
                let pending = match Self::step(&right) {
                    Step::Pending(_) => true,
                    _ => false,
                };
                if pending {
                    match Self::resume(*right, a) {
                        Ok(t) => Ok(Expr::unary(operator, t)),
                        Err(x) => Err(x),
                    }
                } else {
                    match a {
                        Answer::Number(n) => Ok(Expr::Literal(LiteralValue::Number(n))),
                        Answer::Bool(b) => Ok(Expr::Literal(LiteralValue::Bool(b))),
                        Answer::Count(_) => Ok(Expr::Literal(LiteralValue::Nil)),
                    }
                }
            },
            Expr::Binary(Binary { left, operator, right }) => {
                let left_pending = match Self::step(&left) {
                    Step::Pending(_) => true,
                    _ => false,
                };
                if left_pending {
                    return match Self::resume(*left, a) {
                        Ok(t) => Ok(Expr::binary(t, operator, *right)),
                        Err(x) => Err(x),
                    };
                }
                let right_pending = match Self::step(&right) {
                    Step::Pending(_) => true,
                    _ => false,
                };
                if right_pending {
                    return match Self::resume(*right, a) {
                        Ok(t) => Ok(Expr::binary(*left, operator, t)),
                        Err(x) => Err(x),
                    };
                }
                match a {
                    Answer::Number(n) => Ok(Expr::Literal(LiteralValue::Number(n))),
                    Answer::Bool(b) => Ok(Expr::Literal(LiteralValue::Bool(b))),
                    Answer::Count(Some(count)) => match Self::step(&left) {
                        Step::Done(LiteralValue::String(s)) => Ok(
                            Expr::Literal(LiteralValue::String(repeat(&s, count))),
                        ),
                        _ => Ok(Expr::Literal(LiteralValue::Nil)),
                    },
                    Answer::Count(None) => Err(Error::tokened(operator, ErrorKind::BadStringRepCount)),
                }
            },
        }
    }

    /// Evaluates the tree, asking `host` for each operation on numeric
    /// values, until it has a value or fails. The result is the end of the
    /// evaluation along the answers that `host` gave.
    pub fn evaluate<F: Fn(&Request) -> Answer>(expr: Expr, host: F) -> (r: Result<
        LiteralValue,
        Error,
    >)
        requires
            forall|q: &Request| #[trigger] host.requires((q,)),
            forall|q: &Request, a: Answer| #[trigger] host.ensures((q,), a) ==> fits(q@, a),
        ensures
            exists|trace: Seq<(Request, Answer)>|
                answered_by(host, trace) && #[trigger] evaluation(expr_view(expr), trace) == Some(
                    result_view(r),
                ),
            reduce(expr_view(expr)) is Done ==> r is Ok && r->Ok_0@ == reduce(expr_view(expr))->Done_0,
            reduce(expr_view(expr)) is Failed ==> r is Err && reduce(expr_view(expr)) == Outcome::Failed(
                r->Err_0.kind,
                r->Err_0.token,
            ),
    {
        let ghost initial = expr_view(expr);
        let mut tree = expr;
        let ghost mut trace: Seq<(Request, Answer)> = Seq::empty();
        loop
            invariant
                forall|q: &Request| #[trigger] host.requires((q,)),
                forall|q: &Request, a: Answer| #[trigger] host.ensures((q,), a) ==> fits(q@, a),
                initial == expr_view(expr),
                answered_by(host, trace),
                forall|rest: Seq<(Request, Answer)>|
                    evaluation(initial, trace + rest) == #[trigger] evaluation(expr_view(tree), rest),
            decreases view_size(expr_view(tree)),
        {
            let ghost current = expr_view(tree);
            match Self::step(&tree) {
                Step::Done(v) => {
                    proof {
                        assert(trace + Seq::<(Request, Answer)>::empty() =~= trace);
                        assert(evaluation(current, Seq::empty()) == Some(result_view(Ok::<LiteralValue, Error>(v))));
                        assert(evaluation(initial, trace) == Some(result_view(Ok::<LiteralValue, Error>(v))));
                    }
                    return Ok(v);
                },
                Step::Failed(e) => {
                    proof {
                        assert(trace + Seq::<(Request, Answer)>::empty() =~= trace);
                        assert(evaluation(current, Seq::empty()) == Some(result_view(Err::<LiteralValue, Error>(e))));
                        assert(evaluation(initial, trace) == Some(result_view(Err::<LiteralValue, Error>(e))));
                    }
                    return Err(e);
                },
                Step::Pending(q) => {
                    let a = host(&q);
                    let ghost step = (q, a);
                    let ghost old_trace = trace;
                    proof {
                        lemma_resume_shrinks(current, a);
                        trace = trace.push(step);
                        assert forall|i: int| 0 <= i < trace.len() implies host.ensures(
                            (&(#[trigger] trace[i]).0,),
                            trace[i].1,
                        ) by {
                            if i < old_trace.len() {
                                assert(trace[i] == old_trace[i]);
                            }
                        }
                    }
                    match Self::resume(tree, a) {
                        Ok(t) => {
                            tree = t;
                            proof {
                                assert forall|rest: Seq<(Request, Answer)>|
                                    evaluation(initial, trace + rest) == #[trigger] evaluation(
                                        expr_view(tree),
                                        rest,
                                    ) by {
                                    let longer = seq![step] + rest;
                                    assert(trace + rest =~= old_trace + longer);
                                    assert(longer[0] == step);
                                    assert(longer.drop_first() =~= rest);
                                    assert(evaluation(current, longer) == evaluation(expr_view(tree), rest));
                                }
                            }
                        },
                        Err(e) => {
                            proof {
                                let single = seq![step];
                                assert(trace =~= old_trace + single);
                                assert(single[0] == step);
                                assert(evaluation(current, single) == Some(result_view(Err::<LiteralValue, Error>(e))));
                            }
                            return Err(e);
                        },
                    }
                },
            }
        }
    }
}

} // verus!
