//! The precedence table: how tightly each kind of expression binds.
//!
//! A child expression is put in parentheses when it binds less tightly than
//! the place it stands in requires.

use crate::ast::{BoolOp, Constant, Expr, Operator, UnaryOp};
use vstd::string::*;
use vstd::prelude::*;

verus! {

/// `target := value`
pub const PREC_NAMED: usize = 1;

/// A tuple display without parentheses.
pub const PREC_TUPLE: usize = 2;

/// `yield` and `yield from`
pub const PREC_YIELD: usize = 3;

/// A conditional expression or a lambda: the loosest of what may stand
/// where a plain expression is expected.
pub const PREC_TEST: usize = 4;

/// `or`
pub const PREC_OR: usize = 5;

/// `and`
pub const PREC_AND: usize = 6;

/// `not`
pub const PREC_NOT: usize = 7;

/// A comparison chain.
pub const PREC_CMP: usize = 8;

/// `|`
pub const PREC_BOR: usize = 9;

/// `^`
pub const PREC_BXOR: usize = 10;

/// `&`
pub const PREC_BAND: usize = 11;

/// `<<` and `>>`
pub const PREC_SHIFT: usize = 12;

/// `+` and `-`
pub const PREC_ARITH: usize = 13;

/// `*`, `/`, `//`, `@` and `%`
pub const PREC_TERM: usize = 14;

/// Unary `+`, `-` and `~`
pub const PREC_FACTOR: usize = 15;

/// `**`
pub const PREC_POWER: usize = 16;

/// `await`
pub const PREC_AWAIT: usize = 17;

/// What never needs parentheses: names, literals, displays, calls,
/// attribute accesses, subscripts.
pub const PREC_ATOM: usize = 18;

/// The precedence of a short-circuit operator.
pub open spec fn bool_op_precedence(op: BoolOp) -> nat {
    match op {
        BoolOp::Or => PREC_OR as nat,
        BoolOp::And => PREC_AND as nat,
    }
}

/// The precedence of a prefix operator.
pub open spec fn unary_op_precedence(op: UnaryOp) -> nat {
    match op {
        UnaryOp::Not => PREC_NOT as nat,
        UnaryOp::UAdd => PREC_FACTOR as nat,
        UnaryOp::USub => PREC_FACTOR as nat,
        UnaryOp::Invert => PREC_FACTOR as nat,
    }
}

/// The precedence of a binary operator.
pub open spec fn operator_precedence(op: Operator) -> nat {
    match op {
        Operator::BitOr => PREC_BOR as nat,
        Operator::BitXor => PREC_BXOR as nat,
        Operator::BitAnd => PREC_BAND as nat,
        Operator::LShift => PREC_SHIFT as nat,
        Operator::RShift => PREC_SHIFT as nat,
        Operator::Add => PREC_ARITH as nat,
        Operator::Sub => PREC_ARITH as nat,
        Operator::Div => PREC_TERM as nat,
        Operator::FloorDiv => PREC_TERM as nat,
        Operator::Mult => PREC_TERM as nat,
        Operator::MatMult => PREC_TERM as nat,
        Operator::Mod => PREC_TERM as nat,
        Operator::Pow => PREC_POWER as nat,
    }
}

/// What the left operand of a binary operator must bind as tightly as.
/// Power groups to the right, so its left operand must bind more tightly
/// than power itself; every other operator groups to the left.
pub open spec fn left_operand_level(op: Operator) -> nat {
    match op {
        Operator::Pow => operator_precedence(op) + 1,
        _ => operator_precedence(op),
    }
}

/// What the right operand of a binary operator must bind as tightly as.
pub open spec fn right_operand_level(op: Operator) -> nat {
    match op {
        Operator::Pow => operator_precedence(op),
        _ => operator_precedence(op) + 1,
    }
}

/// The precedence of an expression, by its kind and, for operators, by the
/// operator.
pub open spec fn precedence(e: Expr) -> nat {
    match e {
        Expr::NamedExpr(_) => PREC_NAMED as nat,
        Expr::Tuple(_) => PREC_TUPLE as nat,
        Expr::Yield(_) => PREC_YIELD as nat,
        Expr::YieldFrom(_) => PREC_YIELD as nat,
        Expr::IfExp(_) => PREC_TEST as nat,
        Expr::Lambda(_) => PREC_TEST as nat,
        Expr::BoolOp(d) => bool_op_precedence(d.op),
        Expr::UnaryOp(d) => unary_op_precedence(d.op),
        Expr::Compare(_) => PREC_CMP as nat,
        Expr::BinOp(d) => operator_precedence(d.op),
        Expr::Await(_) => PREC_AWAIT as nat,
        _ => PREC_ATOM as nat,
    }
}

/// The precedence of a binary operator.
pub fn get_operator_precedence(op: &Operator) -> (p: usize)
    ensures
        p == operator_precedence(*op),
{
    match op {
        Operator::BitOr => PREC_BOR,
        Operator::BitXor => PREC_BXOR,
        Operator::BitAnd => PREC_BAND,
        Operator::LShift => PREC_SHIFT,
        Operator::RShift => PREC_SHIFT,
        Operator::Add => PREC_ARITH,
        Operator::Sub => PREC_ARITH,
        Operator::Div => PREC_TERM,
        Operator::FloorDiv => PREC_TERM,
        Operator::Mult => PREC_TERM,
        Operator::MatMult => PREC_TERM,
        Operator::Mod => PREC_TERM,
        Operator::Pow => PREC_POWER,
    }
}

/// The precedence of an expression.
pub fn get_precedence(node: &Expr) -> (p: usize)
    ensures
        p == precedence(*node),
        PREC_NAMED <= p <= PREC_ATOM,
{
    match node {
        Expr::NamedExpr(_) => PREC_NAMED,
        Expr::Tuple(_) => PREC_TUPLE,
        Expr::Yield(_) => PREC_YIELD,
        Expr::YieldFrom(_) => PREC_YIELD,
        Expr::IfExp(_) => PREC_TEST,
        Expr::Lambda(_) => PREC_TEST,
        Expr::BoolOp(data) => match data.op {
            BoolOp::Or => PREC_OR,
            BoolOp::And => PREC_AND,
        },
        Expr::UnaryOp(data) => match data.op {
            UnaryOp::Not => PREC_NOT,
            UnaryOp::UAdd => PREC_FACTOR,
            UnaryOp::USub => PREC_FACTOR,
            UnaryOp::Invert => PREC_FACTOR,
        },
        Expr::Compare(_) => PREC_CMP,
        Expr::BinOp(data) => get_operator_precedence(&data.op),
        Expr::Await(_) => PREC_AWAIT,
        _ => PREC_ATOM,
    }
}

/// Whether an expression is the tuple without items. It is written `()`
/// and takes no further parentheses wherever it stands.
pub open spec fn is_empty_tuple(e: Expr) -> bool {
    e matches Expr::Tuple(d) && d.elts@.len() == 0
}

/// Whether a text starts with a minus sign.
pub open spec fn starts_with_minus(text: Seq<char>) -> bool {
    text.len() > 0 && text[0] == '-'
}

/// Whether the text of a constant starts with a minus sign: a negative
/// integer, a floating-point number whose text starts with one, or an
/// imaginary number without a real part whose text starts with one.
pub open spec fn is_signed_constant(c: Constant) -> bool {
    match c {
        Constant::Int(i) => i.value() < 0,
        Constant::Float(t) => starts_with_minus(t@),
        Constant::Complex { re, im } => re is None && starts_with_minus(im@),
        _ => false,
    }
}

/// Whether an expression is a literal whose text starts with a minus
/// sign. Such a literal reads as a negation and stands in parentheses
/// where a negation would.
pub open spec fn is_signed_literal(e: Expr) -> bool {
    e matches Expr::Constant(d) && is_signed_constant(d.value)
}

/// Whether an expression stands in parentheses where one of at least
/// precedence `level` is required: where its own precedence is lower. The
/// tuple without items never does, and a literal with a minus sign does as
/// a negation does.
#[verifier::opaque]
pub open spec fn needs_parentheses(e: Expr, level: nat) -> bool {
    if is_empty_tuple(e) {
        false
    } else if is_signed_literal(e) {
        PREC_FACTOR < level
    } else {
        precedence(e) < level
    }
}

/// Whether a text starts with a minus sign.
fn has_minus_sign(text: &str) -> (yes: bool)
    ensures
        yes == starts_with_minus(text@),
{
    !text.is_empty() && text.get_char(0) == '-'
}

/// Whether the text of a constant starts with a minus sign.
fn signed_constant(value: &Constant) -> (yes: bool)
    ensures
        yes == is_signed_constant(*value),
{
    match value {
        Constant::Int(i) => i.negative && !i.is_zero(),
        Constant::Float(t) => has_minus_sign(t.as_str()),
        Constant::Complex { re, im } => re.is_none() && has_minus_sign(im.as_str()),
        _ => false,
    }
}

/// Whether an expression stands in parentheses where one of at least
/// precedence `level` is required.
pub fn should_delimit(node: &Expr, level: usize) -> (yes: bool)
    ensures
        yes == needs_parentheses(*node, level as nat),
{
    proof {
        reveal(needs_parentheses);
    }
    match node {
        Expr::Tuple(data) => data.elts.len() > 0 && PREC_TUPLE < level,
        Expr::Constant(data) => if signed_constant(&data.value) {
            PREC_FACTOR < level
        } else {
            PREC_ATOM < level
        },
        _ => get_precedence(node) < level,
    }
}

} // verus!
