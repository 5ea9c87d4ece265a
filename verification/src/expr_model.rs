//! What an expression renders to: its text, and whether it can be rendered.
//!
//! `expr_text(e, level)` is the text of `e` where an expression of at least
//! precedence `level` is required; `expr_error(e)` is the failure that
//! rendering `e` ends in, if any.

use crate::ast::{
    Arg, ArgWithDefault, Arguments, BoolOp, CmpOp, Comparison, Comprehension, Constant, DictItem,
    Expr, ExprConstant, Keyword, Operator, UnaryOp,
};
use crate::error::{first_error, or_error, UnparseError};
use crate::literal::{constant_error, constant_text};
use crate::precedence::{
    bool_op_precedence, left_operand_level, needs_parentheses, right_operand_level,
    unary_op_precedence,
    PREC_ATOM, PREC_BOR, PREC_OR, PREC_TEST, PREC_TUPLE,
};
use crate::text::{concat, delimited, join, led, lemma_join_led, optional};
use vstd::prelude::*;

verus! {

/// The word of a short-circuit operator.
pub open spec fn bool_op_text(op: BoolOp) -> Seq<char> {
    match op {
        BoolOp::And => "and"@,
        BoolOp::Or => "or"@,
    }
}

/// The sign of a binary operator.
pub open spec fn operator_text(op: Operator) -> Seq<char> {
    match op {
        Operator::Add => "+"@,
        Operator::Sub => "-"@,
        Operator::Mult => "*"@,
        Operator::MatMult => "@"@,
        Operator::Div => "/"@,
        Operator::Mod => "%"@,
        Operator::Pow => "**"@,
        Operator::LShift => "<<"@,
        Operator::RShift => ">>"@,
        Operator::BitOr => "|"@,
        Operator::BitXor => "^"@,
        Operator::BitAnd => "&"@,
        Operator::FloorDiv => "//"@,
    }
}

/// The sign of a prefix operator, with the space that `not` needs.
pub open spec fn unary_op_text(op: UnaryOp) -> Seq<char> {
    match op {
        UnaryOp::Invert => "~"@,
        UnaryOp::Not => "not "@,
        UnaryOp::UAdd => "+"@,
        UnaryOp::USub => "-"@,
    }
}

/// The sign or words of a comparison operator.
pub open spec fn compare_op_text(op: CmpOp) -> Seq<char> {
    match op {
        CmpOp::Eq => "=="@,
        CmpOp::NotEq => "!="@,
        CmpOp::Lt => "<"@,
        CmpOp::LtE => "<="@,
        CmpOp::Gt => ">"@,
        CmpOp::GtE => ">="@,
        CmpOp::Is => "is"@,
        CmpOp::IsNot => "is not"@,
        CmpOp::In => "in"@,
        CmpOp::NotIn => "not in"@,
    }
}

/// The prefix of a constant: `u` before a string whose kind is `u`.
pub open spec fn constant_prefix(d: ExprConstant) -> Seq<char> {
    optional(d.kind matches Some(k) && k@ == "u"@ && d.value is Str, "u"@)
}

/// Whether an expression is an integer literal, after which the dot of an
/// attribute access needs a space.
pub open spec fn is_int_literal(e: Expr) -> bool {
    e matches Expr::Constant(d) && d.value is Int
}

/// What the expression between the brackets of a subscript must bind as
/// tightly as: a tuple stands there without parentheses.
pub open spec fn slice_level(e: Expr) -> nat {
    if e is Tuple {
        PREC_TUPLE as nat
    } else {
        PREC_TEST as nat
    }
}

/// The text of an expression where one of at least precedence `level` is
/// required: in parentheses where `needs_parentheses` says so, which is
/// where its own precedence is lower.
pub open spec fn expr_text(e: Expr, level: nat) -> Seq<char>
    decreases e, 1nat,
{
    delimited(needs_parentheses(e, level), expr_bare(e))
}

/// The texts of a list of expressions, each at `level`.
pub open spec fn exprs_texts(es: Seq<Expr>, level: nat) -> Seq<Seq<char>>
    decreases es, 2nat,
{
    Seq::new(
        es.len(),
        |i: int|
            if 0 <= i < es.len() {
                expr_text(es[i], level)
            } else {
                Seq::empty()
            },
    )
}

/// A keyword argument: `name=value`, or `**value` without a name.
pub open spec fn keyword_text(k: Keyword) -> Seq<char>
    decreases k, 0nat,
{
    match k.arg {
        Some(name) => name@ + "="@ + expr_text(k.value, PREC_TEST as nat),
        None => "**"@ + expr_text(k.value, PREC_TEST as nat),
    }
}

/// The texts of a list of keyword arguments.
pub open spec fn keywords_texts(ks: Seq<Keyword>) -> Seq<Seq<char>>
    decreases ks, 2nat,
{
    Seq::new(
        ks.len(),
        |i: int|
            if 0 <= i < ks.len() {
                keyword_text(ks[i])
            } else {
                Seq::empty()
            },
    )
}

/// An entry of a dict display: `key: value`, or `**value` without a key.
pub open spec fn dict_item_text(item: DictItem) -> Seq<char>
    decreases item, 0nat,
{
    match item.key {
        Some(key) => expr_text(key, PREC_TEST as nat) + ": "@ + expr_text(
            item.value,
            PREC_TEST as nat,
        ),
        None => "**"@ + expr_text(item.value, PREC_BOR as nat),
    }
}

/// The texts of the entries of a dict display.
pub open spec fn dict_items_texts(items: Seq<DictItem>) -> Seq<Seq<char>>
    decreases items, 2nat,
{
    Seq::new(
        items.len(),
        |i: int|
            if 0 <= i < items.len() {
                dict_item_text(items[i])
            } else {
                Seq::empty()
            },
    )
}

/// One step of a comparison chain: the operator between spaces and its
/// right operand.
pub open spec fn comparison_text(c: Comparison) -> Seq<char>
    decreases c, 0nat,
{
    " "@ + compare_op_text(c.op) + " "@ + expr_text(c.comparator, PREC_BOR as nat)
}

/// The texts of the steps of a comparison chain.
pub open spec fn comparisons_texts(cs: Seq<Comparison>) -> Seq<Seq<char>>
    decreases cs, 2nat,
{
    Seq::new(
        cs.len(),
        |i: int|
            if 0 <= i < cs.len() {
                comparison_text(cs[i])
            } else {
                Seq::empty()
            },
    )
}

/// The texts of the filters of a comprehension clause: ` if ` and the
/// condition, for each.
pub open spec fn filters_texts(ifs: Seq<Expr>) -> Seq<Seq<char>>
    decreases ifs, 2nat,
{
    Seq::new(
        ifs.len(),
        |i: int|
            if 0 <= i < ifs.len() {
                " if "@ + expr_text(ifs[i], PREC_OR as nat)
            } else {
                Seq::empty()
            },
    )
}

/// A clause of a comprehension: ` for target in iter`, with `async` before
/// `for` if it is asynchronous, then its filters.
pub open spec fn comprehension_text(c: Comprehension) -> Seq<char>
    decreases c, 3nat,
{
    (if c.is_async {
        " async for "@
    } else {
        " for "@
    }) + expr_text(c.target, PREC_TUPLE as nat) + " in "@ + expr_text(c.iter, PREC_OR as nat)
        + concat(filters_texts(c.ifs@))
}

/// The texts of the clauses of a comprehension.
pub open spec fn comprehensions_texts(cs: Seq<Comprehension>) -> Seq<Seq<char>>
    decreases cs, 4nat,
{
    Seq::new(
        cs.len(),
        |i: int|
            if 0 <= i < cs.len() {
                comprehension_text(cs[i])
            } else {
                Seq::empty()
            },
    )
}

/// A parameter name with its annotation, if it has one.
pub open spec fn arg_text(a: Arg) -> Seq<char>
    decreases a, 0nat,
{
    a.arg@ + match a.annotation {
        Some(annotation) => ": "@ + expr_text(*annotation, PREC_TEST as nat),
        None => Seq::empty(),
    }
}

/// A parameter with its default value, if it has one.
pub open spec fn param_text(p: ArgWithDefault) -> Seq<char>
    decreases p, 1nat,
{
    arg_text(p.def) + match p.default {
        Some(default) => "="@ + expr_text(*default, PREC_TEST as nat),
        None => Seq::empty(),
    }
}

/// The texts of a group of parameters.
pub open spec fn params_texts(ps: Seq<ArgWithDefault>) -> Seq<Seq<char>>
    decreases ps, 2nat,
{
    Seq::new(
        ps.len(),
        |i: int|
            if 0 <= i < ps.len() {
                param_text(ps[i])
            } else {
                Seq::empty()
            },
    )
}

/// The part of a parameter list that a `*` starts: `*name` where there is a
/// variadic parameter, a bare `*` where keyword-only parameters follow
/// without one, and nothing otherwise.
pub open spec fn vararg_parts(a: Arguments) -> Seq<Seq<char>>
    decreases a, 0nat,
{
    match a.vararg {
        Some(vararg) => seq!["*"@ + arg_text(*vararg)],
        None => if a.kwonlyargs@.len() > 0 {
            seq!["*"@]
        } else {
            Seq::empty()
        },
    }
}

/// The part of a parameter list for `**name`, if there is one.
pub open spec fn kwarg_parts(a: Arguments) -> Seq<Seq<char>>
    decreases a, 0nat,
{
    match a.kwarg {
        Some(kwarg) => seq!["**"@ + arg_text(*kwarg)],
        None => Seq::empty(),
    }
}

/// The marker that ends the positional-only parameters, where there are
/// any.
pub open spec fn posonly_marker(a: Arguments) -> Seq<Seq<char>> {
    if a.posonlyargs@.len() > 0 {
        seq!["/"@]
    } else {
        Seq::empty()
    }
}

/// The parts of a parameter list in order: the positional-only parameters
/// and their marker `/`, the positional parameters, the `*` part, the
/// keyword-only parameters, and `**name`.
pub open spec fn arguments_parts(a: Arguments) -> Seq<Seq<char>>
    decreases a, 3nat,
{
    params_texts(a.posonlyargs@) + posonly_marker(a) + params_texts(a.args@) + vararg_parts(a)
        + params_texts(a.kwonlyargs@) + kwarg_parts(a)
}

/// A parameter list: its parts separated by commas. An empty list is the
/// empty text.
pub open spec fn arguments_text(a: Arguments) -> Seq<char>
    decreases a, 4nat,
{
    join(arguments_parts(a), ", "@)
}

/// An optional part of a slice: the expression, behind a colon where
/// `colon` says so, or nothing.
pub open spec fn slice_part_text(part: Option<Box<Expr>>, colon: bool) -> Seq<char> {
    match part {
        Some(inner) => if colon {
            ":"@ + expr_text(*inner, PREC_TEST as nat)
        } else {
            expr_text(*inner, PREC_TEST as nat)
        },
        None => Seq::empty(),
    }
}

/// The failure of an optional part of a slice.
pub open spec fn slice_part_error(part: Option<Box<Expr>>) -> Option<UnparseError> {
    match part {
        Some(inner) => expr_error(*inner),
        None => None,
    }
}

/// A parameter list group by group: each group led by a comma where a
/// part stands before it.
pub proof fn lemma_arguments_text(a: Arguments)
    ensures
        arguments_text(a) == led(false, params_texts(a.posonlyargs@), ", "@) + led(
            true,
            posonly_marker(a),
            ", "@,
        ) + led(a.posonlyargs@.len() > 0, params_texts(a.args@), ", "@) + led(
            a.posonlyargs@.len() > 0 || a.args@.len() > 0,
            vararg_parts(a),
            ", "@,
        ) + led(
            a.posonlyargs@.len() > 0 || a.args@.len() > 0 || a.vararg is Some || a.kwonlyargs@.len()
                > 0,
            params_texts(a.kwonlyargs@),
            ", "@,
        ) + led(
            a.posonlyargs@.len() > 0 || a.args@.len() > 0 || a.vararg is Some || a.kwonlyargs@.len()
                > 0,
            kwarg_parts(a),
            ", "@,
        ),
{
    let sep = ", "@;
    let posonly = params_texts(a.posonlyargs@);
    let marker = posonly_marker(a);
    let plain = params_texts(a.args@);
    let star = vararg_parts(a);
    let kwonly = params_texts(a.kwonlyargs@);
    let kwarg = kwarg_parts(a);
    assert(join(posonly, sep) =~= led(false, posonly, sep));
    lemma_join_led(posonly, marker, sep);
    lemma_join_led(posonly + marker, plain, sep);
    lemma_join_led(posonly + marker + plain, star, sep);
    lemma_join_led(posonly + marker + plain + star, kwonly, sep);
    lemma_join_led(posonly + marker + plain + star + kwonly, kwarg, sep);
    assert(led(posonly.len() > 0, marker, sep) == led(true, marker, sep));
}

/// The text of an expression without parentheses around the whole.
pub open spec fn expr_bare(e: Expr) -> Seq<char>
    decreases e, 0nat,
{
    match e {
        Expr::BoolOp(d) => join(
            exprs_texts(d.values@, bool_op_precedence(d.op) + 1),
            " "@ + bool_op_text(d.op) + " "@,
        ),
        Expr::NamedExpr(d) => expr_text(*d.target, PREC_ATOM as nat) + " := "@ + expr_text(
            *d.value,
            PREC_TEST as nat,
        ),
        Expr::BinOp(d) => expr_text(*d.left, left_operand_level(d.op)) + " "@ + operator_text(d.op)
            + " "@ + expr_text(*d.right, right_operand_level(d.op)),
        Expr::UnaryOp(d) => unary_op_text(d.op) + expr_text(*d.operand, unary_op_precedence(d.op)),
        Expr::Lambda(d) => "lambda"@ + optional(arguments_parts(*d.args).len() > 0, " "@)
            + arguments_text(*d.args) + ": "@ + expr_text(*d.body, PREC_TEST as nat),
        Expr::IfExp(d) => expr_text(*d.body, PREC_OR as nat) + " if "@ + expr_text(
            *d.test,
            PREC_OR as nat,
        ) + " else "@ + expr_text(*d.orelse, PREC_TEST as nat),
        Expr::Dict(d) => "{"@ + join(dict_items_texts(d.items@), ", "@) + "}"@,
        Expr::SetExpr(d) => if d.elts@.len() == 0 {
            "{*()}"@
        } else {
            "{"@ + join(exprs_texts(d.elts@, PREC_TEST as nat), ", "@) + "}"@
        },
        Expr::ListComp(d) => "["@ + expr_text(*d.elt, PREC_TEST as nat) + concat(
            comprehensions_texts(d.generators@),
        ) + "]"@,
        Expr::SetComp(d) => "{"@ + expr_text(*d.elt, PREC_TEST as nat) + concat(
            comprehensions_texts(d.generators@),
        ) + "}"@,
        Expr::DictComp(d) => "{"@ + expr_text(*d.key, PREC_TEST as nat) + ": "@ + expr_text(
            *d.value,
            PREC_TEST as nat,
        ) + concat(comprehensions_texts(d.generators@)) + "}"@,
        Expr::GeneratorExp(d) => "("@ + expr_text(*d.elt, PREC_TEST as nat) + concat(
            comprehensions_texts(d.generators@),
        ) + ")"@,
        Expr::Await(d) => "await "@ + expr_text(*d.value, PREC_ATOM as nat),
        Expr::Yield(d) => "yield"@ + match d.value {
            Some(value) => " "@ + expr_text(*value, PREC_TEST as nat),
            None => Seq::empty(),
        },
        Expr::YieldFrom(d) => "yield from "@ + expr_text(*d.value, PREC_TEST as nat),
        Expr::Compare(d) => expr_text(*d.left, PREC_BOR as nat) + concat(
            comparisons_texts(d.comparisons@),
        ),
        Expr::Call(d) => expr_text(*d.func, PREC_ATOM as nat) + "("@ + join(
            exprs_texts(d.args@, PREC_TEST as nat) + keywords_texts(d.keywords@),
            ", "@,
        ) + ")"@,
        Expr::FormattedValue(_) => Seq::empty(),
        Expr::JoinedStr(_) => Seq::empty(),
        Expr::Constant(d) => constant_prefix(d) + constant_text(d.value),
        Expr::Attribute(d) => expr_text(*d.value, PREC_ATOM as nat) + optional(
            is_int_literal(*d.value),
            " "@,
        ) + "."@ + d.attr@,
        Expr::Subscript(d) => expr_text(*d.value, PREC_ATOM as nat) + "["@ + expr_text(
            *d.slice,
            slice_level(*d.slice),
        ) + "]"@,
        Expr::Starred(d) => "*"@ + expr_text(*d.value, PREC_BOR as nat),
        Expr::Name(d) => d.id@,
        Expr::List(d) => "["@ + join(exprs_texts(d.elts@, PREC_TEST as nat), ", "@) + "]"@,
        Expr::Tuple(d) => if d.elts@.len() == 0 {
            "()"@
        } else {
            join(exprs_texts(d.elts@, PREC_TEST as nat), ", "@) + optional(
                d.elts@.len() == 1,
                ","@,
            )
        },
        Expr::Slice(d) => (match d.lower {
            Some(lower) => expr_text(*lower, PREC_TEST as nat),
            None => Seq::empty(),
        }) + ":"@ + (match d.upper {
            Some(upper) => expr_text(*upper, PREC_TEST as nat),
            None => Seq::empty(),
        }) + (match d.step {
            Some(step) => ":"@ + expr_text(*step, PREC_TEST as nat),
            None => Seq::empty(),
        }),
    }
}

/// The failures of a list of expressions.
pub open spec fn exprs_errors(es: Seq<Expr>) -> Seq<Option<UnparseError>>
    decreases es, 2nat,
{
    Seq::new(
        es.len(),
        |i: int|
            if 0 <= i < es.len() {
                expr_error(es[i])
            } else {
                None
            },
    )
}

/// The failures of a list of keyword arguments.
pub open spec fn keywords_errors(ks: Seq<Keyword>) -> Seq<Option<UnparseError>>
    decreases ks, 2nat,
{
    Seq::new(
        ks.len(),
        |i: int|
            if 0 <= i < ks.len() {
                expr_error(ks[i].value)
            } else {
                None
            },
    )
}

/// The failure of an entry of a dict display.
pub open spec fn dict_item_error(item: DictItem) -> Option<UnparseError>
    decreases item, 0nat,
{
    match item.key {
        Some(key) => or_error(expr_error(key), expr_error(item.value)),
        None => expr_error(item.value),
    }
}

/// The failures of the entries of a dict display.
pub open spec fn dict_items_errors(items: Seq<DictItem>) -> Seq<Option<UnparseError>>
    decreases items, 2nat,
{
    Seq::new(
        items.len(),
        |i: int|
            if 0 <= i < items.len() {
                dict_item_error(items[i])
            } else {
                None
            },
    )
}

/// The failures of the steps of a comparison chain.
pub open spec fn comparisons_errors(cs: Seq<Comparison>) -> Seq<Option<UnparseError>>
    decreases cs, 2nat,
{
    Seq::new(
        cs.len(),
        |i: int|
            if 0 <= i < cs.len() {
                expr_error(cs[i].comparator)
            } else {
                None
            },
    )
}

/// The failure of a clause of a comprehension.
pub open spec fn comprehension_error(c: Comprehension) -> Option<UnparseError>
    decreases c, 3nat,
{
    or_error(
        expr_error(c.target),
        or_error(expr_error(c.iter), first_error(exprs_errors(c.ifs@))),
    )
}

/// The failures of the clauses of a comprehension.
pub open spec fn comprehensions_errors(cs: Seq<Comprehension>) -> Seq<Option<UnparseError>>
    decreases cs, 4nat,
{
    Seq::new(
        cs.len(),
        |i: int|
            if 0 <= i < cs.len() {
                comprehension_error(cs[i])
            } else {
                None
            },
    )
}

/// The failure of a parameter name with its annotation.
pub open spec fn arg_error(a: Arg) -> Option<UnparseError>
    decreases a, 2nat,
{
    match a.annotation {
        Some(annotation) => expr_error(*annotation),
        None => None,
    }
}

/// The failure of a parameter with its default value.
pub open spec fn param_error(p: ArgWithDefault) -> Option<UnparseError>
    decreases p, 3nat,
{
    or_error(
        arg_error(p.def),
        match p.default {
            Some(default) => expr_error(*default),
            None => None,
        },
    )
}

/// The failures of a group of parameters.
pub open spec fn params_errors(ps: Seq<ArgWithDefault>) -> Seq<Option<UnparseError>>
    decreases ps, 4nat,
{
    Seq::new(
        ps.len(),
        |i: int|
            if 0 <= i < ps.len() {
                param_error(ps[i])
            } else {
                None
            },
    )
}

/// The failure of the `*name` part of a parameter list.
pub open spec fn vararg_error(a: Arguments) -> Option<UnparseError>
    decreases a, 0nat,
{
    match a.vararg {
        Some(vararg) => arg_error(*vararg),
        None => None,
    }
}

/// The failure of the `**name` part of a parameter list.
pub open spec fn kwarg_error(a: Arguments) -> Option<UnparseError>
    decreases a, 0nat,
{
    match a.kwarg {
        Some(kwarg) => arg_error(*kwarg),
        None => None,
    }
}

/// The failure of a parameter list: that of the first part that fails.
pub open spec fn arguments_error(a: Arguments) -> Option<UnparseError>
    decreases a, 5nat,
{
    or_error(
        first_error(params_errors(a.posonlyargs@)),
        or_error(
            first_error(params_errors(a.args@)),
            or_error(
                vararg_error(a),
                or_error(first_error(params_errors(a.kwonlyargs@)), kwarg_error(a)),
            ),
        ),
    )
}

/// The failure that rendering an expression ends in, if any.
///
/// A formatted string and an interpolated value have no rendering. A
/// constant fails as `constant_error` says. Every other expression fails
/// as the first of its parts that fails, in the order in which they are
/// written.
pub open spec fn expr_error(e: Expr) -> Option<UnparseError>
    decreases e, 0nat,
{
    match e {
        Expr::BoolOp(d) => first_error(exprs_errors(d.values@)),
        Expr::NamedExpr(d) => or_error(expr_error(*d.target), expr_error(*d.value)),
        Expr::BinOp(d) => or_error(expr_error(*d.left), expr_error(*d.right)),
        Expr::UnaryOp(d) => expr_error(*d.operand),
        Expr::Lambda(d) => or_error(arguments_error(*d.args), expr_error(*d.body)),
        Expr::IfExp(d) => or_error(
            expr_error(*d.body),
            or_error(expr_error(*d.test), expr_error(*d.orelse)),
        ),
        Expr::Dict(d) => first_error(dict_items_errors(d.items@)),
        Expr::SetExpr(d) => first_error(exprs_errors(d.elts@)),
        Expr::ListComp(d) => or_error(
            expr_error(*d.elt),
            first_error(comprehensions_errors(d.generators@)),
        ),
        Expr::SetComp(d) => or_error(
            expr_error(*d.elt),
            first_error(comprehensions_errors(d.generators@)),
        ),
        Expr::DictComp(d) => or_error(
            expr_error(*d.key),
            or_error(expr_error(*d.value), first_error(comprehensions_errors(d.generators@))),
        ),
        Expr::GeneratorExp(d) => or_error(
            expr_error(*d.elt),
            first_error(comprehensions_errors(d.generators@)),
        ),
        Expr::Await(d) => expr_error(*d.value),
        Expr::Yield(d) => match d.value {
            Some(value) => expr_error(*value),
            None => None,
        },
        Expr::YieldFrom(d) => expr_error(*d.value),
        Expr::Compare(d) => or_error(
            expr_error(*d.left),
            first_error(comparisons_errors(d.comparisons@)),
        ),
        Expr::Call(d) => or_error(
            expr_error(*d.func),
            or_error(
                first_error(exprs_errors(d.args@)),
                first_error(keywords_errors(d.keywords@)),
            ),
        ),
        Expr::FormattedValue(_) => Some(UnparseError::UnsupportedConstruct),
        Expr::JoinedStr(_) => Some(UnparseError::UnsupportedConstruct),
        Expr::Constant(d) => constant_error(d.value),
        Expr::Attribute(d) => expr_error(*d.value),
        Expr::Subscript(d) => or_error(expr_error(*d.value), expr_error(*d.slice)),
        Expr::Starred(d) => expr_error(*d.value),
        Expr::Name(_) => None,
        Expr::List(d) => first_error(exprs_errors(d.elts@)),
        Expr::Tuple(d) => first_error(exprs_errors(d.elts@)),
        Expr::Slice(d) => or_error(
            match d.lower {
                Some(lower) => expr_error(*lower),
                None => None,
            },
            or_error(
                match d.upper {
                    Some(upper) => expr_error(*upper),
                    None => None,
                },
                match d.step {
                    Some(step) => expr_error(*step),
                    None => None,
                },
            ),
        ),
    }
}

} // verus!
