//! What the buffer holds after an expression is rendered, whether the
//! rendering succeeds or stops at a failure.
//!
//! `expr_onto(base, e, level)` is the buffer after `e` is rendered onto a
//! buffer that holds `base`: `base` and the parts of `e` in the order in
//! which they are written, up to the first part that fails. The contract
//! of every rendering function states that the buffer holds this
//! afterwards, and, where the function succeeds, that this is `base` and
//! the text of what it renders.

use crate::ast::{
    Arg, ArgWithDefault, Arguments, Comparison, Comprehension, Constant, DictItem, Expr, Keyword,
};
use crate::error::{first_error, stopping};
use crate::expr_model::{
    arg_error, arguments_parts, bool_op_text, compare_op_text, comprehensions_errors, dict_items_errors, expr_error, exprs_errors, is_int_literal,
    keywords_errors, operator_text, param_error, params_errors, posonly_marker,
    slice_level, slice_part_error, unary_op_text, vararg_error, vararg_parts,
};
use crate::literal::{constant_error, constant_text, constants_errors};
use crate::precedence::{
    bool_op_precedence, left_operand_level, needs_parentheses, right_operand_level,
    unary_op_precedence, PREC_ATOM, PREC_BOR, PREC_OR, PREC_TEST, PREC_TUPLE,
};
use crate::text::led;
use vstd::prelude::*;
use vstd::utf8::valid_utf8;

verus! {

/// The buffer after the items of a tuple of constants from the `i`th on
/// are rendered onto `cur`, with commas between them.
pub open spec fn constants_onto_from(cur: Seq<char>, items: Seq<Constant>, i: nat) -> Seq<char>
    decreases items, items.len() - i,
{
    if i >= items.len() {
        cur
    } else {
        let reached = constant_onto(
            if i > 0 {
                cur + ", "@
            } else {
                cur
            },
            items[i as int],
        );
        stopping(constant_error(items[i as int]), reached, constants_onto_from(reached, items, i + 1))
    }
}

/// The buffer after a constant is rendered onto `base`. A byte string that
/// is not valid UTF-8 leaves the buffer as it is; a tuple that holds one
/// stops before it.
pub open spec fn constant_onto(base: Seq<char>, c: Constant) -> Seq<char>
    decreases c, 0nat,
{
    match c {
        Constant::Tuple(items) => {
            let reached = constants_onto_from(base + "("@, items@, 0);
            stopping(
                first_error(constants_errors(items@)),
                reached,
                if items@.len() == 1 {
                    reached + ","@ + ")"@
                } else {
                    reached + ")"@
                },
            )
        },
        Constant::Bytes(b) => if valid_utf8(b@) {
            base + constant_text(c)
        } else {
            base
        },
        _ => base + constant_text(c),
    }
}

/// The buffer after an expression is rendered onto `base` where one of at
/// least precedence `level` is required.
pub open spec fn expr_onto(base: Seq<char>, e: Expr, level: nat) -> Seq<char>
    decreases e, 1nat,
{
    let reached = expr_bare_onto(
        if needs_parentheses(e, level) {
            base + "("@
        } else {
            base
        },
        e,
    );
    stopping(
        expr_error(e),
        reached,
        if needs_parentheses(e, level) {
            reached + ")"@
        } else {
            reached
        },
    )
}

/// The buffer after the expressions from the `i`th on are rendered onto
/// `cur`, each at `level`, with `sep` between neighbours.
pub open spec fn exprs_onto_from(
    cur: Seq<char>,
    es: Seq<Expr>,
    level: nat,
    sep: Seq<char>,
    i: nat,
) -> Seq<char>
    decreases es, es.len() - i,
{
    if i >= es.len() {
        cur
    } else {
        let reached = expr_onto(
            if i > 0 {
                cur + sep
            } else {
                cur
            },
            es[i as int],
            level,
        );
        stopping(
            expr_error(es[i as int]),
            reached,
            exprs_onto_from(reached, es, level, sep, i + 1),
        )
    }
}

/// The buffer after a keyword argument is rendered onto `base`.
pub open spec fn keyword_onto(base: Seq<char>, k: Keyword) -> Seq<char>
    decreases k, 2nat,
{
    expr_onto(
        match k.arg {
            Some(name) => base + name@ + "="@,
            None => base + "**"@,
        },
        k.value,
        PREC_TEST as nat,
    )
}

/// The buffer after the keyword arguments from the `i`th on are rendered
/// onto `cur`, with commas between them.
pub open spec fn keywords_onto_from(cur: Seq<char>, ks: Seq<Keyword>, i: nat) -> Seq<char>
    decreases ks, ks.len() - i,
{
    if i >= ks.len() {
        cur
    } else {
        let reached = keyword_onto(
            if i > 0 {
                cur + ", "@
            } else {
                cur
            },
            ks[i as int],
        );
        stopping(
            expr_error(ks[i as int].value),
            reached,
            keywords_onto_from(reached, ks, i + 1),
        )
    }
}

/// The buffer after the keyword arguments are rendered behind what is
/// written of an argument list.
pub open spec fn keyword_group_onto(base: Seq<char>, ks: Seq<Keyword>, written: bool) -> Seq<
    char,
>
    decreases ks, ks.len() + 1,
{
    if ks.len() > 0 {
        keywords_onto_from(
            if written {
                base + ", "@
            } else {
                base
            },
            ks,
            0,
        )
    } else {
        base
    }
}

/// The buffer after an optional part of a slice is rendered onto `base`.
pub open spec fn slice_part_onto(base: Seq<char>, part: Option<Box<Expr>>, colon: bool) -> Seq<
    char,
>
    decreases part, 2nat,
{
    match part {
        Some(inner) => expr_onto(
            if colon {
                base + ":"@
            } else {
                base
            },
            *inner,
            PREC_TEST as nat,
        ),
        None => base,
    }
}

/// The buffer after an entry of a dict display is rendered onto `base`.
pub open spec fn dict_item_onto(base: Seq<char>, item: DictItem) -> Seq<char>
    decreases item, 2nat,
{
    match item.key {
        Some(key) => {
            let reached = expr_onto(base, key, PREC_TEST as nat);
            stopping(
                expr_error(key),
                reached,
                expr_onto(reached + ": "@, item.value, PREC_TEST as nat),
            )
        },
        None => expr_onto(base + "**"@, item.value, PREC_BOR as nat),
    }
}

/// The buffer after the entries of a dict display from the `i`th on are
/// rendered onto `cur`, with commas between them.
pub open spec fn dict_items_onto_from(cur: Seq<char>, items: Seq<DictItem>, i: nat) -> Seq<char>
    decreases items, items.len() - i,
{
    if i >= items.len() {
        cur
    } else {
        let reached = dict_item_onto(
            if i > 0 {
                cur + ", "@
            } else {
                cur
            },
            items[i as int],
        );
        stopping(
            crate::expr_model::dict_item_error(items[i as int]),
            reached,
            dict_items_onto_from(reached, items, i + 1),
        )
    }
}

/// The buffer after one step of a comparison chain is rendered onto
/// `base`.
pub open spec fn comparison_onto(base: Seq<char>, c: Comparison) -> Seq<char>
    decreases c, 2nat,
{
    expr_onto(base + " "@ + compare_op_text(c.op) + " "@, c.comparator, PREC_BOR as nat)
}

/// The buffer after the steps of a comparison chain from the `i`th on are
/// rendered onto `cur`.
pub open spec fn comparisons_onto_from(cur: Seq<char>, cs: Seq<Comparison>, i: nat) -> Seq<char>
    decreases cs, cs.len() - i,
{
    if i >= cs.len() {
        cur
    } else {
        let reached = comparison_onto(cur, cs[i as int]);
        stopping(
            expr_error(cs[i as int].comparator),
            reached,
            comparisons_onto_from(reached, cs, i + 1),
        )
    }
}

/// The buffer after the filters of a comprehension clause from the `i`th
/// on are rendered onto `cur`.
pub open spec fn filters_onto_from(cur: Seq<char>, ifs: Seq<Expr>, i: nat) -> Seq<char>
    decreases ifs, ifs.len() - i,
{
    if i >= ifs.len() {
        cur
    } else {
        let reached = expr_onto(cur + " if "@, ifs[i as int], PREC_OR as nat);
        stopping(expr_error(ifs[i as int]), reached, filters_onto_from(reached, ifs, i + 1))
    }
}

/// The buffer after a clause of a comprehension is rendered onto `base`.
pub open spec fn comprehension_onto(base: Seq<char>, c: Comprehension) -> Seq<char>
    decreases c, 3nat,
{
    let target = expr_onto(
        if c.is_async {
            base + " async for "@
        } else {
            base + " for "@
        },
        c.target,
        PREC_TUPLE as nat,
    );
    let iter = expr_onto(target + " in "@, c.iter, PREC_OR as nat);
    stopping(
        expr_error(c.target),
        target,
        stopping(expr_error(c.iter), iter, filters_onto_from(iter, c.ifs@, 0)),
    )
}

/// The buffer after the clauses of a comprehension from the `i`th on are
/// rendered onto `cur`.
pub open spec fn comprehensions_onto_from(cur: Seq<char>, cs: Seq<Comprehension>, i: nat) -> Seq<
    char,
>
    decreases cs, cs.len() - i,
{
    if i >= cs.len() {
        cur
    } else {
        let reached = comprehension_onto(cur, cs[i as int]);
        stopping(
            crate::expr_model::comprehension_error(cs[i as int]),
            reached,
            comprehensions_onto_from(reached, cs, i + 1),
        )
    }
}

/// The buffer after a parameter name with its annotation is rendered onto
/// `base`.
pub open spec fn arg_onto(base: Seq<char>, a: Arg) -> Seq<char>
    decreases a, 2nat,
{
    match a.annotation {
        Some(annotation) => expr_onto(base + a.arg@ + ": "@, *annotation, PREC_TEST as nat),
        None => base + a.arg@,
    }
}

/// The buffer after a parameter is rendered onto `base`.
pub open spec fn param_onto(base: Seq<char>, p: ArgWithDefault) -> Seq<char>
    decreases p, 3nat,
{
    let reached = arg_onto(base, p.def);
    stopping(
        arg_error(p.def),
        reached,
        match p.default {
            Some(default) => expr_onto(reached + "="@, *default, PREC_TEST as nat),
            None => reached,
        },
    )
}

/// The buffer after the parameters of a group from the `i`th on are
/// rendered onto `cur`, with commas between them.
pub open spec fn params_onto_from(cur: Seq<char>, ps: Seq<ArgWithDefault>, i: nat) -> Seq<char>
    decreases ps, ps.len() - i,
{
    if i >= ps.len() {
        cur
    } else {
        let reached = param_onto(
            if i > 0 {
                cur + ", "@
            } else {
                cur
            },
            ps[i as int],
        );
        stopping(param_error(ps[i as int]), reached, params_onto_from(reached, ps, i + 1))
    }
}

/// The buffer after a group of parameters is rendered behind what is
/// written of a parameter list.
pub open spec fn param_group_onto(base: Seq<char>, ps: Seq<ArgWithDefault>, written: bool) -> Seq<
    char,
>
    decreases ps, ps.len() + 1,
{
    if ps.len() > 0 {
        params_onto_from(
            if written {
                base + ", "@
            } else {
                base
            },
            ps,
            0,
        )
    } else {
        base
    }
}

/// The buffer after the `*` part of a parameter list is rendered onto
/// `base`.
pub open spec fn vararg_onto(base: Seq<char>, a: Arguments, written: bool) -> Seq<char>
    decreases a, 3nat,
{
    match a.vararg {
        Some(vararg) => arg_onto(
            (if written {
                base + ", "@
            } else {
                base
            }) + "*"@,
            *vararg,
        ),
        None => base + led(written, vararg_parts(a), ", "@),
    }
}

/// The buffer after the `**name` part of a parameter list is rendered
/// onto `base`.
pub open spec fn kwarg_onto(base: Seq<char>, a: Arguments, written: bool) -> Seq<char>
    decreases a, 3nat,
{
    match a.kwarg {
        Some(kwarg) => arg_onto(
            (if written {
                base + ", "@
            } else {
                base
            }) + "**"@,
            *kwarg,
        ),
        None => base,
    }
}

/// The buffer after a parameter list is rendered onto `base`.
pub open spec fn arguments_onto(base: Seq<char>, a: Arguments) -> Seq<char>
    decreases a, 6nat,
{
    let first = a.posonlyargs@.len() > 0;
    let second = first || a.args@.len() > 0;
    let third = second || a.vararg is Some || a.kwonlyargs@.len() > 0;
    let posonly = param_group_onto(base, a.posonlyargs@, false);
    let plain = param_group_onto(posonly + led(true, posonly_marker(a), ", "@), a.args@, first);
    let star = vararg_onto(plain, a, second);
    let kwonly = param_group_onto(star, a.kwonlyargs@, third);
    stopping(
        first_error(params_errors(a.posonlyargs@)),
        posonly,
        stopping(
            first_error(params_errors(a.args@)),
            plain,
            stopping(
                vararg_error(a),
                star,
                stopping(
                    first_error(params_errors(a.kwonlyargs@)),
                    kwonly,
                    kwarg_onto(kwonly, a, third),
                ),
            ),
        ),
    )
}

/// The buffer after an expression is rendered onto `base` without
/// parentheses around the whole: the parts of the expression in the order
/// in which they are written, up to the first that fails.
pub open spec fn expr_bare_onto(base: Seq<char>, e: Expr) -> Seq<char>
    decreases e, 0nat,
{
    match e {
        Expr::BoolOp(d) => exprs_onto_from(
            base,
            d.values@,
            bool_op_precedence(d.op) + 1,
            " "@ + bool_op_text(d.op) + " "@,
            0,
        ),
        Expr::NamedExpr(d) => {
            let target = expr_onto(base, *d.target, PREC_ATOM as nat);
            stopping(
                expr_error(*d.target),
                target,
                expr_onto(target + " := "@, *d.value, PREC_TEST as nat),
            )
        },
        Expr::BinOp(d) => {
            let left = expr_onto(base, *d.left, left_operand_level(d.op));
            stopping(
                expr_error(*d.left),
                left,
                expr_onto(
                    left + " "@ + operator_text(d.op) + " "@,
                    *d.right,
                    right_operand_level(d.op),
                ),
            )
        },
        Expr::UnaryOp(d) => expr_onto(
            base + unary_op_text(d.op),
            *d.operand,
            unary_op_precedence(d.op),
        ),
        Expr::Lambda(d) => {
            let args = arguments_onto(
                if arguments_parts(*d.args).len() > 0 {
                    base + "lambda"@ + " "@
                } else {
                    base + "lambda"@
                },
                *d.args,
            );
            stopping(
                crate::expr_model::arguments_error(*d.args),
                args,
                expr_onto(args + ": "@, *d.body, PREC_TEST as nat),
            )
        },
        Expr::IfExp(d) => {
            let body = expr_onto(base, *d.body, PREC_OR as nat);
            let test = expr_onto(body + " if "@, *d.test, PREC_OR as nat);
            stopping(
                expr_error(*d.body),
                body,
                stopping(
                    expr_error(*d.test),
                    test,
                    expr_onto(test + " else "@, *d.orelse, PREC_TEST as nat),
                ),
            )
        },
        Expr::Dict(d) => {
            let items = dict_items_onto_from(base + "{"@, d.items@, 0);
            stopping(first_error(dict_items_errors(d.items@)), items, items + "}"@)
        },
        Expr::SetExpr(d) => if d.elts@.len() == 0 {
            base + "{*()}"@
        } else {
            let elts = exprs_onto_from(base + "{"@, d.elts@, PREC_TEST as nat, ", "@, 0);
            stopping(first_error(exprs_errors(d.elts@)), elts, elts + "}"@)
        },
        Expr::ListComp(d) => {
            let elt = expr_onto(base + "["@, *d.elt, PREC_TEST as nat);
            let clauses = comprehensions_onto_from(elt, d.generators@, 0);
            stopping(
                expr_error(*d.elt),
                elt,
                stopping(
                    first_error(comprehensions_errors(d.generators@)),
                    clauses,
                    clauses + "]"@,
                ),
            )
        },
        Expr::SetComp(d) => {
            let elt = expr_onto(base + "{"@, *d.elt, PREC_TEST as nat);
            let clauses = comprehensions_onto_from(elt, d.generators@, 0);
            stopping(
                expr_error(*d.elt),
                elt,
                stopping(
                    first_error(comprehensions_errors(d.generators@)),
                    clauses,
                    clauses + "}"@,
                ),
            )
        },
        Expr::DictComp(d) => {
            let key = expr_onto(base + "{"@, *d.key, PREC_TEST as nat);
            let value = expr_onto(key + ": "@, *d.value, PREC_TEST as nat);
            let clauses = comprehensions_onto_from(value, d.generators@, 0);
            stopping(
                expr_error(*d.key),
                key,
                stopping(
                    expr_error(*d.value),
                    value,
                    stopping(
                        first_error(comprehensions_errors(d.generators@)),
                        clauses,
                        clauses + "}"@,
                    ),
                ),
            )
        },
        Expr::GeneratorExp(d) => {
            let elt = expr_onto(base + "("@, *d.elt, PREC_TEST as nat);
            let clauses = comprehensions_onto_from(elt, d.generators@, 0);
            stopping(
                expr_error(*d.elt),
                elt,
                stopping(
                    first_error(comprehensions_errors(d.generators@)),
                    clauses,
                    clauses + ")"@,
                ),
            )
        },
        Expr::Await(d) => expr_onto(base + "await "@, *d.value, PREC_ATOM as nat),
        Expr::Yield(d) => match d.value {
            Some(value) => expr_onto(base + "yield"@ + " "@, *value, PREC_TEST as nat),
            None => base + "yield"@,
        },
        Expr::YieldFrom(d) => expr_onto(base + "yield from "@, *d.value, PREC_TEST as nat),
        Expr::Compare(d) => {
            let left = expr_onto(base, *d.left, PREC_BOR as nat);
            stopping(expr_error(*d.left), left, comparisons_onto_from(left, d.comparisons@, 0))
        },
        Expr::Call(d) => {
            let func = expr_onto(base, *d.func, PREC_ATOM as nat);
            let args = exprs_onto_from(func + "("@, d.args@, PREC_TEST as nat, ", "@, 0);
            let keywords = keyword_group_onto(args, d.keywords@, d.args@.len() > 0);
            stopping(
                expr_error(*d.func),
                func,
                stopping(
                    first_error(exprs_errors(d.args@)),
                    args,
                    stopping(first_error(keywords_errors(d.keywords@)), keywords, keywords + ")"@),
                ),
            )
        },
        Expr::FormattedValue(_) => base,
        Expr::JoinedStr(_) => base,
        Expr::Constant(d) => constant_onto(
            if d.kind matches Some(k) && k@ == "u"@ && d.value is Str {
                base + "u"@
            } else {
                base
            },
            d.value,
        ),
        Expr::Attribute(d) => {
            let value = expr_onto(base, *d.value, PREC_ATOM as nat);
            stopping(
                expr_error(*d.value),
                value,
                (if is_int_literal(*d.value) {
                    value + " "@
                } else {
                    value
                }) + "."@ + d.attr@,
            )
        },
        Expr::Subscript(d) => {
            let value = expr_onto(base, *d.value, PREC_ATOM as nat);
            let slice = expr_onto(value + "["@, *d.slice, slice_level(*d.slice));
            stopping(
                expr_error(*d.value),
                value,
                stopping(expr_error(*d.slice), slice, slice + "]"@),
            )
        },
        Expr::Starred(d) => expr_onto(base + "*"@, *d.value, PREC_BOR as nat),
        Expr::Name(d) => base + d.id@,
        Expr::List(d) => {
            let elts = exprs_onto_from(base + "["@, d.elts@, PREC_TEST as nat, ", "@, 0);
            stopping(first_error(exprs_errors(d.elts@)), elts, elts + "]"@)
        },
        Expr::Tuple(d) => if d.elts@.len() == 0 {
            base + "()"@
        } else {
            let elts = exprs_onto_from(base, d.elts@, PREC_TEST as nat, ", "@, 0);
            stopping(
                first_error(exprs_errors(d.elts@)),
                elts,
                if d.elts@.len() == 1 {
                    elts + ","@
                } else {
                    elts
                },
            )
        },
        Expr::Slice(d) => {
            let lower = slice_part_onto(base, d.lower, false);
            let upper = slice_part_onto(lower + ":"@, d.upper, false);
            stopping(
                slice_part_error(d.lower),
                lower,
                stopping(slice_part_error(d.upper), upper, slice_part_onto(upper, d.step, true)),
            )
        },
    }
}

} // verus!
