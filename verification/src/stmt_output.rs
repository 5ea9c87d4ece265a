//! What the buffer holds after a statement is rendered, whether the
//! rendering succeeds or stops at a failure.
//!
//! `stmt_onto(base, s, indent)` is the buffer after `s` is rendered onto a
//! buffer that holds `base`, in a block of depth `indent`: `base` and the
//! parts of `s` in the order in which they are written, up to the first
//! part that fails.

use crate::ast::{
    Arguments, ExceptHandler, Expr, Keyword, MatchCase, Stmt, TypeParam, WithItem,
};
use crate::error::{first_error, or_error, stopping};
use crate::expr_model::{arguments_error, expr_error, exprs_errors, keywords_errors, operator_text};
use crate::expr_output::{arguments_onto, expr_onto, exprs_onto_from, keywords_onto_from};
use crate::pattern_model::{pattern_error, PATTERN_ANY};
use crate::pattern_output::pattern_onto;
use crate::precedence::PREC_TEST;
use crate::stmt_model::{
    class_head_error, function_head_error, handler_error, handler_keyword,
    handlers_errors, match_case_error, optional_expr_error, optional_name_text, stmt_error,
    stmt_text, stmts_errors, type_param_error, type_param_text, type_params_errors,
    with_item_error, with_items_errors,
};
use crate::text::{line_start, nested};
use vstd::prelude::*;

verus! {

/// The buffer after an optional expression is rendered onto `base` behind
/// `prefix`.
pub open spec fn optional_onto(base: Seq<char>, prefix: Seq<char>, e: Option<Box<Expr>>) -> Seq<
    char,
> {
    match e {
        Some(inner) => expr_onto(base + prefix, *inner, PREC_TEST as nat),
        None => base,
    }
}

/// The buffer after the decorators from the `i`th on are rendered onto
/// `cur`.
pub open spec fn decorators_onto_from(cur: Seq<char>, ds: Seq<Expr>, indent: nat, i: nat) -> Seq<
    char,
>
    decreases ds.len() - i,
{
    if i >= ds.len() {
        cur
    } else {
        let reached = expr_onto(cur + (line_start(indent) + "@"@), ds[i as int], PREC_TEST as nat);
        stopping(
            expr_error(ds[i as int]),
            reached,
            decorators_onto_from(reached, ds, indent, i + 1),
        )
    }
}

/// The buffer after a type parameter is rendered onto `base`.
pub open spec fn type_param_onto(base: Seq<char>, p: TypeParam) -> Seq<char> {
    match p {
        TypeParam::TypeVar(d) => optional_onto(base + d.name@, ": "@, d.bound),
        _ => base + type_param_text(p),
    }
}

/// The buffer after the type parameters from the `i`th on are rendered
/// onto `cur`, with commas between them.
pub open spec fn type_params_onto_from(cur: Seq<char>, ps: Seq<TypeParam>, i: nat) -> Seq<char>
    decreases ps.len() - i,
{
    if i >= ps.len() {
        cur
    } else {
        let reached = type_param_onto(
            if i > 0 {
                cur + ", "@
            } else {
                cur
            },
            ps[i as int],
        );
        stopping(
            type_param_error(ps[i as int]),
            reached,
            type_params_onto_from(reached, ps, i + 1),
        )
    }
}

/// The buffer after the type parameters of a definition are rendered onto
/// `base`.
pub open spec fn type_params_onto(base: Seq<char>, ps: Seq<TypeParam>) -> Seq<char> {
    if ps.len() > 0 {
        let reached = type_params_onto_from(base + "["@, ps, 0);
        stopping(first_error(type_params_errors(ps)), reached, reached + "]"@)
    } else {
        base
    }
}

/// The buffer after the targets of an assignment from the `i`th on are
/// rendered onto `cur`.
pub open spec fn targets_onto_from(cur: Seq<char>, ts: Seq<Expr>, i: nat) -> Seq<char>
    decreases ts.len() - i,
{
    if i >= ts.len() {
        cur
    } else {
        let reached = expr_onto(cur, ts[i as int], PREC_TEST as nat);
        stopping(
            expr_error(ts[i as int]),
            reached,
            targets_onto_from(reached + " = "@, ts, i + 1),
        )
    }
}

/// The buffer after a context manager is rendered onto `base`.
pub open spec fn with_item_onto(base: Seq<char>, item: WithItem) -> Seq<char> {
    let context = expr_onto(base, item.context_expr, PREC_TEST as nat);
    stopping(
        expr_error(item.context_expr),
        context,
        optional_onto(context, " as "@, item.optional_vars),
    )
}

/// The buffer after the context managers from the `i`th on are rendered
/// onto `cur`, with commas between them.
pub open spec fn with_items_onto_from(cur: Seq<char>, items: Seq<WithItem>, i: nat) -> Seq<char>
    decreases items.len() - i,
{
    if i >= items.len() {
        cur
    } else {
        let reached = with_item_onto(
            if i > 0 {
                cur + ", "@
            } else {
                cur
            },
            items[i as int],
        );
        stopping(
            with_item_error(items[i as int]),
            reached,
            with_items_onto_from(reached, items, i + 1),
        )
    }
}

/// The buffer after the header of a `with` statement is rendered onto
/// `base`.
pub open spec fn with_head_onto(
    base: Seq<char>,
    keyword: Seq<char>,
    items: Seq<WithItem>,
    indent: nat,
) -> Seq<char> {
    let reached = with_items_onto_from(base + (line_start(indent) + keyword), items, 0);
    stopping(first_error(with_items_errors(items)), reached, reached + ":"@)
}

/// The buffer after the header of a `for` statement is rendered onto
/// `base`.
pub open spec fn for_head_onto(
    base: Seq<char>,
    keyword: Seq<char>,
    target: Expr,
    iter: Expr,
    indent: nat,
) -> Seq<char> {
    let first = expr_onto(base + (line_start(indent) + keyword), target, PREC_TEST as nat);
    let second = expr_onto(first + " in "@, iter, PREC_TEST as nat);
    stopping(expr_error(target), first, stopping(expr_error(iter), second, second + ":"@))
}

/// The buffer after the header of a function definition is rendered onto
/// `base`.
pub open spec fn function_head_onto(
    base: Seq<char>,
    keyword: Seq<char>,
    decorators: Seq<Expr>,
    name: Seq<char>,
    type_params: Seq<TypeParam>,
    args: Arguments,
    result_type: Option<Box<Expr>>,
    indent: nat,
) -> Seq<char> {
    let decorated = decorators_onto_from(base, decorators, indent, 0);
    let typed = type_params_onto(decorated + (line_start(indent) + keyword) + name, type_params);
    let listed = arguments_onto(typed + "("@, args);
    let annotated = optional_onto(listed + ")"@, " -> "@, result_type);
    stopping(
        first_error(exprs_errors(decorators)),
        decorated,
        stopping(
            first_error(type_params_errors(type_params)),
            typed,
            stopping(
                arguments_error(args),
                listed,
                stopping(optional_expr_error(result_type), annotated, annotated + ":"@),
            ),
        ),
    )
}

/// The buffer after the header of a class definition is rendered onto
/// `base`.
pub open spec fn class_head_onto(
    base: Seq<char>,
    decorators: Seq<Expr>,
    name: Seq<char>,
    type_params: Seq<TypeParam>,
    bases: Seq<Expr>,
    keywords: Seq<Keyword>,
    indent: nat,
) -> Seq<char> {
    let decorated = decorators_onto_from(base, decorators, indent, 0);
    let typed = type_params_onto(
        decorated + (line_start(indent) + "class "@) + name,
        type_params,
    );
    let positional = exprs_onto_from(typed + "("@, bases, PREC_TEST as nat, ", "@, 0);
    let named = keywords_onto_from(
        if bases.len() > 0 && keywords.len() > 0 {
            positional + ", "@
        } else {
            positional
        },
        keywords,
        0,
    );
    stopping(
        first_error(exprs_errors(decorators)),
        decorated,
        stopping(
            first_error(type_params_errors(type_params)),
            typed,
            stopping(
                first_error(exprs_errors(bases)),
                positional,
                stopping(first_error(keywords_errors(keywords)), named, named + "):"@),
            ),
        ),
    )
}

/// The buffer after the target of an annotated assignment is rendered
/// onto `base`.
pub open spec fn annotated_target_onto(base: Seq<char>, target: Expr, delimit: bool) -> Seq<char> {
    if delimit {
        let reached = expr_onto(base + "("@, target, PREC_TEST as nat);
        stopping(expr_error(target), reached, reached + ")"@)
    } else {
        expr_onto(base, target, PREC_TEST as nat)
    }
}

/// The buffer after the statements from the `i`th on are rendered onto
/// `cur` at depth `indent`.
pub open spec fn stmts_onto_from(cur: Seq<char>, body: Seq<Stmt>, indent: nat, i: nat) -> Seq<
    char,
>
    decreases body, body.len() - i,
{
    if i >= body.len() {
        cur
    } else {
        let reached = stmt_onto(cur, body[i as int], indent);
        stopping(
            stmt_error(body[i as int]),
            reached,
            stmts_onto_from(reached, body, indent, i + 1),
        )
    }
}

/// The buffer after the body of a compound statement that stands at depth
/// `indent` is rendered onto `base`.
pub open spec fn block_onto(base: Seq<char>, body: Seq<Stmt>, indent: nat) -> Seq<char>
    decreases body, body.len() + 1,
{
    stmts_onto_from(base, body, nested(indent), 0)
}

/// The buffer after a clause that is there only where it has statements
/// is rendered onto `base`.
pub open spec fn clause_onto(base: Seq<char>, keyword: Seq<char>, body: Seq<Stmt>, indent: nat) -> Seq<
    char,
>
    decreases body, body.len() + 2,
{
    if body.len() > 0 {
        block_onto(base + (line_start(indent) + keyword), body, indent)
    } else {
        base
    }
}

/// The buffer after what follows the body of an `if` statement is
/// rendered onto `base`.
pub open spec fn if_tail_onto(base: Seq<char>, orelse: Seq<Stmt>, indent: nat) -> Seq<char>
    decreases orelse, orelse.len() + 3,
{
    if orelse.len() == 1 && orelse[0] is If {
        let inner = orelse[0]->If_0;
        let tested = expr_onto(
            base + (line_start(indent) + "elif "@),
            *inner.test,
            PREC_TEST as nat,
        );
        let body = block_onto(tested + ":"@, inner.body@, indent);
        stopping(
            expr_error(*inner.test),
            tested,
            stopping(
                first_error(stmts_errors(inner.body@)),
                body,
                if_tail_onto(body, inner.orelse@, indent),
            ),
        )
    } else {
        clause_onto(base, "else:"@, orelse, indent)
    }
}

/// The buffer after a handler clause is rendered onto `base`.
pub open spec fn handler_onto(base: Seq<char>, h: ExceptHandler, star: bool, indent: nat) -> Seq<
    char,
>
    decreases h, 0nat,
{
    match h {
        ExceptHandler::ExceptHandler(d) => {
            let typed = optional_onto(
                base + (line_start(indent) + handler_keyword(star)),
                " "@,
                d.type_,
            );
            stopping(
                optional_expr_error(d.type_),
                typed,
                block_onto(typed + optional_name_text(" as "@, d.name) + ":"@, d.body@, indent),
            )
        },
    }
}

/// The buffer after the handler clauses from the `i`th on are rendered
/// onto `cur`.
pub open spec fn handlers_onto_from(
    cur: Seq<char>,
    hs: Seq<ExceptHandler>,
    star: bool,
    indent: nat,
    i: nat,
) -> Seq<char>
    decreases hs, hs.len() - i,
{
    if i >= hs.len() {
        cur
    } else {
        let reached = handler_onto(cur, hs[i as int], star, indent);
        stopping(
            handler_error(hs[i as int]),
            reached,
            handlers_onto_from(reached, hs, star, indent, i + 1),
        )
    }
}

/// The buffer after a `case` clause is rendered onto `base`.
pub open spec fn match_case_onto(base: Seq<char>, c: MatchCase, indent: nat) -> Seq<char>
    decreases c, 0nat,
{
    let matched = pattern_onto(
        base + (line_start(indent) + "case "@),
        c.pattern,
        PATTERN_ANY as nat,
    );
    let guarded = optional_onto(matched, " if "@, c.guard);
    stopping(
        pattern_error(c.pattern),
        matched,
        stopping(
            optional_expr_error(c.guard),
            guarded,
            block_onto(guarded + ":"@, c.body@, indent),
        ),
    )
}

/// The buffer after the `case` clauses from the `i`th on are rendered
/// onto `cur` at depth `indent`.
pub open spec fn cases_onto_from(cur: Seq<char>, cs: Seq<MatchCase>, indent: nat, i: nat) -> Seq<
    char,
>
    decreases cs, cs.len() - i,
{
    if i >= cs.len() {
        cur
    } else {
        let reached = match_case_onto(cur, cs[i as int], indent);
        stopping(
            match_case_error(cs[i as int]),
            reached,
            cases_onto_from(reached, cs, indent, i + 1),
        )
    }
}

/// The buffer after a statement is rendered onto `base` in a block of
/// depth `indent`: the parts of the statement in the order in which they
/// are written, up to the first that fails.
pub open spec fn stmt_onto(base: Seq<char>, s: Stmt, indent: nat) -> Seq<char>
    decreases s, 0nat,
{
    match s {
        Stmt::FunctionDef(d) => {
            let head = function_head_onto(
                base,
                "def "@,
                d.decorator_list@,
                d.name@,
                d.type_params@,
                *d.args,
                d.returns,
                indent,
            );
            stopping(
                function_head_error(d.decorator_list@, d.type_params@, *d.args, d.returns),
                head,
                block_onto(head, d.body@, indent),
            )
        },
        Stmt::AsyncFunctionDef(d) => {
            let head = function_head_onto(
                base,
                "async def "@,
                d.decorator_list@,
                d.name@,
                d.type_params@,
                *d.args,
                d.returns,
                indent,
            );
            stopping(
                function_head_error(d.decorator_list@, d.type_params@, *d.args, d.returns),
                head,
                block_onto(head, d.body@, indent),
            )
        },
        Stmt::ClassDef(d) => {
            let head = class_head_onto(
                base,
                d.decorator_list@,
                d.name@,
                d.type_params@,
                d.bases@,
                d.keywords@,
                indent,
            );
            stopping(
                class_head_error(d.decorator_list@, d.type_params@, d.bases@, d.keywords@),
                head,
                block_onto(head, d.body@, indent),
            )
        },
        Stmt::Return(d) => optional_onto(base + (line_start(indent) + "return"@), " "@, d.value),
        Stmt::Delete(d) => exprs_onto_from(
            base + (line_start(indent) + "del "@),
            d.targets@,
            PREC_TEST as nat,
            ", "@,
            0,
        ),
        Stmt::Assign(d) => {
            let targets = targets_onto_from(base + line_start(indent), d.targets@, 0);
            let value = expr_onto(targets, *d.value, PREC_TEST as nat);
            stopping(
                first_error(exprs_errors(d.targets@)),
                targets,
                stopping(
                    expr_error(*d.value),
                    value,
                    value + optional_name_text(" # type: "@, d.type_comment),
                ),
            )
        },
        Stmt::TypeAlias(d) => {
            let named = expr_onto(base + (line_start(indent) + "type "@), *d.name, PREC_TEST as nat);
            let typed = type_params_onto(named, d.type_params@);
            stopping(
                expr_error(*d.name),
                named,
                stopping(
                    first_error(type_params_errors(d.type_params@)),
                    typed,
                    expr_onto(typed + " = "@, *d.value, PREC_TEST as nat),
                ),
            )
        },
        Stmt::AugAssign(d) => {
            let target = expr_onto(base + line_start(indent), *d.target, PREC_TEST as nat);
            stopping(
                expr_error(*d.target),
                target,
                expr_onto(
                    target + " "@ + operator_text(d.op) + "= "@,
                    *d.value,
                    PREC_TEST as nat,
                ),
            )
        },
        Stmt::AnnAssign(d) => {
            let target = annotated_target_onto(
                base + line_start(indent),
                *d.target,
                !d.simple && *d.target is Name,
            );
            let annotation = expr_onto(target + ": "@, *d.annotation, PREC_TEST as nat);
            stopping(
                expr_error(*d.target),
                target,
                stopping(
                    expr_error(*d.annotation),
                    annotation,
                    optional_onto(annotation, " = "@, d.value),
                ),
            )
        },
        Stmt::For(d) => {
            let head = for_head_onto(base, "for "@, *d.target, *d.iter, indent);
            let body = block_onto(head, d.body@, indent);
            stopping(
                or_error(expr_error(*d.target), expr_error(*d.iter)),
                head,
                stopping(
                    first_error(stmts_errors(d.body@)),
                    body,
                    clause_onto(body, "else:"@, d.orelse@, indent),
                ),
            )
        },
        Stmt::AsyncFor(d) => {
            let head = for_head_onto(base, "async for "@, *d.target, *d.iter, indent);
            let body = block_onto(head, d.body@, indent);
            stopping(
                or_error(expr_error(*d.target), expr_error(*d.iter)),
                head,
                stopping(
                    first_error(stmts_errors(d.body@)),
                    body,
                    clause_onto(body, "else:"@, d.orelse@, indent),
                ),
            )
        },
        Stmt::While(d) => {
            let tested = expr_onto(
                base + (line_start(indent) + "while "@),
                *d.test,
                PREC_TEST as nat,
            );
            let body = block_onto(tested + ":"@, d.body@, indent);
            stopping(
                expr_error(*d.test),
                tested,
                stopping(
                    first_error(stmts_errors(d.body@)),
                    body,
                    clause_onto(body, "else:"@, d.orelse@, indent),
                ),
            )
        },
        Stmt::If(d) => {
            let tested = expr_onto(base + (line_start(indent) + "if "@), *d.test, PREC_TEST as nat);
            let body = block_onto(tested + ":"@, d.body@, indent);
            stopping(
                expr_error(*d.test),
                tested,
                stopping(
                    first_error(stmts_errors(d.body@)),
                    body,
                    if_tail_onto(body, d.orelse@, indent),
                ),
            )
        },
        Stmt::With(d) => {
            let head = with_head_onto(base, "with "@, d.items@, indent);
            stopping(
                first_error(with_items_errors(d.items@)),
                head,
                block_onto(head, d.body@, indent),
            )
        },
        Stmt::AsyncWith(d) => {
            let head = with_head_onto(base, "async with "@, d.items@, indent);
            stopping(
                first_error(with_items_errors(d.items@)),
                head,
                block_onto(head, d.body@, indent),
            )
        },
        Stmt::Match(d) => {
            let subject = expr_onto(
                base + (line_start(indent) + "match "@),
                *d.subject,
                PREC_TEST as nat,
            );
            stopping(
                expr_error(*d.subject),
                subject,
                cases_onto_from(subject + ":"@, d.cases@, nested(indent), 0),
            )
        },
        Stmt::Raise(d) => {
            let raised = optional_onto(base + (line_start(indent) + "raise"@), " "@, d.exc);
            stopping(optional_expr_error(d.exc), raised, optional_onto(raised, " from "@, d.cause))
        },
        Stmt::Try(d) => {
            let tried = block_onto(base + (line_start(indent) + "try:"@), d.body@, indent);
            let handled = handlers_onto_from(tried, d.handlers@, false, indent, 0);
            let otherwise = clause_onto(handled, "else:"@, d.orelse@, indent);
            stopping(
                first_error(stmts_errors(d.body@)),
                tried,
                stopping(
                    first_error(handlers_errors(d.handlers@)),
                    handled,
                    stopping(
                        first_error(stmts_errors(d.orelse@)),
                        otherwise,
                        clause_onto(otherwise, "finally:"@, d.finalbody@, indent),
                    ),
                ),
            )
        },
        Stmt::TryStar(d) => {
            let tried = block_onto(base + (line_start(indent) + "try:"@), d.body@, indent);
            let handled = handlers_onto_from(tried, d.handlers@, true, indent, 0);
            let otherwise = clause_onto(handled, "else:"@, d.orelse@, indent);
            stopping(
                first_error(stmts_errors(d.body@)),
                tried,
                stopping(
                    first_error(handlers_errors(d.handlers@)),
                    handled,
                    stopping(
                        first_error(stmts_errors(d.orelse@)),
                        otherwise,
                        clause_onto(otherwise, "finally:"@, d.finalbody@, indent),
                    ),
                ),
            )
        },
        Stmt::Assert(d) => {
            let tested = expr_onto(
                base + (line_start(indent) + "assert "@),
                *d.test,
                PREC_TEST as nat,
            );
            stopping(expr_error(*d.test), tested, optional_onto(tested, ", "@, d.msg))
        },
        Stmt::Expr(d) => expr_onto(base + line_start(indent), *d.value, PREC_TEST as nat),
        _ => base + stmt_text(s, indent),
    }
}

} // verus!
