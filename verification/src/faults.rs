//! Which nodes of a tree make its rendering fail.
//!
//! A node is at fault where it has no rendering or cannot be carried as
//! text: a formatted string, an interpolated value, a pattern bound to no
//! name, a byte string that is not valid UTF-8. `expr_has`, `pattern_has` and `stmt_has` tell whether a
//! tree holds such a node among the nodes that are written; the lemmas
//! relate them to the failure that rendering ends in.

use crate::ast::{
    Arg, ArgWithDefault, Arguments, Comparison, Comprehension, Constant, DictItem, ExceptHandler,
    Expr, Keyword, KeywordPattern, MappingEntry, MatchCase, Pattern, Stmt, TypeParam, WithItem,
};
use crate::error::{first_error, lemma_first_error_from, UnparseError};
use crate::expr_model::{
    arg_error, arguments_error, comparisons_errors, comprehension_error, comprehensions_errors,
    dict_item_error, dict_items_errors, expr_error, exprs_errors, keywords_errors, kwarg_error,
    param_error, params_errors, vararg_error,
};
use crate::literal::{constant_error, constants_errors};
use crate::pattern_model::{
    keyword_patterns_errors, mapping_entries_errors, mapping_entry_error, pattern_error,
    patterns_errors,
};
use crate::stmt_model::{
    cases_errors, handler_error, handlers_errors, if_tail_error, match_case_error,
    optional_expr_error, stmt_error, stmts_errors, type_param_error, type_params_errors,
    with_item_error, with_items_errors,
};
use vstd::prelude::*;
use vstd::utf8::valid_utf8;

verus! {

/// Whether one of the flags is set.
pub open spec fn any(flags: Seq<bool>) -> bool {
    exists|i: int| 0 <= i < flags.len() && flags[i]
}

/// Which items of a list of constants hold a node at fault.
pub open spec fn constants_have(items: Seq<Constant>, fault: UnparseError) -> Seq<bool>
    decreases items, 1nat,
{
    Seq::new(
        items.len(),
        |i: int|
            if 0 <= i < items.len() {
                constant_has(items[i], fault)
            } else {
                false
            },
    )
}

/// Whether a constant is, or as a tuple holds, a byte string that is not
/// valid UTF-8, where `fault` is `EncodingError`. No constant is at fault
/// in another way.
pub open spec fn constant_has(c: Constant, fault: UnparseError) -> bool
    decreases c, 0nat,
{
    match c {
        Constant::Bytes(b) => fault is EncodingError && !valid_utf8(b@),
        Constant::Tuple(items) => any(constants_have(items@, fault)),
        _ => false,
    }
}

/// Which expressions of a list hold a node at fault.
pub open spec fn exprs_have(es: Seq<Expr>, fault: UnparseError) -> Seq<bool>
    decreases es, 1nat,
{
    Seq::new(
        es.len(),
        |i: int|
            if 0 <= i < es.len() {
                expr_has(es[i], fault)
            } else {
                false
            },
    )
}

/// Which keyword arguments of a list hold a node at fault.
pub open spec fn keywords_have(ks: Seq<Keyword>, fault: UnparseError) -> Seq<bool>
    decreases ks, 1nat,
{
    Seq::new(
        ks.len(),
        |i: int|
            if 0 <= i < ks.len() {
                expr_has(ks[i].value, fault)
            } else {
                false
            },
    )
}

/// Whether an entry of a dict display holds a node at fault.
pub open spec fn dict_item_has(item: DictItem, fault: UnparseError) -> bool
    decreases item, 0nat,
{
    (match item.key {
        Some(key) => expr_has(key, fault),
        None => false,
    }) || expr_has(item.value, fault)
}

/// Which entries of a dict display hold a node at fault.
pub open spec fn dict_items_have(items: Seq<DictItem>, fault: UnparseError) -> Seq<bool>
    decreases items, 1nat,
{
    Seq::new(
        items.len(),
        |i: int|
            if 0 <= i < items.len() {
                dict_item_has(items[i], fault)
            } else {
                false
            },
    )
}

/// Which steps of a comparison chain hold a node at fault.
pub open spec fn comparisons_have(cs: Seq<Comparison>, fault: UnparseError) -> Seq<bool>
    decreases cs, 1nat,
{
    Seq::new(
        cs.len(),
        |i: int|
            if 0 <= i < cs.len() {
                expr_has(cs[i].comparator, fault)
            } else {
                false
            },
    )
}

/// Whether a clause of a comprehension holds a node at fault.
pub open spec fn comprehension_has(c: Comprehension, fault: UnparseError) -> bool
    decreases c, 2nat,
{
    expr_has(c.target, fault) || expr_has(c.iter, fault) || any(exprs_have(c.ifs@, fault))
}

/// Which clauses of a comprehension hold a node at fault.
pub open spec fn comprehensions_have(cs: Seq<Comprehension>, fault: UnparseError) -> Seq<bool>
    decreases cs, 3nat,
{
    Seq::new(
        cs.len(),
        |i: int|
            if 0 <= i < cs.len() {
                comprehension_has(cs[i], fault)
            } else {
                false
            },
    )
}

/// Whether the annotation of a parameter holds a node at fault.
pub open spec fn arg_has(a: Arg, fault: UnparseError) -> bool
    decreases a, 0nat,
{
    match a.annotation {
        Some(annotation) => expr_has(*annotation, fault),
        None => false,
    }
}

/// Whether a parameter holds a node at fault, in its annotation or its
/// default value.
pub open spec fn param_has(p: ArgWithDefault, fault: UnparseError) -> bool
    decreases p, 1nat,
{
    arg_has(p.def, fault) || match p.default {
        Some(default) => expr_has(*default, fault),
        None => false,
    }
}

/// Which parameters of a group hold a node at fault.
pub open spec fn params_have(ps: Seq<ArgWithDefault>, fault: UnparseError) -> Seq<bool>
    decreases ps, 2nat,
{
    Seq::new(
        ps.len(),
        |i: int|
            if 0 <= i < ps.len() {
                param_has(ps[i], fault)
            } else {
                false
            },
    )
}

/// Whether a parameter list holds a node at fault.
pub open spec fn arguments_have(a: Arguments, fault: UnparseError) -> bool
    decreases a, 3nat,
{
    any(params_have(a.posonlyargs@, fault)) || any(params_have(a.args@, fault)) || (match a.vararg {
        Some(vararg) => arg_has(*vararg, fault),
        None => false,
    }) || any(params_have(a.kwonlyargs@, fault)) || (match a.kwarg {
        Some(kwarg) => arg_has(*kwarg, fault),
        None => false,
    })
}

/// Whether an expression holds a node at fault among the nodes that are
/// written. A formatted string and an interpolated value are at fault as
/// `UnsupportedConstruct`; what stands inside them is never written.
pub open spec fn expr_has(e: Expr, fault: UnparseError) -> bool
    decreases e, 0nat,
{
    match e {
        Expr::BoolOp(d) => any(exprs_have(d.values@, fault)),
        Expr::NamedExpr(d) => expr_has(*d.target, fault) || expr_has(*d.value, fault),
        Expr::BinOp(d) => expr_has(*d.left, fault) || expr_has(*d.right, fault),
        Expr::UnaryOp(d) => expr_has(*d.operand, fault),
        Expr::Lambda(d) => arguments_have(*d.args, fault) || expr_has(*d.body, fault),
        Expr::IfExp(d) => expr_has(*d.body, fault) || expr_has(*d.test, fault) || expr_has(
            *d.orelse,
            fault,
        ),
        Expr::Dict(d) => any(dict_items_have(d.items@, fault)),
        Expr::SetExpr(d) => any(exprs_have(d.elts@, fault)),
        Expr::ListComp(d) => expr_has(*d.elt, fault) || any(
            comprehensions_have(d.generators@, fault),
        ),
        Expr::SetComp(d) => expr_has(*d.elt, fault) || any(
            comprehensions_have(d.generators@, fault),
        ),
        Expr::DictComp(d) => expr_has(*d.key, fault) || expr_has(*d.value, fault) || any(
            comprehensions_have(d.generators@, fault),
        ),
        Expr::GeneratorExp(d) => expr_has(*d.elt, fault) || any(
            comprehensions_have(d.generators@, fault),
        ),
        Expr::Await(d) => expr_has(*d.value, fault),
        Expr::Yield(d) => match d.value {
            Some(value) => expr_has(*value, fault),
            None => false,
        },
        Expr::YieldFrom(d) => expr_has(*d.value, fault),
        Expr::Compare(d) => expr_has(*d.left, fault) || any(
            comparisons_have(d.comparisons@, fault),
        ),
        Expr::Call(d) => expr_has(*d.func, fault) || any(exprs_have(d.args@, fault)) || any(
            keywords_have(d.keywords@, fault),
        ),
        Expr::FormattedValue(_) => fault is UnsupportedConstruct,
        Expr::JoinedStr(_) => fault is UnsupportedConstruct,
        Expr::Constant(d) => constant_has(d.value, fault),
        Expr::Attribute(d) => expr_has(*d.value, fault),
        Expr::Subscript(d) => expr_has(*d.value, fault) || expr_has(*d.slice, fault),
        Expr::Starred(d) => expr_has(*d.value, fault),
        Expr::Name(_) => false,
        Expr::List(d) => any(exprs_have(d.elts@, fault)),
        Expr::Tuple(d) => any(exprs_have(d.elts@, fault)),
        Expr::Slice(d) => (match d.lower {
            Some(lower) => expr_has(*lower, fault),
            None => false,
        }) || (match d.upper {
            Some(upper) => expr_has(*upper, fault),
            None => false,
        }) || (match d.step {
            Some(step) => expr_has(*step, fault),
            None => false,
        }),
    }
}

/// Whether an optional expression holds a node at fault.
pub open spec fn optional_has(e: Option<Box<Expr>>, fault: UnparseError) -> bool {
    match e {
        Some(inner) => expr_has(*inner, fault),
        None => false,
    }
}

/// Which patterns of a list hold a node at fault.
pub open spec fn patterns_have(ps: Seq<Pattern>, fault: UnparseError) -> Seq<bool>
    decreases ps, 1nat,
{
    Seq::new(
        ps.len(),
        |i: int|
            if 0 <= i < ps.len() {
                pattern_has(ps[i], fault)
            } else {
                false
            },
    )
}

/// Which entries of a mapping pattern hold a node at fault.
pub open spec fn mapping_entries_have(entries: Seq<MappingEntry>, fault: UnparseError) -> Seq<
    bool,
>
    decreases entries, 1nat,
{
    Seq::new(
        entries.len(),
        |i: int|
            if 0 <= i < entries.len() {
                expr_has(entries[i].key, fault) || pattern_has(entries[i].pattern, fault)
            } else {
                false
            },
    )
}

/// Which keyword arguments of a class pattern hold a node at fault.
pub open spec fn keyword_patterns_have(ks: Seq<KeywordPattern>, fault: UnparseError) -> Seq<bool>
    decreases ks, 1nat,
{
    Seq::new(
        ks.len(),
        |i: int|
            if 0 <= i < ks.len() {
                pattern_has(ks[i].pattern, fault)
            } else {
                false
            },
    )
}

/// Whether a pattern holds a node at fault among the nodes that are
/// written. A pattern bound to no name is at fault as
/// `UnsupportedConstruct`; what stands inside it is never written.
pub open spec fn pattern_has(p: Pattern, fault: UnparseError) -> bool
    decreases p, 0nat,
{
    match p {
        Pattern::MatchValue(d) => expr_has(*d.value, fault),
        Pattern::MatchSingleton(d) => constant_has(d.value, fault),
        Pattern::MatchSequence(d) => any(patterns_have(d.patterns@, fault)),
        Pattern::MatchMapping(d) => any(mapping_entries_have(d.entries@, fault)),
        Pattern::MatchClass(d) => expr_has(*d.cls, fault) || any(
            patterns_have(d.patterns@, fault),
        ) || any(keyword_patterns_have(d.kwd_patterns@, fault)),
        Pattern::MatchStar(_) => false,
        Pattern::MatchAs(d) => match d.name {
            None => match d.pattern {
                None => false,
                Some(_) => fault is UnsupportedConstruct,
            },
            Some(_) => match d.pattern {
                None => false,
                Some(inner) => pattern_has(*inner, fault),
            },
        },
        Pattern::MatchOr(d) => any(patterns_have(d.patterns@, fault)),
    }
}

/// Which context managers of a `with` statement hold a node at fault.
pub open spec fn with_items_have(items: Seq<WithItem>, fault: UnparseError) -> Seq<bool> {
    Seq::new(
        items.len(),
        |i: int|
            expr_has(items[i].context_expr, fault) || optional_has(items[i].optional_vars, fault),
    )
}

/// Whether a type parameter holds a node at fault, in its bound.
pub open spec fn type_param_has(p: TypeParam, fault: UnparseError) -> bool {
    match p {
        TypeParam::TypeVar(d) => optional_has(d.bound, fault),
        TypeParam::ParamSpec(_) => false,
        TypeParam::TypeVarTuple(_) => false,
    }
}

/// Which type parameters of a list hold a node at fault.
pub open spec fn type_params_have(ps: Seq<TypeParam>, fault: UnparseError) -> Seq<bool> {
    Seq::new(ps.len(), |i: int| type_param_has(ps[i], fault))
}

/// Which statements of a list hold a node at fault.
pub open spec fn stmts_have(body: Seq<Stmt>, fault: UnparseError) -> Seq<bool>
    decreases body, 1nat,
{
    Seq::new(
        body.len(),
        |i: int|
            if 0 <= i < body.len() {
                stmt_has(body[i], fault)
            } else {
                false
            },
    )
}

/// Whether a handler clause holds a node at fault.
pub open spec fn handler_has(h: ExceptHandler, fault: UnparseError) -> bool
    decreases h, 0nat,
{
    match h {
        ExceptHandler::ExceptHandler(d) => optional_has(d.type_, fault) || any(
            stmts_have(d.body@, fault),
        ),
    }
}

/// Which handler clauses of a `try` statement hold a node at fault.
pub open spec fn handlers_have(hs: Seq<ExceptHandler>, fault: UnparseError) -> Seq<bool>
    decreases hs, 1nat,
{
    Seq::new(
        hs.len(),
        |i: int|
            if 0 <= i < hs.len() {
                handler_has(hs[i], fault)
            } else {
                false
            },
    )
}

/// Whether a `case` clause holds a node at fault.
pub open spec fn match_case_has(c: MatchCase, fault: UnparseError) -> bool
    decreases c, 0nat,
{
    pattern_has(c.pattern, fault) || optional_has(c.guard, fault) || any(
        stmts_have(c.body@, fault),
    )
}

/// Which `case` clauses of a `match` statement hold a node at fault.
pub open spec fn cases_have(cs: Seq<MatchCase>, fault: UnparseError) -> Seq<bool>
    decreases cs, 1nat,
{
    Seq::new(
        cs.len(),
        |i: int|
            if 0 <= i < cs.len() {
                match_case_has(cs[i], fault)
            } else {
                false
            },
    )
}

/// Whether a statement holds a node at fault among the nodes that are
/// written.
pub open spec fn stmt_has(s: Stmt, fault: UnparseError) -> bool
    decreases s, 0nat,
{
    match s {
        Stmt::FunctionDef(d) => any(exprs_have(d.decorator_list@, fault)) || any(
            type_params_have(d.type_params@, fault),
        ) || arguments_have(*d.args, fault) || optional_has(d.returns, fault) || any(
            stmts_have(d.body@, fault),
        ),
        Stmt::AsyncFunctionDef(d) => any(exprs_have(d.decorator_list@, fault)) || any(
            type_params_have(d.type_params@, fault),
        ) || arguments_have(*d.args, fault) || optional_has(d.returns, fault) || any(
            stmts_have(d.body@, fault),
        ),
        Stmt::ClassDef(d) => any(exprs_have(d.decorator_list@, fault)) || any(
            type_params_have(d.type_params@, fault),
        ) || any(exprs_have(d.bases@, fault)) || any(keywords_have(d.keywords@, fault)) || any(
            stmts_have(d.body@, fault),
        ),
        Stmt::Return(d) => optional_has(d.value, fault),
        Stmt::Delete(d) => any(exprs_have(d.targets@, fault)),
        Stmt::Assign(d) => any(exprs_have(d.targets@, fault)) || expr_has(*d.value, fault),
        Stmt::TypeAlias(d) => expr_has(*d.name, fault) || any(
            type_params_have(d.type_params@, fault),
        ) || expr_has(*d.value, fault),
        Stmt::AugAssign(d) => expr_has(*d.target, fault) || expr_has(*d.value, fault),
        Stmt::AnnAssign(d) => expr_has(*d.target, fault) || expr_has(*d.annotation, fault)
            || optional_has(d.value, fault),
        Stmt::For(d) => expr_has(*d.target, fault) || expr_has(*d.iter, fault) || any(
            stmts_have(d.body@, fault),
        ) || any(stmts_have(d.orelse@, fault)),
        Stmt::AsyncFor(d) => expr_has(*d.target, fault) || expr_has(*d.iter, fault) || any(
            stmts_have(d.body@, fault),
        ) || any(stmts_have(d.orelse@, fault)),
        Stmt::While(d) => expr_has(*d.test, fault) || any(stmts_have(d.body@, fault)) || any(
            stmts_have(d.orelse@, fault),
        ),
        Stmt::If(d) => expr_has(*d.test, fault) || any(stmts_have(d.body@, fault)) || any(
            stmts_have(d.orelse@, fault),
        ),
        Stmt::With(d) => any(with_items_have(d.items@, fault)) || any(stmts_have(d.body@, fault)),
        Stmt::AsyncWith(d) => any(with_items_have(d.items@, fault)) || any(
            stmts_have(d.body@, fault),
        ),
        Stmt::Match(d) => expr_has(*d.subject, fault) || any(cases_have(d.cases@, fault)),
        Stmt::Raise(d) => optional_has(d.exc, fault) || optional_has(d.cause, fault),
        Stmt::Try(d) => any(stmts_have(d.body@, fault)) || any(handlers_have(d.handlers@, fault))
            || any(stmts_have(d.orelse@, fault)) || any(stmts_have(d.finalbody@, fault)),
        Stmt::TryStar(d) => any(stmts_have(d.body@, fault)) || any(
            handlers_have(d.handlers@, fault),
        ) || any(stmts_have(d.orelse@, fault)) || any(stmts_have(d.finalbody@, fault)),
        Stmt::Assert(d) => expr_has(*d.test, fault) || optional_has(d.msg, fault),
        Stmt::Import(_) => false,
        Stmt::ImportFrom(_) => false,
        Stmt::Global(_) => false,
        Stmt::Nonlocal(_) => false,
        Stmt::Expr(d) => expr_has(*d.value, fault),
        Stmt::Pass(_) => false,
        Stmt::Break(_) => false,
        Stmt::Continue(_) => false,
    }
}

/// How a failure and a fault go together: the failure `err` of a tree that
/// holds a fault as `has` says. Where rendering fails with `fault`, the
/// tree holds a node at fault so; where the tree holds such a node,
/// rendering fails.
pub open spec fn agree(err: Option<UnparseError>, has: bool, fault: UnparseError) -> bool {
    &&& err == Some(fault) ==> has
    &&& has ==> err is Some
}

/// What follows where a failure agrees with both kinds of fault: there is
/// a failure exactly where there is a fault of one kind, and a tree with a
/// fault of one kind only fails with it.
pub proof fn lemma_agree_both(err: Option<UnparseError>, unsupported: bool, misencoded: bool)
    requires
        agree(err, unsupported, UnparseError::UnsupportedConstruct),
        agree(err, misencoded, UnparseError::EncodingError),
    ensures
        err is Some <==> unsupported || misencoded,
        unsupported && !misencoded ==> err == Some(UnparseError::UnsupportedConstruct),
        misencoded && !unsupported ==> err == Some(UnparseError::EncodingError),
{
    match err {
        Some(UnparseError::UnsupportedConstruct) => {},
        Some(UnparseError::EncodingError) => {},
        None => {},
    }
}

/// A list fails as its first failing part does: where each part agrees
/// with its flag, the list agrees with whether any flag is set.
pub proof fn lemma_list_agrees(
    errs: Seq<Option<UnparseError>>,
    flags: Seq<bool>,
    fault: UnparseError,
)
    requires
        errs.len() == flags.len(),
        forall|i: int| 0 <= i < errs.len() ==> agree(#[trigger] errs[i], flags[i], fault),
    ensures
        agree(first_error(errs), any(flags), fault),
{
    lemma_first_error_from(errs, 0);
    if any(flags) {
        let i = choose|i: int| 0 <= i < flags.len() && flags[i];
        assert(agree(errs[i], flags[i], fault));
    }
    if first_error(errs) == Some(fault) {
        let j = choose|j: int| 0 <= j < errs.len() && errs[j] == first_error(errs);
        assert(agree(errs[j], flags[j], fault));
        assert(flags[j]);
    }
}

/// The items of a tuple of constants fail as the items at fault say.
pub proof fn lemma_constants(items: Seq<Constant>, fault: UnparseError)
    ensures
        agree(first_error(constants_errors(items)), any(constants_have(items, fault)), fault),
    decreases items, 1nat,
{
    let errs = constants_errors(items);
    let flags = constants_have(items, fault);
    assert forall|i: int| 0 <= i < errs.len() implies agree(#[trigger] errs[i], flags[i], fault) by {
        lemma_constant(items[i], fault);
    }
    lemma_list_agrees(errs, flags, fault);
}

/// A constant fails exactly where it holds a byte string that is not
/// valid UTF-8.
pub proof fn lemma_constant(c: Constant, fault: UnparseError)
    ensures
        agree(constant_error(c), constant_has(c, fault), fault),
    decreases c, 0nat,
{
    match c {
        Constant::Tuple(items) => {
            lemma_constants(items@, fault);
        },
        _ => {},
    }
}

/// A list of expressions fails as the expressions at fault say.
pub proof fn lemma_exprs(es: Seq<Expr>, fault: UnparseError)
    ensures
        agree(first_error(exprs_errors(es)), any(exprs_have(es, fault)), fault),
    decreases es, 1nat,
{
    let errs = exprs_errors(es);
    let flags = exprs_have(es, fault);
    assert forall|i: int| 0 <= i < errs.len() implies agree(#[trigger] errs[i], flags[i], fault) by {
        lemma_expr(es[i], fault);
    }
    lemma_list_agrees(errs, flags, fault);
}

/// A list of keyword arguments fails as the arguments at fault say.
pub proof fn lemma_keywords(ks: Seq<Keyword>, fault: UnparseError)
    ensures
        agree(first_error(keywords_errors(ks)), any(keywords_have(ks, fault)), fault),
    decreases ks, 1nat,
{
    let errs = keywords_errors(ks);
    let flags = keywords_have(ks, fault);
    assert forall|i: int| 0 <= i < errs.len() implies agree(#[trigger] errs[i], flags[i], fault) by {
        lemma_expr(ks[i].value, fault);
    }
    lemma_list_agrees(errs, flags, fault);
}

/// The entries of a dict display fail as the entries at fault say.
pub proof fn lemma_dict_items(items: Seq<DictItem>, fault: UnparseError)
    ensures
        agree(first_error(dict_items_errors(items)), any(dict_items_have(items, fault)), fault),
    decreases items, 1nat,
{
    let errs = dict_items_errors(items);
    let flags = dict_items_have(items, fault);
    assert forall|i: int| 0 <= i < errs.len() implies agree(#[trigger] errs[i], flags[i], fault) by {
        match items[i].key {
            Some(key) => {
                lemma_expr(key, fault);
            },
            None => {},
        }
        lemma_expr(items[i].value, fault);
        assert(errs[i] == dict_item_error(items[i]));
        assert(flags[i] == dict_item_has(items[i], fault));
    }
    lemma_list_agrees(errs, flags, fault);
}

/// The steps of a comparison chain fail as the steps at fault say.
pub proof fn lemma_comparisons(cs: Seq<Comparison>, fault: UnparseError)
    ensures
        agree(first_error(comparisons_errors(cs)), any(comparisons_have(cs, fault)), fault),
    decreases cs, 1nat,
{
    let errs = comparisons_errors(cs);
    let flags = comparisons_have(cs, fault);
    assert forall|i: int| 0 <= i < errs.len() implies agree(#[trigger] errs[i], flags[i], fault) by {
        lemma_expr(cs[i].comparator, fault);
    }
    lemma_list_agrees(errs, flags, fault);
}

/// A clause of a comprehension fails as its parts at fault say.
pub proof fn lemma_comprehension(c: Comprehension, fault: UnparseError)
    ensures
        agree(comprehension_error(c), comprehension_has(c, fault), fault),
    decreases c, 2nat,
{
    lemma_expr(c.target, fault);
    lemma_expr(c.iter, fault);
    lemma_exprs(c.ifs@, fault);
}

/// The clauses of a comprehension fail as the clauses at fault say.
pub proof fn lemma_comprehensions(cs: Seq<Comprehension>, fault: UnparseError)
    ensures
        agree(
            first_error(comprehensions_errors(cs)),
            any(comprehensions_have(cs, fault)),
            fault,
        ),
    decreases cs, 3nat,
{
    let errs = comprehensions_errors(cs);
    let flags = comprehensions_have(cs, fault);
    assert forall|i: int| 0 <= i < errs.len() implies agree(#[trigger] errs[i], flags[i], fault) by {
        lemma_comprehension(cs[i], fault);
    }
    lemma_list_agrees(errs, flags, fault);
}

/// A parameter name fails as its annotation at fault says.
pub proof fn lemma_arg(a: Arg, fault: UnparseError)
    ensures
        agree(arg_error(a), arg_has(a, fault), fault),
    decreases a, 0nat,
{
    match a.annotation {
        Some(annotation) => {
            lemma_expr(*annotation, fault);
        },
        None => {},
    }
}

/// A parameter fails as its annotation and default value at fault say.
pub proof fn lemma_param(p: ArgWithDefault, fault: UnparseError)
    ensures
        agree(param_error(p), param_has(p, fault), fault),
    decreases p, 1nat,
{
    lemma_arg(p.def, fault);
    match p.default {
        Some(default) => {
            lemma_expr(*default, fault);
        },
        None => {},
    }
}

/// A group of parameters fails as the parameters at fault say.
pub proof fn lemma_params(ps: Seq<ArgWithDefault>, fault: UnparseError)
    ensures
        agree(first_error(params_errors(ps)), any(params_have(ps, fault)), fault),
    decreases ps, 2nat,
{
    let errs = params_errors(ps);
    let flags = params_have(ps, fault);
    assert forall|i: int| 0 <= i < errs.len() implies agree(#[trigger] errs[i], flags[i], fault) by {
        lemma_param(ps[i], fault);
    }
    lemma_list_agrees(errs, flags, fault);
}

/// A parameter list fails as its parts at fault say.
pub proof fn lemma_arguments(a: Arguments, fault: UnparseError)
    ensures
        agree(arguments_error(a), arguments_have(a, fault), fault),
    decreases a, 3nat,
{
    lemma_params(a.posonlyargs@, fault);
    lemma_params(a.args@, fault);
    match a.vararg {
        Some(vararg) => {
            lemma_arg(*vararg, fault);
        },
        None => {},
    }
    lemma_params(a.kwonlyargs@, fault);
    match a.kwarg {
        Some(kwarg) => {
            lemma_arg(*kwarg, fault);
        },
        None => {},
    }
    assert(vararg_error(a) == match a.vararg {
        Some(vararg) => arg_error(*vararg),
        None => None,
    });
    assert(kwarg_error(a) == match a.kwarg {
        Some(kwarg) => arg_error(*kwarg),
        None => None,
    });
}

/// An expression fails with a fault only where it holds a node at fault
/// so, and fails wherever it holds a node at fault.
pub proof fn lemma_expr(e: Expr, fault: UnparseError)
    ensures
        agree(expr_error(e), expr_has(e, fault), fault),
    decreases e, 0nat,
{
    match e {
        Expr::BoolOp(d) => {
            lemma_exprs(d.values@, fault);
        },
        Expr::NamedExpr(d) => {
            lemma_expr(*d.target, fault);
            lemma_expr(*d.value, fault);
        },
        Expr::BinOp(d) => {
            lemma_expr(*d.left, fault);
            lemma_expr(*d.right, fault);
        },
        Expr::UnaryOp(d) => {
            lemma_expr(*d.operand, fault);
        },
        Expr::Lambda(d) => {
            lemma_arguments(*d.args, fault);
            lemma_expr(*d.body, fault);
        },
        Expr::IfExp(d) => {
            lemma_expr(*d.body, fault);
            lemma_expr(*d.test, fault);
            lemma_expr(*d.orelse, fault);
        },
        Expr::Dict(d) => {
            lemma_dict_items(d.items@, fault);
        },
        Expr::SetExpr(d) => {
            lemma_exprs(d.elts@, fault);
        },
        Expr::ListComp(d) => {
            lemma_expr(*d.elt, fault);
            lemma_comprehensions(d.generators@, fault);
        },
        Expr::SetComp(d) => {
            lemma_expr(*d.elt, fault);
            lemma_comprehensions(d.generators@, fault);
        },
        Expr::DictComp(d) => {
            lemma_expr(*d.key, fault);
            lemma_expr(*d.value, fault);
            lemma_comprehensions(d.generators@, fault);
        },
        Expr::GeneratorExp(d) => {
            lemma_expr(*d.elt, fault);
            lemma_comprehensions(d.generators@, fault);
        },
        Expr::Await(d) => {
            lemma_expr(*d.value, fault);
        },
        Expr::Yield(d) => {
            match d.value {
                Some(value) => {
                    lemma_expr(*value, fault);
                },
                None => {},
            }
        },
        Expr::YieldFrom(d) => {
            lemma_expr(*d.value, fault);
        },
        Expr::Compare(d) => {
            lemma_expr(*d.left, fault);
            lemma_comparisons(d.comparisons@, fault);
        },
        Expr::Call(d) => {
            lemma_expr(*d.func, fault);
            lemma_exprs(d.args@, fault);
            lemma_keywords(d.keywords@, fault);
        },
        Expr::FormattedValue(_) => {},
        Expr::JoinedStr(_) => {},
        Expr::Constant(d) => {
            lemma_constant(d.value, fault);
        },
        Expr::Attribute(d) => {
            lemma_expr(*d.value, fault);
        },
        Expr::Subscript(d) => {
            lemma_expr(*d.value, fault);
            lemma_expr(*d.slice, fault);
        },
        Expr::Starred(d) => {
            lemma_expr(*d.value, fault);
        },
        Expr::Name(_) => {},
        Expr::List(d) => {
            lemma_exprs(d.elts@, fault);
        },
        Expr::Tuple(d) => {
            lemma_exprs(d.elts@, fault);
        },
        Expr::Slice(d) => {
            match d.lower {
                Some(lower) => {
                    lemma_expr(*lower, fault);
                },
                None => {},
            }
            match d.upper {
                Some(upper) => {
                    lemma_expr(*upper, fault);
                },
                None => {},
            }
            match d.step {
                Some(step) => {
                    lemma_expr(*step, fault);
                },
                None => {},
            }
        },
    }
}

/// An optional expression fails as the expression at fault says.
pub proof fn lemma_optional(e: Option<Box<Expr>>, fault: UnparseError)
    ensures
        agree(optional_expr_error(e), optional_has(e, fault), fault),
{
    match e {
        Some(inner) => {
            lemma_expr(*inner, fault);
        },
        None => {},
    }
}

/// A list of patterns fails as the patterns at fault say.
pub proof fn lemma_patterns(ps: Seq<Pattern>, fault: UnparseError)
    ensures
        agree(first_error(patterns_errors(ps)), any(patterns_have(ps, fault)), fault),
    decreases ps, 1nat,
{
    let errs = patterns_errors(ps);
    let flags = patterns_have(ps, fault);
    assert forall|i: int| 0 <= i < errs.len() implies agree(#[trigger] errs[i], flags[i], fault) by {
        lemma_pattern(ps[i], fault);
    }
    lemma_list_agrees(errs, flags, fault);
}

/// The entries of a mapping pattern fail as the entries at fault say.
pub proof fn lemma_mapping_entries(entries: Seq<MappingEntry>, fault: UnparseError)
    ensures
        agree(
            first_error(mapping_entries_errors(entries)),
            any(mapping_entries_have(entries, fault)),
            fault,
        ),
    decreases entries, 1nat,
{
    let errs = mapping_entries_errors(entries);
    let flags = mapping_entries_have(entries, fault);
    assert forall|i: int| 0 <= i < errs.len() implies agree(#[trigger] errs[i], flags[i], fault) by {
        lemma_expr(entries[i].key, fault);
        lemma_pattern(entries[i].pattern, fault);
        assert(errs[i] == mapping_entry_error(entries[i]));
    }
    lemma_list_agrees(errs, flags, fault);
}

/// The keyword arguments of a class pattern fail as those at fault say.
pub proof fn lemma_keyword_patterns(ks: Seq<KeywordPattern>, fault: UnparseError)
    ensures
        agree(
            first_error(keyword_patterns_errors(ks)),
            any(keyword_patterns_have(ks, fault)),
            fault,
        ),
    decreases ks, 1nat,
{
    let errs = keyword_patterns_errors(ks);
    let flags = keyword_patterns_have(ks, fault);
    assert forall|i: int| 0 <= i < errs.len() implies agree(#[trigger] errs[i], flags[i], fault) by {
        lemma_pattern(ks[i].pattern, fault);
    }
    lemma_list_agrees(errs, flags, fault);
}

/// A pattern fails with a fault only where it holds a node at fault so,
/// and fails wherever it holds a node at fault.
pub proof fn lemma_pattern(p: Pattern, fault: UnparseError)
    ensures
        agree(pattern_error(p), pattern_has(p, fault), fault),
    decreases p, 0nat,
{
    match p {
        Pattern::MatchValue(d) => {
            lemma_expr(*d.value, fault);
        },
        Pattern::MatchSingleton(d) => {
            lemma_constant(d.value, fault);
        },
        Pattern::MatchSequence(d) => {
            lemma_patterns(d.patterns@, fault);
        },
        Pattern::MatchMapping(d) => {
            lemma_mapping_entries(d.entries@, fault);
        },
        Pattern::MatchClass(d) => {
            lemma_expr(*d.cls, fault);
            lemma_patterns(d.patterns@, fault);
            lemma_keyword_patterns(d.kwd_patterns@, fault);
        },
        Pattern::MatchStar(_) => {},
        Pattern::MatchAs(d) => {
            match d.name {
                None => {},
                Some(_) => match d.pattern {
                    None => {},
                    Some(inner) => {
                        lemma_pattern(*inner, fault);
                    },
                },
            }
        },
        Pattern::MatchOr(d) => {
            lemma_patterns(d.patterns@, fault);
        },
    }
}

/// The context managers of a `with` statement fail as those at fault say.
pub proof fn lemma_with_items(items: Seq<WithItem>, fault: UnparseError)
    ensures
        agree(first_error(with_items_errors(items)), any(with_items_have(items, fault)), fault),
{
    let errs = with_items_errors(items);
    let flags = with_items_have(items, fault);
    assert forall|i: int| 0 <= i < errs.len() implies agree(#[trigger] errs[i], flags[i], fault) by {
        lemma_expr(items[i].context_expr, fault);
        lemma_optional(items[i].optional_vars, fault);
        assert(errs[i] == with_item_error(items[i]));
    }
    lemma_list_agrees(errs, flags, fault);
}

/// A list of type parameters fails as the bounds at fault say.
pub proof fn lemma_type_params(ps: Seq<TypeParam>, fault: UnparseError)
    ensures
        agree(first_error(type_params_errors(ps)), any(type_params_have(ps, fault)), fault),
{
    let errs = type_params_errors(ps);
    let flags = type_params_have(ps, fault);
    assert forall|i: int| 0 <= i < errs.len() implies agree(#[trigger] errs[i], flags[i], fault) by {
        match ps[i] {
            TypeParam::TypeVar(d) => {
                lemma_optional(d.bound, fault);
            },
            _ => {},
        }
        assert(errs[i] == type_param_error(ps[i]));
        assert(flags[i] == type_param_has(ps[i], fault));
    }
    lemma_list_agrees(errs, flags, fault);
}

/// A list of statements fails as the statements at fault say.
pub proof fn lemma_stmts(body: Seq<Stmt>, fault: UnparseError)
    ensures
        agree(first_error(stmts_errors(body)), any(stmts_have(body, fault)), fault),
    decreases body, 1nat,
{
    let errs = stmts_errors(body);
    let flags = stmts_have(body, fault);
    assert forall|i: int| 0 <= i < errs.len() implies agree(#[trigger] errs[i], flags[i], fault) by {
        lemma_stmt(body[i], fault);
    }
    lemma_list_agrees(errs, flags, fault);
}

/// What follows the body of an `if` statement fails as the statements of
/// the alternative do, whether it is written with `elif` or with `else:`.
pub proof fn lemma_if_tail(orelse: Seq<Stmt>, fault: UnparseError)
    ensures
        agree(if_tail_error(orelse), any(stmts_have(orelse, fault)), fault),
    decreases orelse, 2nat,
{
    if orelse.len() == 1 && orelse[0] is If {
        let inner = orelse[0]->If_0;
        lemma_expr(*inner.test, fault);
        lemma_stmts(inner.body@, fault);
        lemma_if_tail(inner.orelse@, fault);
        let flags = stmts_have(orelse, fault);
        assert(flags[0] == stmt_has(orelse[0], fault));
        assert(any(flags) == flags[0]) by {
            if any(flags) {
                let i = choose|i: int| 0 <= i < flags.len() && flags[i];
                assert(i == 0);
            }
        }
    } else {
        lemma_stmts(orelse, fault);
    }
}

/// The handler clauses of a `try` statement fail as those at fault say.
pub proof fn lemma_handlers(hs: Seq<ExceptHandler>, fault: UnparseError)
    ensures
        agree(first_error(handlers_errors(hs)), any(handlers_have(hs, fault)), fault),
    decreases hs, 1nat,
{
    let errs = handlers_errors(hs);
    let flags = handlers_have(hs, fault);
    assert forall|i: int| 0 <= i < errs.len() implies agree(#[trigger] errs[i], flags[i], fault) by {
        match hs[i] {
            ExceptHandler::ExceptHandler(d) => {
                lemma_optional(d.type_, fault);
                lemma_stmts(d.body@, fault);
            },
        }
        assert(errs[i] == handler_error(hs[i]));
        assert(flags[i] == handler_has(hs[i], fault));
    }
    lemma_list_agrees(errs, flags, fault);
}

/// The `case` clauses of a `match` statement fail as those at fault say.
pub proof fn lemma_cases(cs: Seq<MatchCase>, fault: UnparseError)
    ensures
        agree(first_error(cases_errors(cs)), any(cases_have(cs, fault)), fault),
    decreases cs, 1nat,
{
    let errs = cases_errors(cs);
    let flags = cases_have(cs, fault);
    assert forall|i: int| 0 <= i < errs.len() implies agree(#[trigger] errs[i], flags[i], fault) by {
        lemma_pattern(cs[i].pattern, fault);
        lemma_optional(cs[i].guard, fault);
        lemma_stmts(cs[i].body@, fault);
        assert(errs[i] == match_case_error(cs[i]));
        assert(flags[i] == match_case_has(cs[i], fault));
    }
    lemma_list_agrees(errs, flags, fault);
}

/// A statement fails with a fault only where it holds a node at fault so,
/// and fails wherever it holds a node at fault.
pub proof fn lemma_stmt(s: Stmt, fault: UnparseError)
    ensures
        agree(stmt_error(s), stmt_has(s, fault), fault),
    decreases s, 0nat,
{
    match s {
        Stmt::FunctionDef(d) => {
            lemma_exprs(d.decorator_list@, fault);
            lemma_type_params(d.type_params@, fault);
            lemma_arguments(*d.args, fault);
            lemma_optional(d.returns, fault);
            lemma_stmts(d.body@, fault);
        },
        Stmt::AsyncFunctionDef(d) => {
            lemma_exprs(d.decorator_list@, fault);
            lemma_type_params(d.type_params@, fault);
            lemma_arguments(*d.args, fault);
            lemma_optional(d.returns, fault);
            lemma_stmts(d.body@, fault);
        },
        Stmt::ClassDef(d) => {
            lemma_exprs(d.decorator_list@, fault);
            lemma_type_params(d.type_params@, fault);
            lemma_exprs(d.bases@, fault);
            lemma_keywords(d.keywords@, fault);
            lemma_stmts(d.body@, fault);
        },
        Stmt::Return(d) => {
            lemma_optional(d.value, fault);
        },
        Stmt::Delete(d) => {
            lemma_exprs(d.targets@, fault);
        },
        Stmt::Assign(d) => {
            lemma_exprs(d.targets@, fault);
            lemma_expr(*d.value, fault);
        },
        Stmt::TypeAlias(d) => {
            lemma_expr(*d.name, fault);
            lemma_type_params(d.type_params@, fault);
            lemma_expr(*d.value, fault);
        },
        Stmt::AugAssign(d) => {
            lemma_expr(*d.target, fault);
            lemma_expr(*d.value, fault);
        },
        Stmt::AnnAssign(d) => {
            lemma_expr(*d.target, fault);
            lemma_expr(*d.annotation, fault);
            lemma_optional(d.value, fault);
        },
        Stmt::For(d) => {
            lemma_expr(*d.target, fault);
            lemma_expr(*d.iter, fault);
            lemma_stmts(d.body@, fault);
            lemma_stmts(d.orelse@, fault);
        },
        Stmt::AsyncFor(d) => {
            lemma_expr(*d.target, fault);
            lemma_expr(*d.iter, fault);
            lemma_stmts(d.body@, fault);
            lemma_stmts(d.orelse@, fault);
        },
        Stmt::While(d) => {
            lemma_expr(*d.test, fault);
            lemma_stmts(d.body@, fault);
            lemma_stmts(d.orelse@, fault);
        },
        Stmt::If(d) => {
            lemma_expr(*d.test, fault);
            lemma_stmts(d.body@, fault);
            lemma_if_tail(d.orelse@, fault);
        },
        Stmt::With(d) => {
            lemma_with_items(d.items@, fault);
            lemma_stmts(d.body@, fault);
        },
        Stmt::AsyncWith(d) => {
            lemma_with_items(d.items@, fault);
            lemma_stmts(d.body@, fault);
        },
        Stmt::Match(d) => {
            lemma_expr(*d.subject, fault);
            lemma_cases(d.cases@, fault);
        },
        Stmt::Raise(d) => {
            lemma_optional(d.exc, fault);
            lemma_optional(d.cause, fault);
        },
        Stmt::Try(d) => {
            lemma_stmts(d.body@, fault);
            lemma_handlers(d.handlers@, fault);
            lemma_stmts(d.orelse@, fault);
            lemma_stmts(d.finalbody@, fault);
        },
        Stmt::TryStar(d) => {
            lemma_stmts(d.body@, fault);
            lemma_handlers(d.handlers@, fault);
            lemma_stmts(d.orelse@, fault);
            lemma_stmts(d.finalbody@, fault);
        },
        Stmt::Assert(d) => {
            lemma_expr(*d.test, fault);
            lemma_optional(d.msg, fault);
        },
        Stmt::Expr(d) => {
            lemma_expr(*d.value, fault);
        },
        _ => {},
    }
}

} // verus!
