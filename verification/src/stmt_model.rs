//! What a statement renders to: its lines, and whether it can be rendered.
//!
//! Every statement starts a new line at the depth of the block it stands
//! in. A compound statement ends its header line with a colon and puts its
//! body one level deeper.

use crate::ast::{
    Alias, Arguments, ExceptHandler, Expr, Keyword, MatchCase, Stmt, StmtAnnAssign, StmtAssert,
    StmtAssign, StmtAsyncFor, StmtAsyncFunctionDef, StmtAsyncWith, StmtAugAssign, StmtClassDef,
    StmtDelete, StmtExpr, StmtFor, StmtFunctionDef, StmtGlobal, StmtIf, StmtImport,
    StmtImportFrom, StmtMatch, StmtNonlocal, StmtRaise, StmtReturn, StmtTry, StmtTryStar,
    StmtTypeAlias, StmtWhile, StmtWith, TypeParam, WithItem,
};
use crate::error::{first_error, or_error, UnparseError};
use crate::expr_model::{
    arguments_error, arguments_text, expr_error, expr_text, exprs_errors, exprs_texts,
    keywords_errors, keywords_texts, operator_text,
};
use crate::pattern_model::{pattern_error, pattern_text, PATTERN_ANY};
use crate::precedence::PREC_TEST;
use crate::text::{concat, delimited, join, line_start, nested, optional};
use vstd::prelude::*;

verus! {

/// An optional expression behind `prefix`: nothing where there is none.
pub open spec fn optional_expr_text(prefix: Seq<char>, e: Option<Box<Expr>>) -> Seq<char> {
    match e {
        Some(inner) => prefix + expr_text(*inner, PREC_TEST as nat),
        None => Seq::empty(),
    }
}

/// The failure of an optional expression: none where there is no
/// expression.
pub open spec fn optional_expr_error(e: Option<Box<Expr>>) -> Option<UnparseError> {
    match e {
        Some(inner) => expr_error(*inner),
        None => None,
    }
}

/// An optional name or comment behind `prefix`: nothing where there is
/// none.
pub open spec fn optional_name_text(prefix: Seq<char>, name: Option<String>) -> Seq<char> {
    match name {
        Some(text) => prefix + text@,
        None => Seq::empty(),
    }
}

/// The name of the module of a `from` import: nothing where there is none.
pub open spec fn module_text(module: Option<String>) -> Seq<char> {
    match module {
        Some(name) => name@,
        None => Seq::empty(),
    }
}

/// An imported name: `name`, or `name as asname`.
pub open spec fn alias_text(a: Alias) -> Seq<char> {
    a.name@ + optional_name_text(" as "@, a.asname)
}

/// The texts of a list of imported names.
pub open spec fn aliases_texts(names: Seq<Alias>) -> Seq<Seq<char>> {
    Seq::new(names.len(), |i: int| alias_text(names[i]))
}

/// The texts of a list of names.
pub open spec fn names_texts(names: Seq<String>) -> Seq<Seq<char>> {
    Seq::new(names.len(), |i: int| names[i]@)
}

/// The dots of a relative import: one for each level.
pub open spec fn dots_text(level: nat) -> Seq<char> {
    Seq::new(level, |i: int| '.')
}

/// The level of a relative import: zero where none is given.
pub open spec fn import_level(level: Option<u32>) -> nat {
    match level {
        Some(n) => n as nat,
        None => 0,
    }
}

/// A context manager of a `with` statement: `context`, or `context as
/// target`.
pub open spec fn with_item_text(item: WithItem) -> Seq<char> {
    expr_text(item.context_expr, PREC_TEST as nat) + optional_expr_text(
        " as "@,
        item.optional_vars,
    )
}

/// The texts of the context managers of a `with` statement.
pub open spec fn with_items_texts(items: Seq<WithItem>) -> Seq<Seq<char>> {
    Seq::new(items.len(), |i: int| with_item_text(items[i]))
}

/// The failure of a context manager.
pub open spec fn with_item_error(item: WithItem) -> Option<UnparseError> {
    or_error(expr_error(item.context_expr), optional_expr_error(item.optional_vars))
}

/// The failures of the context managers of a `with` statement.
pub open spec fn with_items_errors(items: Seq<WithItem>) -> Seq<Option<UnparseError>> {
    Seq::new(items.len(), |i: int| with_item_error(items[i]))
}

/// A type parameter: `Name` or `Name: bound`, `**Name`, `*Name`.
pub open spec fn type_param_text(p: TypeParam) -> Seq<char> {
    match p {
        TypeParam::TypeVar(d) => d.name@ + optional_expr_text(": "@, d.bound),
        TypeParam::ParamSpec(d) => "**"@ + d.name@,
        TypeParam::TypeVarTuple(d) => "*"@ + d.name@,
    }
}

/// The texts of a list of type parameters.
pub open spec fn type_params_texts(ps: Seq<TypeParam>) -> Seq<Seq<char>> {
    Seq::new(ps.len(), |i: int| type_param_text(ps[i]))
}

/// The type parameters of a definition: in brackets and separated by
/// commas, or nothing where there are none.
#[verifier::opaque]
pub open spec fn type_params_text(ps: Seq<TypeParam>) -> Seq<char> {
    if ps.len() == 0 {
        Seq::empty()
    } else {
        "["@ + join(type_params_texts(ps), ", "@) + "]"@
    }
}

/// The failure of a type parameter.
pub open spec fn type_param_error(p: TypeParam) -> Option<UnparseError> {
    match p {
        TypeParam::TypeVar(d) => optional_expr_error(d.bound),
        TypeParam::ParamSpec(_) => None,
        TypeParam::TypeVarTuple(_) => None,
    }
}

/// The failures of a list of type parameters.
pub open spec fn type_params_errors(ps: Seq<TypeParam>) -> Seq<Option<UnparseError>> {
    Seq::new(ps.len(), |i: int| type_param_error(ps[i]))
}

/// The lines of the decorators of a definition: each on a line of its own
/// behind `@`.
pub open spec fn decorators_texts(ds: Seq<Expr>, indent: nat) -> Seq<Seq<char>> {
    Seq::new(ds.len(), |i: int| line_start(indent) + "@"@ + expr_text(ds[i], PREC_TEST as nat))
}

/// The targets of an assignment: each followed by ` = `.
pub open spec fn targets_texts(ts: Seq<Expr>) -> Seq<Seq<char>> {
    Seq::new(ts.len(), |i: int| expr_text(ts[i], PREC_TEST as nat) + " = "@)
}

/// The header of a function definition up to its colon: the decorators,
/// then on a new line the keyword, the name, the type parameters, the
/// parameter list in parentheses and the return annotation.
#[verifier::opaque]
pub open spec fn function_head_text(
    keyword: Seq<char>,
    decorators: Seq<Expr>,
    name: Seq<char>,
    type_params: Seq<TypeParam>,
    args: Arguments,
    result_type: Option<Box<Expr>>,
    indent: nat,
) -> Seq<char> {
    concat(decorators_texts(decorators, indent)) + (line_start(indent) + keyword) + name
        + type_params_text(type_params) + "("@ + arguments_text(args) + ")"@ + optional_expr_text(
        " -> "@,
        result_type,
    ) + ":"@
}

/// The failure of the header of a function definition.
pub open spec fn function_head_error(
    decorators: Seq<Expr>,
    type_params: Seq<TypeParam>,
    args: Arguments,
    result_type: Option<Box<Expr>>,
) -> Option<UnparseError> {
    or_error(
        first_error(exprs_errors(decorators)),
        or_error(
            first_error(type_params_errors(type_params)),
            or_error(arguments_error(args), optional_expr_error(result_type)),
        ),
    )
}

/// The header of a class definition up to its colon: the decorators, then
/// on a new line `class`, the name, the type parameters, and the bases and
/// keywords in parentheses.
#[verifier::opaque]
pub open spec fn class_head_text(
    decorators: Seq<Expr>,
    name: Seq<char>,
    type_params: Seq<TypeParam>,
    bases: Seq<Expr>,
    keywords: Seq<Keyword>,
    indent: nat,
) -> Seq<char> {
    concat(decorators_texts(decorators, indent)) + (line_start(indent) + "class "@) + name
        + type_params_text(type_params) + "("@ + join(
        exprs_texts(bases, PREC_TEST as nat) + keywords_texts(keywords),
        ", "@,
    ) + "):"@
}

/// The failure of the header of a class definition.
pub open spec fn class_head_error(
    decorators: Seq<Expr>,
    type_params: Seq<TypeParam>,
    bases: Seq<Expr>,
    keywords: Seq<Keyword>,
) -> Option<UnparseError> {
    or_error(
        first_error(exprs_errors(decorators)),
        or_error(
            first_error(type_params_errors(type_params)),
            or_error(first_error(exprs_errors(bases)), first_error(keywords_errors(keywords))),
        ),
    )
}

/// The header of a `for` statement up to its colon.
#[verifier::opaque]
pub open spec fn for_head_text(keyword: Seq<char>, target: Expr, iter: Expr, indent: nat) -> Seq<
    char,
> {
    line_start(indent) + keyword + expr_text(target, PREC_TEST as nat) + " in "@ + expr_text(
        iter,
        PREC_TEST as nat,
    ) + ":"@
}

/// The header of a `with` statement up to its colon.
#[verifier::opaque]
pub open spec fn with_head_text(keyword: Seq<char>, items: Seq<WithItem>, indent: nat) -> Seq<
    char,
> {
    line_start(indent) + keyword + join(with_items_texts(items), ", "@) + ":"@
}

/// The word that starts a handler clause: `except*` in a `try` statement
/// for exception groups, `except` in any other.
pub open spec fn handler_keyword(star: bool) -> Seq<char> {
    if star {
        "except*"@
    } else {
        "except"@
    }
}

/// The lines of a list of statements at depth `indent`.
pub open spec fn stmts_texts(body: Seq<Stmt>, indent: nat) -> Seq<Seq<char>>
    decreases body, 1nat,
{
    Seq::new(
        body.len(),
        |i: int|
            if 0 <= i < body.len() {
                stmt_text(body[i], indent)
            } else {
                Seq::empty()
            },
    )
}

/// The body of a compound statement that stands at depth `indent`: its
/// statements one level deeper.
pub open spec fn block_text(body: Seq<Stmt>, indent: nat) -> Seq<char>
    decreases body, 2nat,
{
    concat(stmts_texts(body, nested(indent)))
}

/// A clause that is there only where it has statements: a line with
/// `keyword` and the block, or nothing for an empty block.
pub open spec fn clause_text(keyword: Seq<char>, body: Seq<Stmt>, indent: nat) -> Seq<char>
    decreases body, 3nat,
{
    if body.len() == 0 {
        Seq::empty()
    } else {
        line_start(indent) + keyword + block_text(body, indent)
    }
}

/// What follows the body of an `if` statement. An alternative that is
/// exactly one `if` statement is written as `elif` with that statement's
/// test and body, and what follows it in turn; any other alternative that
/// is not empty as an `else:` block.
pub open spec fn if_tail_text(orelse: Seq<Stmt>, indent: nat) -> Seq<char>
    decreases orelse, 4nat,
{
    if orelse.len() == 1 && orelse[0] is If {
        let inner = orelse[0]->If_0;
        line_start(indent) + "elif "@ + expr_text(*inner.test, PREC_TEST as nat) + ":"@
            + block_text(inner.body@, indent) + if_tail_text(inner.orelse@, indent)
    } else {
        clause_text("else:"@, orelse, indent)
    }
}

/// A handler clause: `except`, the type, ` as name`, a colon and the body.
pub open spec fn handler_text(h: ExceptHandler, star: bool, indent: nat) -> Seq<char>
    decreases h, 0nat,
{
    match h {
        ExceptHandler::ExceptHandler(d) => line_start(indent) + handler_keyword(star)
            + optional_expr_text(" "@, d.type_) + optional_name_text(" as "@, d.name) + ":"@
            + block_text(d.body@, indent),
    }
}

/// The texts of the handler clauses of a `try` statement.
pub open spec fn handlers_texts(hs: Seq<ExceptHandler>, star: bool, indent: nat) -> Seq<
    Seq<char>,
>
    decreases hs, 1nat,
{
    Seq::new(
        hs.len(),
        |i: int|
            if 0 <= i < hs.len() {
                handler_text(hs[i], star, indent)
            } else {
                Seq::empty()
            },
    )
}

/// A `case` clause: `case`, the pattern, ` if guard`, a colon and the
/// body.
pub open spec fn match_case_text(c: MatchCase, indent: nat) -> Seq<char>
    decreases c, 0nat,
{
    line_start(indent) + "case "@ + pattern_text(c.pattern, PATTERN_ANY as nat)
        + optional_expr_text(" if "@, c.guard) + ":"@ + block_text(c.body@, indent)
}

/// The texts of the `case` clauses of a `match` statement.
pub open spec fn cases_texts(cs: Seq<MatchCase>, indent: nat) -> Seq<Seq<char>>
    decreases cs, 1nat,
{
    Seq::new(
        cs.len(),
        |i: int|
            if 0 <= i < cs.len() {
                match_case_text(cs[i], indent)
            } else {
                Seq::empty()
            },
    )
}

/// `def name(parameters) -> annotation:` behind its decorators, and the
/// body.
pub open spec fn function_def_text(d: StmtFunctionDef, indent: nat) -> Seq<char>
    decreases d, 5nat,
{
    function_head_text(
        "def "@,
        d.decorator_list@,
        d.name@,
        d.type_params@,
        *d.args,
        d.returns,
        indent,
    ) + block_text(d.body@, indent)
}

/// `async def name(parameters) -> annotation:` behind its decorators, and
/// the body.
pub open spec fn async_function_def_text(d: StmtAsyncFunctionDef, indent: nat) -> Seq<char>
    decreases d, 5nat,
{
    function_head_text(
        "async def "@,
        d.decorator_list@,
        d.name@,
        d.type_params@,
        *d.args,
        d.returns,
        indent,
    ) + block_text(d.body@, indent)
}

/// `class Name[T](bases, keyword=value):` behind its decorators, and the
/// body.
pub open spec fn class_def_text(d: StmtClassDef, indent: nat) -> Seq<char>
    decreases d, 5nat,
{
    class_head_text(
        d.decorator_list@,
        d.name@,
        d.type_params@,
        d.bases@,
        d.keywords@,
        indent,
    ) + block_text(d.body@, indent)
}

/// `return`, or `return value`
#[verifier::opaque]
pub open spec fn return_text(d: StmtReturn, indent: nat) -> Seq<char> {
    line_start(indent) + "return"@ + optional_expr_text(" "@, d.value)
}

/// `del a, b`
#[verifier::opaque]
pub open spec fn delete_text(d: StmtDelete, indent: nat) -> Seq<char> {
    line_start(indent) + "del "@ + join(exprs_texts(d.targets@, PREC_TEST as nat), ", "@)
}

/// `a = b = value`, with the type comment behind it if there is one.
#[verifier::opaque]
pub open spec fn assign_text(d: StmtAssign, indent: nat) -> Seq<char> {
    line_start(indent) + concat(targets_texts(d.targets@)) + expr_text(*d.value, PREC_TEST as nat)
        + optional_name_text(" # type: "@, d.type_comment)
}

/// `type Name[T] = value`
#[verifier::opaque]
pub open spec fn type_alias_text(d: StmtTypeAlias, indent: nat) -> Seq<char> {
    line_start(indent) + "type "@ + expr_text(*d.name, PREC_TEST as nat) + type_params_text(
        d.type_params@,
    ) + " = "@ + expr_text(*d.value, PREC_TEST as nat)
}

/// `target op= value`
#[verifier::opaque]
pub open spec fn aug_assign_text(d: StmtAugAssign, indent: nat) -> Seq<char> {
    line_start(indent) + expr_text(*d.target, PREC_TEST as nat) + " "@ + operator_text(d.op)
        + "= "@ + expr_text(*d.value, PREC_TEST as nat)
}

/// `target: annotation`, or `target: annotation = value`; a name that is
/// not a simple target stands in parentheses.
#[verifier::opaque]
pub open spec fn ann_assign_text(d: StmtAnnAssign, indent: nat) -> Seq<char> {
    line_start(indent) + delimited(
        !d.simple && *d.target is Name,
        expr_text(*d.target, PREC_TEST as nat),
    ) + ": "@ + expr_text(*d.annotation, PREC_TEST as nat) + optional_expr_text(" = "@, d.value)
}

/// `for target in iter:` and the body, then `else:` and its block where
/// it has statements.
pub open spec fn for_text(d: StmtFor, indent: nat) -> Seq<char>
    decreases d, 5nat,
{
    for_head_text("for "@, *d.target, *d.iter, indent) + block_text(d.body@, indent)
        + clause_text("else:"@, d.orelse@, indent)
}

/// `async for target in iter:` and the body, then `else:` and its block
/// where it has statements.
pub open spec fn async_for_text(d: StmtAsyncFor, indent: nat) -> Seq<char>
    decreases d, 5nat,
{
    for_head_text("async for "@, *d.target, *d.iter, indent) + block_text(d.body@, indent)
        + clause_text("else:"@, d.orelse@, indent)
}

/// `while test:` and the body, then `else:` and its block where it has
/// statements.
pub open spec fn while_text(d: StmtWhile, indent: nat) -> Seq<char>
    decreases d, 5nat,
{
    line_start(indent) + "while "@ + expr_text(*d.test, PREC_TEST as nat) + ":"@ + block_text(
        d.body@,
        indent,
    ) + clause_text("else:"@, d.orelse@, indent)
}

/// `if test:` and the body, then the alternative: see `if_tail_text`.
pub open spec fn if_text(d: StmtIf, indent: nat) -> Seq<char>
    decreases d, 5nat,
{
    line_start(indent) + "if "@ + expr_text(*d.test, PREC_TEST as nat) + ":"@ + block_text(
        d.body@,
        indent,
    ) + if_tail_text(d.orelse@, indent)
}

/// `with a as b, c:` and the body.
pub open spec fn with_text(d: StmtWith, indent: nat) -> Seq<char>
    decreases d, 5nat,
{
    with_head_text("with "@, d.items@, indent) + block_text(d.body@, indent)
}

/// `async with a as b, c:` and the body.
pub open spec fn async_with_text(d: StmtAsyncWith, indent: nat) -> Seq<char>
    decreases d, 5nat,
{
    with_head_text("async with "@, d.items@, indent) + block_text(d.body@, indent)
}

/// `match subject:` and the `case` clauses one level deeper.
pub open spec fn match_text(d: StmtMatch, indent: nat) -> Seq<char>
    decreases d, 5nat,
{
    line_start(indent) + "match "@ + expr_text(*d.subject, PREC_TEST as nat) + ":"@ + concat(
        cases_texts(d.cases@, nested(indent)),
    )
}

/// `raise`, `raise exc`, or `raise exc from cause`
#[verifier::opaque]
pub open spec fn raise_text(d: StmtRaise, indent: nat) -> Seq<char> {
    line_start(indent) + "raise"@ + optional_expr_text(" "@, d.exc) + optional_expr_text(
        " from "@,
        d.cause,
    )
}

/// `try:` and the body, the handlers, and the `else:` and `finally:`
/// clauses where they have statements.
pub open spec fn try_text(d: StmtTry, indent: nat) -> Seq<char>
    decreases d, 5nat,
{
    line_start(indent) + "try:"@ + block_text(d.body@, indent) + concat(
        handlers_texts(d.handlers@, false, indent),
    ) + clause_text("else:"@, d.orelse@, indent) + clause_text("finally:"@, d.finalbody@, indent)
}

/// The same for exception groups: the handlers start with `except*`.
pub open spec fn try_star_text(d: StmtTryStar, indent: nat) -> Seq<char>
    decreases d, 5nat,
{
    line_start(indent) + "try:"@ + block_text(d.body@, indent) + concat(
        handlers_texts(d.handlers@, true, indent),
    ) + clause_text("else:"@, d.orelse@, indent) + clause_text("finally:"@, d.finalbody@, indent)
}

/// `assert test`, or `assert test, msg`
#[verifier::opaque]
pub open spec fn assert_text(d: StmtAssert, indent: nat) -> Seq<char> {
    line_start(indent) + "assert "@ + expr_text(*d.test, PREC_TEST as nat) + optional_expr_text(
        ", "@,
        d.msg,
    )
}

/// `import a, b as c`
#[verifier::opaque]
pub open spec fn import_text(d: StmtImport, indent: nat) -> Seq<char> {
    line_start(indent) + "import "@ + join(aliases_texts(d.names@), ", "@)
}

/// `from ..module import a, b as c`: as many dots as the level says, none
/// without a level.
#[verifier::opaque]
pub open spec fn import_from_text(d: StmtImportFrom, indent: nat) -> Seq<char> {
    line_start(indent) + "from "@ + dots_text(import_level(d.level)) + module_text(d.module)
        + " import "@ + join(aliases_texts(d.names@), ", "@)
}

/// `global a, b`
#[verifier::opaque]
pub open spec fn global_text(d: StmtGlobal, indent: nat) -> Seq<char> {
    line_start(indent) + "global "@ + join(names_texts(d.names@), ", "@)
}

/// `nonlocal a, b`
#[verifier::opaque]
pub open spec fn nonlocal_text(d: StmtNonlocal, indent: nat) -> Seq<char> {
    line_start(indent) + "nonlocal "@ + join(names_texts(d.names@), ", "@)
}

/// An expression on a line of its own.
#[verifier::opaque]
pub open spec fn expr_stmt_text(d: StmtExpr, indent: nat) -> Seq<char> {
    line_start(indent) + expr_text(*d.value, PREC_TEST as nat)
}

/// The text of a statement that stands in a block of depth `indent`: a
/// new line at that depth, and what its kind says.
pub open spec fn stmt_text(s: Stmt, indent: nat) -> Seq<char>
    decreases s, 0nat,
{
    match s {
        Stmt::FunctionDef(d) => function_def_text(d, indent),
        Stmt::AsyncFunctionDef(d) => async_function_def_text(d, indent),
        Stmt::ClassDef(d) => class_def_text(d, indent),
        Stmt::Return(d) => return_text(d, indent),
        Stmt::Delete(d) => delete_text(d, indent),
        Stmt::Assign(d) => assign_text(d, indent),
        Stmt::TypeAlias(d) => type_alias_text(d, indent),
        Stmt::AugAssign(d) => aug_assign_text(d, indent),
        Stmt::AnnAssign(d) => ann_assign_text(d, indent),
        Stmt::For(d) => for_text(d, indent),
        Stmt::AsyncFor(d) => async_for_text(d, indent),
        Stmt::While(d) => while_text(d, indent),
        Stmt::If(d) => if_text(d, indent),
        Stmt::With(d) => with_text(d, indent),
        Stmt::AsyncWith(d) => async_with_text(d, indent),
        Stmt::Match(d) => match_text(d, indent),
        Stmt::Raise(d) => raise_text(d, indent),
        Stmt::Try(d) => try_text(d, indent),
        Stmt::TryStar(d) => try_star_text(d, indent),
        Stmt::Assert(d) => assert_text(d, indent),
        Stmt::Import(d) => import_text(d, indent),
        Stmt::ImportFrom(d) => import_from_text(d, indent),
        Stmt::Global(d) => global_text(d, indent),
        Stmt::Nonlocal(d) => nonlocal_text(d, indent),
        Stmt::Expr(d) => expr_stmt_text(d, indent),
        Stmt::Pass(_) => line_start(indent) + "pass"@,
        Stmt::Break(_) => line_start(indent) + "break"@,
        Stmt::Continue(_) => line_start(indent) + "continue"@,
    }
}

/// The text of a list of statements at depth `indent`: a module at depth
/// zero.
pub open spec fn suite_text(body: Seq<Stmt>, indent: nat) -> Seq<char> {
    concat(stmts_texts(body, indent))
}

/// The failures of a list of statements.
pub open spec fn stmts_errors(body: Seq<Stmt>) -> Seq<Option<UnparseError>>
    decreases body, 1nat,
{
    Seq::new(
        body.len(),
        |i: int|
            if 0 <= i < body.len() {
                stmt_error(body[i])
            } else {
                None
            },
    )
}

/// The failure of what follows the body of an `if` statement.
pub open spec fn if_tail_error(orelse: Seq<Stmt>) -> Option<UnparseError>
    decreases orelse, 4nat,
{
    if orelse.len() == 1 && orelse[0] is If {
        let inner = orelse[0]->If_0;
        or_error(
            expr_error(*inner.test),
            or_error(first_error(stmts_errors(inner.body@)), if_tail_error(inner.orelse@)),
        )
    } else {
        first_error(stmts_errors(orelse))
    }
}

/// The failure of a handler clause.
pub open spec fn handler_error(h: ExceptHandler) -> Option<UnparseError>
    decreases h, 0nat,
{
    match h {
        ExceptHandler::ExceptHandler(d) => or_error(
            optional_expr_error(d.type_),
            first_error(stmts_errors(d.body@)),
        ),
    }
}

/// The failures of the handler clauses of a `try` statement.
pub open spec fn handlers_errors(hs: Seq<ExceptHandler>) -> Seq<Option<UnparseError>>
    decreases hs, 1nat,
{
    Seq::new(
        hs.len(),
        |i: int|
            if 0 <= i < hs.len() {
                handler_error(hs[i])
            } else {
                None
            },
    )
}

/// The failure of a `case` clause.
pub open spec fn match_case_error(c: MatchCase) -> Option<UnparseError>
    decreases c, 0nat,
{
    or_error(
        pattern_error(c.pattern),
        or_error(optional_expr_error(c.guard), first_error(stmts_errors(c.body@))),
    )
}

/// The failures of the `case` clauses of a `match` statement.
pub open spec fn cases_errors(cs: Seq<MatchCase>) -> Seq<Option<UnparseError>>
    decreases cs, 1nat,
{
    Seq::new(
        cs.len(),
        |i: int|
            if 0 <= i < cs.len() {
                match_case_error(cs[i])
            } else {
                None
            },
    )
}

/// The failure that rendering a statement ends in, if any: that of the
/// first of its parts that fails, in the order in which they are written.
pub open spec fn stmt_error(s: Stmt) -> Option<UnparseError>
    decreases s, 0nat,
{
    match s {
        Stmt::FunctionDef(d) => or_error(
            function_head_error(d.decorator_list@, d.type_params@, *d.args, d.returns),
            first_error(stmts_errors(d.body@)),
        ),
        Stmt::AsyncFunctionDef(d) => or_error(
            function_head_error(d.decorator_list@, d.type_params@, *d.args, d.returns),
            first_error(stmts_errors(d.body@)),
        ),
        Stmt::ClassDef(d) => or_error(
            class_head_error(d.decorator_list@, d.type_params@, d.bases@, d.keywords@),
            first_error(stmts_errors(d.body@)),
        ),
        Stmt::Return(d) => optional_expr_error(d.value),
        Stmt::Delete(d) => first_error(exprs_errors(d.targets@)),
        Stmt::Assign(d) => or_error(first_error(exprs_errors(d.targets@)), expr_error(*d.value)),
        Stmt::TypeAlias(d) => or_error(
            expr_error(*d.name),
            or_error(first_error(type_params_errors(d.type_params@)), expr_error(*d.value)),
        ),
        Stmt::AugAssign(d) => or_error(expr_error(*d.target), expr_error(*d.value)),
        Stmt::AnnAssign(d) => or_error(
            expr_error(*d.target),
            or_error(expr_error(*d.annotation), optional_expr_error(d.value)),
        ),
        Stmt::For(d) => or_error(
            or_error(expr_error(*d.target), expr_error(*d.iter)),
            or_error(first_error(stmts_errors(d.body@)), first_error(stmts_errors(d.orelse@))),
        ),
        Stmt::AsyncFor(d) => or_error(
            or_error(expr_error(*d.target), expr_error(*d.iter)),
            or_error(first_error(stmts_errors(d.body@)), first_error(stmts_errors(d.orelse@))),
        ),
        Stmt::While(d) => or_error(
            expr_error(*d.test),
            or_error(first_error(stmts_errors(d.body@)), first_error(stmts_errors(d.orelse@))),
        ),
        Stmt::If(d) => or_error(
            expr_error(*d.test),
            or_error(first_error(stmts_errors(d.body@)), if_tail_error(d.orelse@)),
        ),
        Stmt::With(d) => or_error(
            first_error(with_items_errors(d.items@)),
            first_error(stmts_errors(d.body@)),
        ),
        Stmt::AsyncWith(d) => or_error(
            first_error(with_items_errors(d.items@)),
            first_error(stmts_errors(d.body@)),
        ),
        Stmt::Match(d) => or_error(expr_error(*d.subject), first_error(cases_errors(d.cases@))),
        Stmt::Raise(d) => or_error(optional_expr_error(d.exc), optional_expr_error(d.cause)),
        Stmt::Try(d) => or_error(
            first_error(stmts_errors(d.body@)),
            or_error(
                first_error(handlers_errors(d.handlers@)),
                or_error(
                    first_error(stmts_errors(d.orelse@)),
                    first_error(stmts_errors(d.finalbody@)),
                ),
            ),
        ),
        Stmt::TryStar(d) => or_error(
            first_error(stmts_errors(d.body@)),
            or_error(
                first_error(handlers_errors(d.handlers@)),
                or_error(
                    first_error(stmts_errors(d.orelse@)),
                    first_error(stmts_errors(d.finalbody@)),
                ),
            ),
        ),
        Stmt::Assert(d) => or_error(expr_error(*d.test), optional_expr_error(d.msg)),
        Stmt::Import(_) => None,
        Stmt::ImportFrom(_) => None,
        Stmt::Global(_) => None,
        Stmt::Nonlocal(_) => None,
        Stmt::Expr(d) => expr_error(*d.value),
        Stmt::Pass(_) => None,
        Stmt::Break(_) => None,
        Stmt::Continue(_) => None,
    }
}

} // verus!
