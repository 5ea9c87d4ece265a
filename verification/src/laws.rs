//! What holds of the rendered text for every tree: where parentheses
//! stand, how `if` chains and blocks are laid out, and what the empty
//! displays look like.

use crate::ast::{
    Arguments, BoolOp, Expr, ExprBinOp, ExprSet, ExprUnaryOp, Operator, Stmt, StmtFor,
    StmtFunctionDef, StmtIf, UnaryOp,
};
use crate::error::{first_error, UnparseError};
use crate::expr_model::{
    arguments_parts, arguments_text, expr_bare, expr_error, expr_text, exprs_texts,
    keywords_texts, operator_text,
};
use crate::faults::{
    any, expr_has, lemma_agree_both, lemma_stmt, lemma_stmts, stmt_has, stmts_have,
};
use crate::precedence::{
    is_empty_tuple, is_signed_literal, left_operand_level, needs_parentheses,
    operator_precedence, precedence, right_operand_level, PREC_ARITH,
    PREC_FACTOR, PREC_POWER, PREC_TEST,
};
use crate::stmt_model::{
    ann_assign_text, assert_text, assign_text, async_for_text, async_function_def_text,
    async_with_text, aug_assign_text, block_text, class_def_text, class_head_text, clause_text,
    decorators_texts, delete_text, expr_stmt_text, for_head_text, for_text, function_def_text,
    function_head_text, global_text, if_tail_text, if_text, import_from_text, import_text,
    match_text, nonlocal_text, raise_text, return_text, stmt_error, stmt_text, stmts_errors,
    stmts_texts, suite_text, try_star_text, try_text, type_alias_text, while_text,
    with_head_text, with_text, aliases_texts, cases_texts, dots_text, handlers_texts,
    import_level, module_text, names_texts, optional_expr_text, optional_name_text,
    targets_texts, type_params_text, with_items_texts,
};
use crate::stmt_output::stmt_onto;
use crate::text::{
    concat, concat_upto, delimited, join, lemma_cat2, lemma_cat3, lemma_cat4, lemma_cat5,
    lemma_cat7, line_start, nested,
};
use crate::unparser::{rendered_onto, Unparser};
use vstd::prelude::*;

verus! {

/// An expression stands in parentheses exactly where its precedence is
/// lower than its place requires. The two exceptions are the tuple without
/// items and a literal whose text starts with a minus sign.
pub proof fn law_parentheses_by_precedence(e: Expr, level: nat)
    requires
        !is_empty_tuple(e),
        !is_signed_literal(e),
    ensures
        precedence(e) < level ==> expr_text(e, level) == "("@ + expr_bare(e) + ")"@,
        precedence(e) >= level ==> expr_text(e, level) == expr_bare(e),
{
    reveal(needs_parentheses);
}

/// The tuple without items is written `()` wherever it stands.
pub proof fn law_empty_tuple(e: Expr, level: nat)
    requires
        is_empty_tuple(e),
    ensures
        expr_text(e, level) == "()"@,
{
    reveal(needs_parentheses);
}

/// A literal whose text starts with a minus sign stands in parentheses
/// exactly where a negation would: where more than the precedence of a
/// negation is required.
pub proof fn law_signed_literal(e: Expr, operand: Expr, level: nat)
    requires
        is_signed_literal(e),
    ensures
        expr_text(e, level) == if (PREC_FACTOR as nat) < level {
            "("@ + expr_bare(e) + ")"@
        } else {
            expr_bare(e)
        },
        needs_parentheses(e, level) == needs_parentheses(
            Expr::UnaryOp(ExprUnaryOp { op: UnaryOp::USub, operand: Box::new(operand) }),
            level,
        ),
{
    reveal(needs_parentheses);
}

/// The precedence of an expression depends on its kind and, for an
/// operation, on its operator only, and the kinds stand in this order:
/// named expression, tuple, `yield`, conditional and lambda, `or`, `and`,
/// `not`, comparison, `|`, `^`, `&`, shifts, sums, products, unary signs,
/// power, `await`, and every other kind above them.
pub proof fn law_precedence_order(e: Expr)
    ensures
        precedence(e) == match e {
            Expr::NamedExpr(_) => 1nat,
            Expr::Tuple(_) => 2,
            Expr::Yield(_) => 3,
            Expr::YieldFrom(_) => 3,
            Expr::IfExp(_) => 4,
            Expr::Lambda(_) => 4,
            Expr::BoolOp(d) => match d.op {
                BoolOp::Or => 5,
                BoolOp::And => 6,
            },
            Expr::UnaryOp(d) => match d.op {
                UnaryOp::Not => 7,
                _ => 15,
            },
            Expr::Compare(_) => 8,
            Expr::BinOp(d) => match d.op {
                Operator::BitOr => 9,
                Operator::BitXor => 10,
                Operator::BitAnd => 11,
                Operator::LShift => 12,
                Operator::RShift => 12,
                Operator::Add => 13,
                Operator::Sub => 13,
                Operator::Pow => 16,
                _ => 14,
            },
            Expr::Await(_) => 17,
            _ => 18,
        },
{
}

/// A binary operation is its left operand, the operator between spaces,
/// and its right operand; each operand in parentheses exactly where it
/// binds less tightly than its side requires.
pub proof fn law_binary_operation(node: ExprBinOp)
    ensures
        expr_bare(Expr::BinOp(node)) == expr_text(*node.left, left_operand_level(node.op)) + " "@
            + operator_text(node.op) + " "@ + expr_text(
            *node.right,
            right_operand_level(node.op),
        ),
{
}

/// `(a + b) * c`: a sum that is the left operand of a product stands in
/// parentheses.
pub proof fn law_sum_under_product(product: ExprBinOp, sum: ExprBinOp)
    requires
        product.op is Mult,
        sum.op is Add,
        *product.left == Expr::BinOp(sum),
    ensures
        expr_bare(Expr::BinOp(product)) == "("@ + expr_bare(Expr::BinOp(sum)) + ")"@ + " "@ + "*"@
            + " "@ + expr_text(*product.right, PREC_FACTOR as nat),
{
    reveal(needs_parentheses);
}

/// `a + b * c`: a product that is the right operand of a sum stands
/// without parentheses.
pub proof fn law_product_under_sum(sum: ExprBinOp, product: ExprBinOp)
    requires
        sum.op is Add,
        product.op is Mult,
        *sum.right == Expr::BinOp(product),
    ensures
        expr_bare(Expr::BinOp(sum)) == expr_text(*sum.left, PREC_ARITH as nat) + " "@ + "+"@ + " "@
            + expr_bare(Expr::BinOp(product)),
{
    reveal(needs_parentheses);
}

/// An operand of the operator's own precedence stands without
/// parentheses on the left of every operator but power, and in
/// parentheses on its right.
pub proof fn law_left_associative(node: ExprBinOp, operand: Expr)
    requires
        !(node.op is Pow),
        precedence(operand) == operator_precedence(node.op),
    ensures
        expr_text(operand, left_operand_level(node.op)) == expr_bare(operand),
        expr_text(operand, right_operand_level(node.op)) == "("@ + expr_bare(operand) + ")"@,
{
    reveal(needs_parentheses);
}

/// `a ** (b ** c)`: a power that is the right operand of a power stands
/// without parentheses.
pub proof fn law_power_on_the_right(outer: ExprBinOp, inner: ExprBinOp)
    requires
        outer.op is Pow,
        inner.op is Pow,
        *outer.right == Expr::BinOp(inner),
    ensures
        expr_bare(Expr::BinOp(outer)) == expr_text(*outer.left, PREC_POWER as nat + 1) + " "@
            + "**"@ + " "@ + expr_bare(Expr::BinOp(inner)),
{
    reveal(needs_parentheses);
}

/// `(a ** b) ** c`: a power that is the left operand of a power stands in
/// parentheses.
pub proof fn law_power_on_the_left(outer: ExprBinOp, inner: ExprBinOp)
    requires
        outer.op is Pow,
        inner.op is Pow,
        *outer.left == Expr::BinOp(inner),
    ensures
        expr_bare(Expr::BinOp(outer)) == "("@ + expr_bare(Expr::BinOp(inner)) + ")"@ + " "@ + "**"@
            + " "@ + expr_text(*outer.right, PREC_POWER as nat),
{
    reveal(needs_parentheses);
}

/// An `if` statement whose alternative is exactly one `if` statement
/// continues with `elif`, that statement's test and body, and what
/// follows that statement in turn.
pub proof fn law_elif(node: StmtIf, inner: StmtIf, indent: nat)
    requires
        node.orelse@.len() == 1,
        node.orelse@[0] == Stmt::If(inner),
    ensures
        stmt_text(Stmt::If(node), indent) == line_start(indent) + "if "@ + expr_text(
            *node.test,
            PREC_TEST as nat,
        ) + ":"@ + block_text(node.body@, indent) + (line_start(indent) + "elif "@ + expr_text(
            *inner.test,
            PREC_TEST as nat,
        ) + ":"@ + block_text(inner.body@, indent) + if_tail_text(inner.orelse@, indent)),
{
    assert(if_text(node, indent) == line_start(indent) + "if "@ + expr_text(
        *node.test,
        PREC_TEST as nat,
    ) + ":"@ + block_text(node.body@, indent) + if_tail_text(node.orelse@, indent));
}

/// An `if` statement whose alternative is anything but exactly one `if`
/// statement continues with an `else:` block where the alternative has
/// statements, and with nothing where it has none.
pub proof fn law_else(node: StmtIf, indent: nat)
    requires
        !(node.orelse@.len() == 1 && node.orelse@[0] is If),
    ensures
        node.orelse@.len() > 0 ==> stmt_text(Stmt::If(node), indent) == line_start(indent) + "if "@
            + expr_text(*node.test, PREC_TEST as nat) + ":"@ + block_text(node.body@, indent) + (
        line_start(indent) + "else:"@ + block_text(node.orelse@, indent)),
        node.orelse@.len() == 0 ==> stmt_text(Stmt::If(node), indent) == line_start(indent) + "if "@
            + expr_text(*node.test, PREC_TEST as nat) + ":"@ + block_text(node.body@, indent)
            + Seq::<char>::empty(),
{
    assert(if_text(node, indent) == line_start(indent) + "if "@ + expr_text(
        *node.test,
        PREC_TEST as nat,
    ) + ":"@ + block_text(node.body@, indent) + if_tail_text(node.orelse@, indent));
    assert(if_tail_text(node.orelse@, indent) == clause_text("else:"@, node.orelse@, indent));
}

/// A line starts with a line break and four spaces for each level of its
/// depth.
pub proof fn law_line_start(depth: nat)
    ensures
        line_start(depth).len() == 1 + 4 * depth,
        line_start(depth)[0] == '\n',
        forall|i: int| 1 <= i <= 4 * depth ==> line_start(depth)[i] == ' ',
    decreases depth,
{
    reveal_strlit("\n");
    reveal_strlit("    ");
    if depth > 0 {
        law_line_start((depth - 1) as nat);
        assert(line_start(depth) =~= line_start((depth - 1) as nat) + "    "@);
    } else {
        assert(line_start(depth) =~= "\n"@);
    }
}

/// The body of a compound statement stands exactly one level deeper than
/// the statement.
pub proof fn law_block_depth(body: Seq<Stmt>, indent: nat)
    requires
        indent < usize::MAX,
    ensures
        block_text(body, indent) == suite_text(body, indent + 1),
{
}

/// A list of one statement is rendered as that statement.
pub proof fn law_single_statement(body: Seq<Stmt>, indent: nat)
    requires
        body.len() == 1,
    ensures
        suite_text(body, indent) == stmt_text(body[0], indent),
{
    let texts = stmts_texts(body, indent);
    assert(concat_upto(texts, 1) == concat_upto(texts, 0) + texts[0]);
    assert(concat_upto(texts, 1) =~= texts[0]);
}

/// A function whose body is a `for` loop whose body is an `if` statement:
/// the loop stands one level deeper than the function, the `if` two, and
/// the statements of the `if` three.
pub proof fn law_nested_blocks(function: StmtFunctionDef, looping: StmtFor, test: StmtIf, indent: nat)
    requires
        indent + 3 <= usize::MAX,
        function.body@ == seq![Stmt::For(looping)],
        looping.body@ == seq![Stmt::If(test)],
        looping.orelse@.len() == 0,
        test.orelse@.len() == 0,
    ensures
        stmt_text(Stmt::FunctionDef(function), indent) == function_head_text(
            "def "@,
            function.decorator_list@,
            function.name@,
            function.type_params@,
            *function.args,
            function.returns,
            indent,
        ) + (for_head_text("for "@, *looping.target, *looping.iter, indent + 1) + (line_start(
            indent + 2,
        ) + "if "@ + expr_text(*test.test, PREC_TEST as nat) + ":"@ + suite_text(
            test.body@,
            indent + 3,
        ))),
{
    let inner = line_start(indent + 2) + "if "@ + expr_text(*test.test, PREC_TEST as nat) + ":"@
        + suite_text(test.body@, indent + 3);
    assert(stmt_text(Stmt::If(test), indent + 2) == inner) by {
        assert(if_text(test, indent + 2) == line_start(indent + 2) + "if "@ + expr_text(
            *test.test,
            PREC_TEST as nat,
        ) + ":"@ + block_text(test.body@, indent + 2) + if_tail_text(test.orelse@, indent + 2));
        assert(if_tail_text(test.orelse@, indent + 2) == clause_text(
            "else:"@,
            test.orelse@,
            indent + 2,
        ));
        assert(if_text(test, indent + 2) =~= inner);
    }
    let middle = for_head_text("for "@, *looping.target, *looping.iter, indent + 1) + inner;
    assert(stmt_text(Stmt::For(looping), indent + 1) == middle) by {
        assert(for_text(looping, indent + 1) == for_head_text(
            "for "@,
            *looping.target,
            *looping.iter,
            indent + 1,
        ) + block_text(looping.body@, indent + 1) + clause_text(
            "else:"@,
            looping.orelse@,
            indent + 1,
        ));
        law_single_statement(looping.body@, indent + 2);
        assert(for_text(looping, indent + 1) =~= middle);
    }
    assert(function_def_text(function, indent) == function_head_text(
        "def "@,
        function.decorator_list@,
        function.name@,
        function.type_params@,
        *function.args,
        function.returns,
        indent,
    ) + block_text(function.body@, indent));
    law_single_statement(function.body@, indent + 1);
}

/// The set without elements is written `{*()}`.
pub proof fn law_empty_set(node: ExprSet)
    requires
        node.elts@.len() == 0,
    ensures
        expr_bare(Expr::SetExpr(node)) == "{*()}"@,
{
}

/// A parameter list without parameters is the empty text, so that the
/// header of a function without parameters holds `()`.
pub proof fn law_empty_parameters(node: Arguments)
    requires
        node.posonlyargs@.len() == 0,
        node.args@.len() == 0,
        node.vararg is None,
        node.kwonlyargs@.len() == 0,
        node.kwarg is None,
    ensures
        arguments_text(node) == Seq::<char>::empty(),
{
    assert(arguments_parts(node).len() == 0);
}

/// A formatted string and an interpolated value are at fault wherever
/// they are written, and rendering them fails with `UnsupportedConstruct`.
pub proof fn law_formatted_string(e: Expr)
    requires
        e is JoinedStr || e is FormattedValue,
    ensures
        expr_has(e, UnparseError::UnsupportedConstruct),
        expr_error(e) == Some(UnparseError::UnsupportedConstruct),
{
}

/// Rendering a statement fails exactly where the statement holds a node
/// at fault, and with a failure that a node of it is at fault for.
pub proof fn law_failure_has_a_cause(s: Stmt, fault: UnparseError)
    ensures
        stmt_error(s) is Some <==> stmt_has(s, UnparseError::UnsupportedConstruct) || stmt_has(
            s,
            UnparseError::EncodingError,
        ),
        stmt_error(s) == Some(fault) ==> stmt_has(s, fault),
{
    lemma_stmt(s, UnparseError::UnsupportedConstruct);
    lemma_stmt(s, UnparseError::EncodingError);
    lemma_stmt(s, fault);
    lemma_agree_both(
        stmt_error(s),
        stmt_has(s, UnparseError::UnsupportedConstruct),
        stmt_has(s, UnparseError::EncodingError),
    );
}

/// Rendering a statement that holds a node without a rendering (a
/// formatted string, an interpolated value, a pattern bound to no name)
/// and no byte string that is not valid UTF-8 fails with
/// `UnsupportedConstruct`.
pub proof fn law_unsupported_statement(s: Stmt)
    requires
        stmt_has(s, UnparseError::UnsupportedConstruct),
        !stmt_has(s, UnparseError::EncodingError),
    ensures
        stmt_error(s) == Some(UnparseError::UnsupportedConstruct),
{
    lemma_stmt(s, UnparseError::UnsupportedConstruct);
    lemma_stmt(s, UnparseError::EncodingError);
    lemma_agree_both(
        stmt_error(s),
        stmt_has(s, UnparseError::UnsupportedConstruct),
        stmt_has(s, UnparseError::EncodingError),
    );
}

/// The same for a module: if one of its statements holds a node without a
/// rendering, and none a byte string that is not valid UTF-8, rendering it
/// fails with `UnsupportedConstruct`; and it is rendered exactly where no
/// statement holds a node at fault.
pub proof fn law_unsupported_module(body: Seq<Stmt>)
    ensures
        any(stmts_have(body, UnparseError::UnsupportedConstruct)) && !any(
            stmts_have(body, UnparseError::EncodingError),
        ) ==> first_error(stmts_errors(body)) == Some(UnparseError::UnsupportedConstruct),
        first_error(stmts_errors(body)) is None <==> !any(
            stmts_have(body, UnparseError::UnsupportedConstruct),
        ) && !any(stmts_have(body, UnparseError::EncodingError)),
{
    lemma_stmts(body, UnparseError::UnsupportedConstruct);
    lemma_stmts(body, UnparseError::EncodingError);
    lemma_agree_both(
        first_error(stmts_errors(body)),
        any(stmts_have(body, UnparseError::UnsupportedConstruct)),
        any(stmts_have(body, UnparseError::EncodingError)),
    );
}

/// A text goes on being a prefix when more is appended.
proof fn lemma_prefix_extends(p: Seq<char>, a: Seq<char>, b: Seq<char>)
    requires
        p.is_prefix_of(a),
    ensures
        p.is_prefix_of(a + b),
{
}

/// The first of several texts laid end to end is a prefix of the whole.
proof fn lemma_first_part_is_prefix(parts: Seq<Seq<char>>, n: nat)
    requires
        1 <= n <= parts.len(),
    ensures
        parts[0].is_prefix_of(concat_upto(parts, n)),
    decreases n,
{
    if n > 1 {
        lemma_first_part_is_prefix(parts, (n - 1) as nat);
        lemma_prefix_extends(parts[0], concat_upto(parts, (n - 1) as nat), parts[n - 1]);
    } else {
        assert(concat_upto(parts, 1) == concat_upto(parts, 0) + parts[0]);
    }
}

/// The header of a definition starts a new line, whether with its first
/// decorator or, without decorators, with its keyword.
proof fn lemma_head_starts_line(decorators: Seq<Expr>, keyword: Seq<char>, indent: nat)
    ensures
        line_start(indent).is_prefix_of(
            concat(decorators_texts(decorators, indent)) + (line_start(indent) + keyword),
        ),
{
    let parts = decorators_texts(decorators, indent);
    if decorators.len() > 0 {
        lemma_first_part_is_prefix(parts, parts.len());
        assert(line_start(indent).is_prefix_of(parts[0]));
        assert(line_start(indent).is_prefix_of(concat(parts)));
    } else {
        assert(concat(parts) =~= Seq::<char>::empty());
    }
}

/// A text is a prefix of itself with more behind it.
proof fn lemma_starts(p: Seq<char>, rest: Seq<char>)
    ensures
        p.is_prefix_of(p + rest),
{
}

/// A simple statement starts a new line at the depth of the block it
/// stands in.
proof fn lemma_simple_statement_starts_line(s: Stmt, indent: nat)
    requires
        s is Return || s is Delete || s is Assign || s is TypeAlias || s is AugAssign
            || s is AnnAssign || s is Raise || s is Assert || s is Import || s is ImportFrom
            || s is Global || s is Nonlocal || s is Expr || s is Pass || s is Break
            || s is Continue,
    ensures
        line_start(indent).is_prefix_of(stmt_text(s, indent)),
{
    let start = line_start(indent);
    let test = PREC_TEST as nat;
    match s {
        Stmt::Return(d) => {
            reveal(return_text);
            lemma_cat2(start, "return"@, optional_expr_text(" "@, d.value));
            lemma_starts(start, "return"@ + optional_expr_text(" "@, d.value));
        },
        Stmt::Delete(d) => {
            reveal(delete_text);
            lemma_cat2(start, "del "@, join(exprs_texts(d.targets@, test), ", "@));
            lemma_starts(start, "del "@ + join(exprs_texts(d.targets@, test), ", "@));
        },
        Stmt::Assign(d) => {
            reveal(assign_text);
            let a = concat(targets_texts(d.targets@));
            let b = expr_text(*d.value, test);
            let c = optional_name_text(" # type: "@, d.type_comment);
            lemma_cat3(start, a, b, c);
            lemma_starts(start, a + b + c);
        },
        Stmt::TypeAlias(d) => {
            reveal(type_alias_text);
            let a = expr_text(*d.name, test);
            let b = type_params_text(d.type_params@);
            let c = expr_text(*d.value, test);
            lemma_cat5(start, "type "@, a, b, " = "@, c);
            lemma_starts(start, "type "@ + a + b + " = "@ + c);
        },
        Stmt::AugAssign(d) => {
            reveal(aug_assign_text);
            let a = expr_text(*d.target, test);
            let b = operator_text(d.op);
            let c = expr_text(*d.value, test);
            lemma_cat5(start, a, " "@, b, "= "@, c);
            lemma_starts(start, a + " "@ + b + "= "@ + c);
        },
        Stmt::AnnAssign(d) => {
            reveal(ann_assign_text);
            let a = delimited(!d.simple && *d.target is Name, expr_text(*d.target, test));
            let b = expr_text(*d.annotation, test);
            let c = optional_expr_text(" = "@, d.value);
            lemma_cat4(start, a, ": "@, b, c);
            lemma_starts(start, a + ": "@ + b + c);
        },
        Stmt::Raise(d) => {
            reveal(raise_text);
            let a = optional_expr_text(" "@, d.exc);
            let b = optional_expr_text(" from "@, d.cause);
            lemma_cat3(start, "raise"@, a, b);
            lemma_starts(start, "raise"@ + a + b);
        },
        Stmt::Assert(d) => {
            reveal(assert_text);
            let a = expr_text(*d.test, test);
            let b = optional_expr_text(", "@, d.msg);
            lemma_cat3(start, "assert "@, a, b);
            lemma_starts(start, "assert "@ + a + b);
        },
        Stmt::Import(d) => {
            reveal(import_text);
            lemma_cat2(start, "import "@, join(aliases_texts(d.names@), ", "@));
            lemma_starts(start, "import "@ + join(aliases_texts(d.names@), ", "@));
        },
        Stmt::ImportFrom(d) => {
            reveal(import_from_text);
            let a = dots_text(import_level(d.level));
            let b = module_text(d.module);
            let c = join(aliases_texts(d.names@), ", "@);
            lemma_cat5(start, "from "@, a, b, " import "@, c);
            lemma_starts(start, "from "@ + a + b + " import "@ + c);
        },
        Stmt::Global(d) => {
            reveal(global_text);
            lemma_cat2(start, "global "@, join(names_texts(d.names@), ", "@));
            lemma_starts(start, "global "@ + join(names_texts(d.names@), ", "@));
        },
        Stmt::Nonlocal(d) => {
            reveal(nonlocal_text);
            lemma_cat2(start, "nonlocal "@, join(names_texts(d.names@), ", "@));
            lemma_starts(start, "nonlocal "@ + join(names_texts(d.names@), ", "@));
        },
        Stmt::Expr(d) => {
            reveal(expr_stmt_text);
            lemma_starts(start, expr_text(*d.value, test));
        },
        Stmt::Pass(_) => {
            lemma_starts(start, "pass"@);
        },
        Stmt::Break(_) => {
            lemma_starts(start, "break"@);
        },
        Stmt::Continue(_) => {
            lemma_starts(start, "continue"@);
        },
        _ => {},
    }
}

/// A definition starts a new line at the depth of the block it stands
/// in.
proof fn lemma_definition_starts_line(s: Stmt, indent: nat)
    requires
        s is FunctionDef || s is AsyncFunctionDef || s is ClassDef,
    ensures
        line_start(indent).is_prefix_of(stmt_text(s, indent)),
{
    let start = line_start(indent);
    match s {
        Stmt::FunctionDef(d) => {
            reveal(function_head_text);
            let head = concat(decorators_texts(d.decorator_list@, indent)) + (start + "def "@);
            let rest = d.name@ + type_params_text(d.type_params@) + "("@ + arguments_text(*d.args)
                + ")"@ + optional_expr_text(" -> "@, d.returns) + ":"@;
            lemma_head_starts_line(d.decorator_list@, "def "@, indent);
            lemma_cat7(
                head,
                d.name@,
                type_params_text(d.type_params@),
                "("@,
                arguments_text(*d.args),
                ")"@,
                optional_expr_text(" -> "@, d.returns),
                ":"@,
            );
            lemma_prefix_extends(start, head, rest);
            lemma_prefix_extends(start, head + rest, block_text(d.body@, indent));
            assert(function_def_text(d, indent) == head + rest + block_text(d.body@, indent));
        },
        Stmt::AsyncFunctionDef(d) => {
            reveal(function_head_text);
            let head = concat(decorators_texts(d.decorator_list@, indent)) + (start
                + "async def "@);
            let rest = d.name@ + type_params_text(d.type_params@) + "("@ + arguments_text(*d.args)
                + ")"@ + optional_expr_text(" -> "@, d.returns) + ":"@;
            lemma_head_starts_line(d.decorator_list@, "async def "@, indent);
            lemma_cat7(
                head,
                d.name@,
                type_params_text(d.type_params@),
                "("@,
                arguments_text(*d.args),
                ")"@,
                optional_expr_text(" -> "@, d.returns),
                ":"@,
            );
            lemma_prefix_extends(start, head, rest);
            lemma_prefix_extends(start, head + rest, block_text(d.body@, indent));
            assert(async_function_def_text(d, indent) == head + rest + block_text(
                d.body@,
                indent,
            ));
        },
        Stmt::ClassDef(d) => {
            reveal(class_head_text);
            let head = concat(decorators_texts(d.decorator_list@, indent)) + (start + "class "@);
            let listed = join(
                exprs_texts(d.bases@, PREC_TEST as nat) + keywords_texts(d.keywords@),
                ", "@,
            );
            let rest = d.name@ + type_params_text(d.type_params@) + "("@ + listed + "):"@;
            lemma_head_starts_line(d.decorator_list@, "class "@, indent);
            lemma_cat5(head, d.name@, type_params_text(d.type_params@), "("@, listed, "):"@);
            lemma_prefix_extends(start, head, rest);
            lemma_prefix_extends(start, head + rest, block_text(d.body@, indent));
            assert(class_def_text(d, indent) == head + rest + block_text(d.body@, indent));
        },
        _ => {},
    }
}

/// A compound statement starts a new line at the depth of the block it
/// stands in.
proof fn lemma_compound_statement_starts_line(s: Stmt, indent: nat)
    requires
        s is For || s is AsyncFor || s is While || s is If || s is With || s is AsyncWith
            || s is Match || s is Try || s is TryStar,
    ensures
        line_start(indent).is_prefix_of(stmt_text(s, indent)),
{
    let start = line_start(indent);
    let test = PREC_TEST as nat;
    match s {
        Stmt::For(d) => {
            reveal(for_head_text);
            let a = expr_text(*d.target, test);
            let b = expr_text(*d.iter, test);
            let c = block_text(d.body@, indent);
            let e = clause_text("else:"@, d.orelse@, indent);
            lemma_cat7(start, "for "@, a, " in "@, b, ":"@, c, e);
            lemma_starts(start, "for "@ + a + " in "@ + b + ":"@ + c + e);
            assert(for_text(d, indent) == start + "for "@ + a + " in "@ + b + ":"@ + c + e);
        },
        Stmt::AsyncFor(d) => {
            reveal(for_head_text);
            let a = expr_text(*d.target, test);
            let b = expr_text(*d.iter, test);
            let c = block_text(d.body@, indent);
            let e = clause_text("else:"@, d.orelse@, indent);
            lemma_cat7(start, "async for "@, a, " in "@, b, ":"@, c, e);
            lemma_starts(start, "async for "@ + a + " in "@ + b + ":"@ + c + e);
            assert(async_for_text(d, indent) == start + "async for "@ + a + " in "@ + b + ":"@ + c
                + e);
        },
        Stmt::While(d) => {
            let a = expr_text(*d.test, test);
            let c = block_text(d.body@, indent);
            let e = clause_text("else:"@, d.orelse@, indent);
            lemma_cat5(start, "while "@, a, ":"@, c, e);
            lemma_starts(start, "while "@ + a + ":"@ + c + e);
            assert(while_text(d, indent) == start + "while "@ + a + ":"@ + c + e);
        },
        Stmt::If(d) => {
            let a = expr_text(*d.test, test);
            let c = block_text(d.body@, indent);
            let e = if_tail_text(d.orelse@, indent);
            lemma_cat5(start, "if "@, a, ":"@, c, e);
            lemma_starts(start, "if "@ + a + ":"@ + c + e);
            assert(if_text(d, indent) == start + "if "@ + a + ":"@ + c + e);
        },
        Stmt::With(d) => {
            reveal(with_head_text);
            let a = join(with_items_texts(d.items@), ", "@);
            let c = block_text(d.body@, indent);
            lemma_cat4(start, "with "@, a, ":"@, c);
            lemma_starts(start, "with "@ + a + ":"@ + c);
            assert(with_text(d, indent) == start + "with "@ + a + ":"@ + c);
        },
        Stmt::AsyncWith(d) => {
            reveal(with_head_text);
            let a = join(with_items_texts(d.items@), ", "@);
            let c = block_text(d.body@, indent);
            lemma_cat4(start, "async with "@, a, ":"@, c);
            lemma_starts(start, "async with "@ + a + ":"@ + c);
            assert(async_with_text(d, indent) == start + "async with "@ + a + ":"@ + c);
        },
        Stmt::Match(d) => {
            let a = expr_text(*d.subject, test);
            let c = concat(cases_texts(d.cases@, nested(indent)));
            lemma_cat4(start, "match "@, a, ":"@, c);
            lemma_starts(start, "match "@ + a + ":"@ + c);
            assert(match_text(d, indent) == start + "match "@ + a + ":"@ + c);
        },
        Stmt::Try(d) => {
            let a = block_text(d.body@, indent);
            let b = concat(handlers_texts(d.handlers@, false, indent));
            let c = clause_text("else:"@, d.orelse@, indent);
            let e = clause_text("finally:"@, d.finalbody@, indent);
            lemma_cat5(start, "try:"@, a, b, c, e);
            lemma_starts(start, "try:"@ + a + b + c + e);
            assert(try_text(d, indent) == start + "try:"@ + a + b + c + e);
        },
        Stmt::TryStar(d) => {
            let a = block_text(d.body@, indent);
            let b = concat(handlers_texts(d.handlers@, true, indent));
            let c = clause_text("else:"@, d.orelse@, indent);
            let e = clause_text("finally:"@, d.finalbody@, indent);
            lemma_cat5(start, "try:"@, a, b, c, e);
            lemma_starts(start, "try:"@ + a + b + c + e);
            assert(try_star_text(d, indent) == start + "try:"@ + a + b + c + e);
        },
        _ => {},
    }
}

/// Every statement starts a new line at the depth of the block it stands
/// in.
pub proof fn law_statement_starts_line(s: Stmt, indent: nat)
    ensures
        line_start(indent).is_prefix_of(stmt_text(s, indent)),
{
    if s is FunctionDef || s is AsyncFunctionDef || s is ClassDef {
        lemma_definition_starts_line(s, indent);
    } else if s is For || s is AsyncFor || s is While || s is If || s is With || s is AsyncWith
        || s is Match || s is Try || s is TryStar {
        lemma_compound_statement_starts_line(s, indent);
    } else {
        lemma_simple_statement_starts_line(s, indent);
    }
}

/// Rendering is a function of the tree: two renderers whose buffers hold
/// the same text and that render the same statement at the same depth end
/// with the same result and with the same text in their buffers, whether
/// the statement can be rendered or not.
pub proof fn law_same_tree_same_text(
    first_before: Unparser,
    first_after: Unparser,
    first_result: Result<(), UnparseError>,
    second_before: Unparser,
    second_after: Unparser,
    second_result: Result<(), UnparseError>,
    s: Stmt,
)
    requires
        first_before.source@ == second_before.source@,
        first_before.indent == second_before.indent,
        rendered_onto(
            first_before,
            first_after,
            first_result,
            stmt_error(s),
            stmt_text(s, first_before.indent as nat),
            stmt_onto(first_before.source@, s, first_before.indent as nat),
        ),
        rendered_onto(
            second_before,
            second_after,
            second_result,
            stmt_error(s),
            stmt_text(s, second_before.indent as nat),
            stmt_onto(second_before.source@, s, second_before.indent as nat),
        ),
    ensures
        first_result == second_result,
        first_after.source@ == second_after.source@,
{
}

/// Rendering again what a parser reads from a rendered text gives the same
/// text, for every parser that reads from the text of a module the module
/// that was rendered.
pub proof fn law_rendering_again(parse: spec_fn(Seq<char>) -> Seq<Stmt>, body: Seq<Stmt>)
    requires
        parse(suite_text(body, 0)) == body,
    ensures
        suite_text(parse(suite_text(body, 0)), 0) == suite_text(body, 0),
{
}

} // verus!
