//! Rendering of expressions: one function for each kind, a dispatcher, and
//! the function that puts a child in parentheses where its place requires
//! it.
//!
//! The precedence that a place requires is handed to each call; the
//! renderer keeps no record of it, so what one child was written under has
//! no effect on the next.

use crate::ast::{
    Constant, Expr, ExprAttribute, ExprAwait, ExprBinOp, ExprBoolOp, ExprCall, ExprCompare,
    ExprConstant, ExprDict, ExprDictComp, ExprFormattedValue, ExprGeneratorExp, ExprIfExp,
    ExprJoinedStr, ExprLambda, ExprList, ExprListComp, ExprName, ExprNamedExpr, ExprSet,
    ExprSetComp, ExprSlice, ExprStarred, ExprSubscript, ExprTuple, ExprUnaryOp, ExprYield,
    ExprYieldFrom, BoolOp, Operator, UnaryOp,
};
use crate::error::{first_error, UnparseError};
use crate::expr_model::{
    expr_bare, expr_error, expr_text, exprs_errors, exprs_texts, is_int_literal, keywords_texts,
    operator_text, slice_part_text,
};
use crate::expr_output::{expr_bare_onto, expr_onto};
use crate::expr_parts::{bool_op_str, has_parameters, unary_op_str};
use crate::precedence::{
    get_operator_precedence, should_delimit, PREC_AND, PREC_ATOM, PREC_BOR, PREC_FACTOR, PREC_NOT,
    PREC_OR, PREC_TEST, PREC_TUPLE,
};
use crate::text::{join, led, lemma_cat2, lemma_cat4, lemma_cat5, lemma_join_led};
use crate::unparser::{rendered_onto, Unparser};
use vstd::prelude::*;
use vstd::string::*;

verus! {

/// Whether the kind of a constant is `u`.
fn is_unicode_kind(kind: &Option<String>) -> (yes: bool)
    ensures
        yes == (*kind matches Some(k) && k@ == "u"@),
{
    match kind {
        Some(k) => {
            proof {
                reveal_strlit("u");
            }
            let text = k.as_str();
            let yes = text.unicode_len() == 1 && text.get_char(0) == 'u';
            proof {
                if yes {
                    assert(k@ =~= "u"@);
                }
            }
            yes
        },
        None => false,
    }
}

/// Whether an expression is an integer literal.
fn int_literal(node: &Expr) -> (yes: bool)
    ensures
        yes == is_int_literal(*node),
{
    match node {
        Expr::Constant(data) => match data.value {
            Constant::Int(_) => true,
            _ => false,
        },
        _ => false,
    }
}

impl Unparser {
    /// Writes an expression where one of at least precedence `level` is
    /// required: in parentheses where its own precedence is lower.
    pub fn delimit_precedence(&mut self, node: &Expr, level: usize) -> (r: Result<
        (),
        UnparseError,
    >)
        ensures
            rendered_onto(*old(self), *final(self), r, expr_error(*node), expr_text(*node, level as nat), expr_onto(old(self).source@, *node, level as nat)),
        decreases *node, 1nat,
    {
        let delimit = should_delimit(node, level);
        if delimit {
            self.write_str("(");
        }
        self.unparse_expr(node)?;
        if delimit {
            self.write_str(")");
        }
        assert(self.source@ =~= old(self).source@ + expr_text(*node, level as nat));
        Ok(())
    }

    /// Writes an expression without parentheses around the whole.
    pub fn unparse_expr(&mut self, node: &Expr) -> (r: Result<(), UnparseError>)
        ensures
            rendered_onto(*old(self), *final(self), r, expr_error(*node), expr_bare(*node), expr_bare_onto(old(self).source@, *node)),
        decreases *node, 0nat,
    {
        match node {
            Expr::BoolOp(data) => self.unparse_expr_bool_op(data),
            Expr::NamedExpr(data) => self.unparse_expr_named_expr(data),
            Expr::BinOp(data) => self.unparse_expr_bin_op(data),
            Expr::UnaryOp(data) => self.unparse_expr_unary_op(data),
            Expr::Lambda(data) => self.unparse_expr_lambda(data),
            Expr::IfExp(data) => self.unparse_expr_if_exp(data),
            Expr::Dict(data) => self.unparse_expr_dict(data),
            Expr::SetExpr(data) => self.unparse_expr_set(data),
            Expr::ListComp(data) => self.unparse_expr_list_comp(data),
            Expr::SetComp(data) => self.unparse_expr_set_comp(data),
            Expr::DictComp(data) => self.unparse_expr_dict_comp(data),
            Expr::GeneratorExp(data) => self.unparse_expr_generator_exp(data),
            Expr::Await(data) => self.unparse_expr_await(data),
            Expr::Yield(data) => self.unparse_expr_yield(data),
            Expr::YieldFrom(data) => self.unparse_expr_yield_from(data),
            Expr::Compare(data) => self.unparse_expr_compare(data),
            Expr::Call(data) => self.unparse_expr_call(data),
            Expr::FormattedValue(data) => self.unparse_expr_formatted_value(data),
            Expr::JoinedStr(data) => self.unparse_expr_joined_str(data),
            Expr::Constant(data) => self.unparse_expr_constant(data),
            Expr::Attribute(data) => self.unparse_expr_attribute(data),
            Expr::Subscript(data) => self.unparse_expr_subscript(data),
            Expr::Starred(data) => self.unparse_expr_starred(data),
            Expr::Name(data) => self.unparse_expr_name(data),
            Expr::List(data) => self.unparse_expr_list(data),
            Expr::Tuple(data) => self.unparse_expr_tuple(data),
            Expr::Slice(data) => self.unparse_expr_slice(data),
        }
    }

    /// `a and b and c`: the operands, each bound more tightly than the
    /// operator, with the operator between them.
    pub fn unparse_expr_bool_op(&mut self, node: &ExprBoolOp) -> (r: Result<(), UnparseError>)
        ensures
            rendered_onto(
                *old(self),
                *final(self),
                r,
                expr_error(Expr::BoolOp(*node)),
                expr_bare(Expr::BoolOp(*node)), expr_bare_onto(old(self).source@, Expr::BoolOp(*node))),
        decreases *node, 3nat,
    {
        let level = match node.op {
            BoolOp::Or => PREC_OR + 1,
            BoolOp::And => PREC_AND + 1,
        };
        let mut operator = String::new();
        operator.append(" ");
        operator.append(bool_op_str(&node.op));
        operator.append(" ");
        self.unparse_exprs(&node.values, level, operator.as_str())
    }

    /// `target := value`
    pub fn unparse_expr_named_expr(&mut self, node: &ExprNamedExpr) -> (r: Result<
        (),
        UnparseError,
    >)
        ensures
            rendered_onto(
                *old(self),
                *final(self),
                r,
                expr_error(Expr::NamedExpr(*node)),
                expr_bare(Expr::NamedExpr(*node)), expr_bare_onto(old(self).source@, Expr::NamedExpr(*node))),
        decreases *node, 3nat,
    {
        self.delimit_precedence(&node.target, PREC_ATOM)?;
        self.write_str(" := ");
        self.delimit_precedence(&node.value, PREC_TEST)?;
        assert(self.source@ =~= old(self).source@ + expr_bare(Expr::NamedExpr(*node)));
        Ok(())
    }

    /// `left op right`. An operand of the operator's own precedence stands
    /// without parentheses on the side to which the operator groups: the
    /// left for all but power, the right for power.
    pub fn unparse_expr_bin_op(&mut self, node: &ExprBinOp) -> (r: Result<(), UnparseError>)
        ensures
            rendered_onto(
                *old(self),
                *final(self),
                r,
                expr_error(Expr::BinOp(*node)),
                expr_bare(Expr::BinOp(*node)), expr_bare_onto(old(self).source@, Expr::BinOp(*node))),
        decreases *node, 3nat,
    {
        let own = get_operator_precedence(&node.op);
        let (left_level, right_level) = match node.op {
            Operator::Pow => (own + 1, own),
            _ => (own, own + 1),
        };
        self.delimit_precedence(&node.left, left_level)?;
        self.write_str(" ");
        self.unparse_operator(&node.op);
        self.write_str(" ");
        self.delimit_precedence(&node.right, right_level)?;
        proof {
            lemma_cat5(
                old(self).source@,
                expr_text(*node.left, left_level as nat),
                " "@,
                operator_text(node.op),
                " "@,
                expr_text(*node.right, right_level as nat),
            );
        }
        Ok(())
    }

    /// `op operand`
    pub fn unparse_expr_unary_op(&mut self, node: &ExprUnaryOp) -> (r: Result<(), UnparseError>)
        ensures
            rendered_onto(
                *old(self),
                *final(self),
                r,
                expr_error(Expr::UnaryOp(*node)),
                expr_bare(Expr::UnaryOp(*node)), expr_bare_onto(old(self).source@, Expr::UnaryOp(*node))),
        decreases *node, 3nat,
    {
        let level = match node.op {
            UnaryOp::Not => PREC_NOT,
            _ => PREC_FACTOR,
        };
        self.write_str(unary_op_str(&node.op));
        self.delimit_precedence(&node.operand, level)?;
        assert(self.source@ =~= old(self).source@ + expr_bare(Expr::UnaryOp(*node)));
        Ok(())
    }

    /// `lambda parameters: body`
    pub fn unparse_expr_lambda(&mut self, node: &ExprLambda) -> (r: Result<(), UnparseError>)
        ensures
            rendered_onto(
                *old(self),
                *final(self),
                r,
                expr_error(Expr::Lambda(*node)),
                expr_bare(Expr::Lambda(*node)), expr_bare_onto(old(self).source@, Expr::Lambda(*node))),
        decreases *node, 6nat,
    {
        self.write_str("lambda");
        if has_parameters(&node.args) {
            self.write_str(" ");
        }
        self.unparse_arguments(&node.args)?;
        self.write_str(": ");
        self.delimit_precedence(&node.body, PREC_TEST)?;
        assert(self.source@ =~= old(self).source@ + expr_bare(Expr::Lambda(*node)));
        Ok(())
    }

    /// `body if test else orelse`
    pub fn unparse_expr_if_exp(&mut self, node: &ExprIfExp) -> (r: Result<(), UnparseError>)
        ensures
            rendered_onto(
                *old(self),
                *final(self),
                r,
                expr_error(Expr::IfExp(*node)),
                expr_bare(Expr::IfExp(*node)), expr_bare_onto(old(self).source@, Expr::IfExp(*node))),
        decreases *node, 3nat,
    {
        self.delimit_precedence(&node.body, PREC_OR)?;
        self.write_str(" if ");
        self.delimit_precedence(&node.test, PREC_OR)?;
        self.write_str(" else ");
        self.delimit_precedence(&node.orelse, PREC_TEST)?;
        assert(self.source@ =~= old(self).source@ + expr_bare(Expr::IfExp(*node)));
        Ok(())
    }

    /// `{key: value, **mapping}`
    pub fn unparse_expr_dict(&mut self, node: &ExprDict) -> (r: Result<(), UnparseError>)
        ensures
            rendered_onto(
                *old(self),
                *final(self),
                r,
                expr_error(Expr::Dict(*node)),
                expr_bare(Expr::Dict(*node)), expr_bare_onto(old(self).source@, Expr::Dict(*node))),
        decreases *node, 3nat,
    {
        self.write_str("{");
        self.unparse_dict_items(&node.items)?;
        self.write_str("}");
        assert(self.source@ =~= old(self).source@ + expr_bare(Expr::Dict(*node)));
        Ok(())
    }

    /// `{a, b}`, and `{*()}` for the set without elements, since `{}` is
    /// the empty dict.
    pub fn unparse_expr_set(&mut self, node: &ExprSet) -> (r: Result<(), UnparseError>)
        ensures
            rendered_onto(
                *old(self),
                *final(self),
                r,
                expr_error(Expr::SetExpr(*node)),
                expr_bare(Expr::SetExpr(*node)), expr_bare_onto(old(self).source@, Expr::SetExpr(*node))),
        decreases *node, 3nat,
    {
        if node.elts.len() > 0 {
            self.write_str("{");
            self.unparse_exprs(&node.elts, PREC_TEST, ", ")?;
            self.write_str("}");
            assert(self.source@ =~= old(self).source@ + expr_bare(Expr::SetExpr(*node)));
        } else {
            self.write_str("{*()}");
            assert(first_error(exprs_errors(node.elts@)) is None);
        }
        Ok(())
    }

    /// `[elt for target in iter if condition]`
    pub fn unparse_expr_list_comp(&mut self, node: &ExprListComp) -> (r: Result<(), UnparseError>)
        ensures
            rendered_onto(
                *old(self),
                *final(self),
                r,
                expr_error(Expr::ListComp(*node)),
                expr_bare(Expr::ListComp(*node)), expr_bare_onto(old(self).source@, Expr::ListComp(*node))),
        decreases *node, 5nat,
    {
        self.write_str("[");
        self.delimit_precedence(&node.elt, PREC_TEST)?;
        self.unparse_comprehensions(&node.generators)?;
        self.write_str("]");
        assert(self.source@ =~= old(self).source@ + expr_bare(Expr::ListComp(*node)));
        Ok(())
    }

    /// `{elt for target in iter if condition}`
    pub fn unparse_expr_set_comp(&mut self, node: &ExprSetComp) -> (r: Result<(), UnparseError>)
        ensures
            rendered_onto(
                *old(self),
                *final(self),
                r,
                expr_error(Expr::SetComp(*node)),
                expr_bare(Expr::SetComp(*node)), expr_bare_onto(old(self).source@, Expr::SetComp(*node))),
        decreases *node, 5nat,
    {
        self.write_str("{");
        self.delimit_precedence(&node.elt, PREC_TEST)?;
        self.unparse_comprehensions(&node.generators)?;
        self.write_str("}");
        assert(self.source@ =~= old(self).source@ + expr_bare(Expr::SetComp(*node)));
        Ok(())
    }

    /// `{key: value for target in iter if condition}`
    pub fn unparse_expr_dict_comp(&mut self, node: &ExprDictComp) -> (r: Result<(), UnparseError>)
        ensures
            rendered_onto(
                *old(self),
                *final(self),
                r,
                expr_error(Expr::DictComp(*node)),
                expr_bare(Expr::DictComp(*node)), expr_bare_onto(old(self).source@, Expr::DictComp(*node))),
        decreases *node, 5nat,
    {
        self.write_str("{");
        self.delimit_precedence(&node.key, PREC_TEST)?;
        self.write_str(": ");
        self.delimit_precedence(&node.value, PREC_TEST)?;
        self.unparse_comprehensions(&node.generators)?;
        self.write_str("}");
        assert(self.source@ =~= old(self).source@ + expr_bare(Expr::DictComp(*node)));
        Ok(())
    }

    /// `(elt for target in iter if condition)`
    pub fn unparse_expr_generator_exp(&mut self, node: &ExprGeneratorExp) -> (r: Result<
        (),
        UnparseError,
    >)
        ensures
            rendered_onto(
                *old(self),
                *final(self),
                r,
                expr_error(Expr::GeneratorExp(*node)),
                expr_bare(Expr::GeneratorExp(*node)), expr_bare_onto(old(self).source@, Expr::GeneratorExp(*node))),
        decreases *node, 5nat,
    {
        self.write_str("(");
        self.delimit_precedence(&node.elt, PREC_TEST)?;
        self.unparse_comprehensions(&node.generators)?;
        self.write_str(")");
        assert(self.source@ =~= old(self).source@ + expr_bare(Expr::GeneratorExp(*node)));
        Ok(())
    }

    /// `await value`
    pub fn unparse_expr_await(&mut self, node: &ExprAwait) -> (r: Result<(), UnparseError>)
        ensures
            rendered_onto(
                *old(self),
                *final(self),
                r,
                expr_error(Expr::Await(*node)),
                expr_bare(Expr::Await(*node)), expr_bare_onto(old(self).source@, Expr::Await(*node))),
        decreases *node, 3nat,
    {
        self.write_str("await ");
        self.delimit_precedence(&node.value, PREC_ATOM)?;
        assert(self.source@ =~= old(self).source@ + expr_bare(Expr::Await(*node)));
        Ok(())
    }

    /// `yield`, or `yield value`
    pub fn unparse_expr_yield(&mut self, node: &ExprYield) -> (r: Result<(), UnparseError>)
        ensures
            rendered_onto(
                *old(self),
                *final(self),
                r,
                expr_error(Expr::Yield(*node)),
                expr_bare(Expr::Yield(*node)), expr_bare_onto(old(self).source@, Expr::Yield(*node))),
        decreases *node, 3nat,
    {
        self.write_str("yield");
        if let Some(expr) = &node.value {
            self.write_str(" ");
            self.delimit_precedence(expr, PREC_TEST)?;
        }
        assert(self.source@ =~= old(self).source@ + expr_bare(Expr::Yield(*node)));
        Ok(())
    }

    /// `yield from value`
    pub fn unparse_expr_yield_from(&mut self, node: &ExprYieldFrom) -> (r: Result<
        (),
        UnparseError,
    >)
        ensures
            rendered_onto(
                *old(self),
                *final(self),
                r,
                expr_error(Expr::YieldFrom(*node)),
                expr_bare(Expr::YieldFrom(*node)), expr_bare_onto(old(self).source@, Expr::YieldFrom(*node))),
        decreases *node, 3nat,
    {
        self.write_str("yield from ");
        self.delimit_precedence(&node.value, PREC_TEST)?;
        assert(self.source@ =~= old(self).source@ + expr_bare(Expr::YieldFrom(*node)));
        Ok(())
    }

    /// `left < b <= c`: the left operand once, then each operator with its
    /// right operand, as one chain.
    pub fn unparse_expr_compare(&mut self, node: &ExprCompare) -> (r: Result<(), UnparseError>)
        ensures
            rendered_onto(
                *old(self),
                *final(self),
                r,
                expr_error(Expr::Compare(*node)),
                expr_bare(Expr::Compare(*node)), expr_bare_onto(old(self).source@, Expr::Compare(*node))),
        decreases *node, 3nat,
    {
        self.delimit_precedence(&node.left, PREC_BOR)?;
        self.unparse_comparisons(&node.comparisons)?;
        assert(self.source@ =~= old(self).source@ + expr_bare(Expr::Compare(*node)));
        Ok(())
    }

    /// `func(a, b, key=c, **d)`: the positional arguments, then the keyword
    /// arguments.
    pub fn unparse_expr_call(&mut self, node: &ExprCall) -> (r: Result<(), UnparseError>)
        ensures
            rendered_onto(
                *old(self),
                *final(self),
                r,
                expr_error(Expr::Call(*node)),
                expr_bare(Expr::Call(*node)), expr_bare_onto(old(self).source@, Expr::Call(*node))),
        decreases *node, 4nat,
    {
        self.delimit_precedence(&node.func, PREC_ATOM)?;
        self.write_str("(");
        let ghost positional = exprs_texts(node.args@, PREC_TEST as nat);
        let ghost named = keywords_texts(node.keywords@);
        self.unparse_exprs(&node.args, PREC_TEST, ", ")?;
        self.unparse_keyword_group(&node.keywords, node.args.len() > 0)?;
        self.write_str(")");
        proof {
            lemma_join_led(positional, named, ", "@);
            lemma_cat5(
                old(self).source@,
                expr_text(*node.func, PREC_ATOM as nat),
                "("@,
                join(positional, ", "@),
                led(positional.len() > 0, named, ", "@),
                ")"@,
            );
            lemma_cat2(
                expr_text(*node.func, PREC_ATOM as nat) + "("@,
                join(positional, ", "@),
                led(positional.len() > 0, named, ", "@),
            );
        }
        Ok(())
    }

    /// An interpolated value of a formatted string has no rendering.
    pub fn unparse_expr_formatted_value(&mut self, node: &ExprFormattedValue) -> (r: Result<
        (),
        UnparseError,
    >)
        ensures
            rendered_onto(
                *old(self),
                *final(self),
                r,
                expr_error(Expr::FormattedValue(*node)),
                expr_bare(Expr::FormattedValue(*node)), expr_bare_onto(old(self).source@, Expr::FormattedValue(*node))),
            r == Err::<(), UnparseError>(UnparseError::UnsupportedConstruct),
    {
        Err(UnparseError::UnsupportedConstruct)
    }

    /// A formatted string has no rendering.
    pub fn unparse_expr_joined_str(&mut self, node: &ExprJoinedStr) -> (r: Result<
        (),
        UnparseError,
    >)
        ensures
            rendered_onto(
                *old(self),
                *final(self),
                r,
                expr_error(Expr::JoinedStr(*node)),
                expr_bare(Expr::JoinedStr(*node)), expr_bare_onto(old(self).source@, Expr::JoinedStr(*node))),
            r == Err::<(), UnparseError>(UnparseError::UnsupportedConstruct),
    {
        Err(UnparseError::UnsupportedConstruct)
    }

    /// A literal, with `u` before a string of that kind.
    pub fn unparse_expr_constant(&mut self, node: &ExprConstant) -> (r: Result<(), UnparseError>)
        ensures
            rendered_onto(
                *old(self),
                *final(self),
                r,
                expr_error(Expr::Constant(*node)),
                expr_bare(Expr::Constant(*node)), expr_bare_onto(old(self).source@, Expr::Constant(*node))),
    {
        let is_str = match node.value {
            Constant::Str(_) => true,
            _ => false,
        };
        if is_unicode_kind(&node.kind) && is_str {
            self.write_str("u");
        }
        self._unparse_constant(&node.value)?;
        assert(self.source@ =~= old(self).source@ + expr_bare(Expr::Constant(*node)));
        Ok(())
    }

    /// `value.attr`, with a space before the dot after an integer literal.
    pub fn unparse_expr_attribute(&mut self, node: &ExprAttribute) -> (r: Result<
        (),
        UnparseError,
    >)
        ensures
            rendered_onto(
                *old(self),
                *final(self),
                r,
                expr_error(Expr::Attribute(*node)),
                expr_bare(Expr::Attribute(*node)), expr_bare_onto(old(self).source@, Expr::Attribute(*node))),
        decreases *node, 3nat,
    {
        self.delimit_precedence(&node.value, PREC_ATOM)?;
        if int_literal(&node.value) {
            self.write_str(" ");
        }
        self.write_str(".");
        self.write_str(node.attr.as_str());
        assert(self.source@ =~= old(self).source@ + expr_bare(Expr::Attribute(*node)));
        Ok(())
    }

    /// `value[slice]`; a tuple between the brackets stands without
    /// parentheses.
    pub fn unparse_expr_subscript(&mut self, node: &ExprSubscript) -> (r: Result<
        (),
        UnparseError,
    >)
        ensures
            rendered_onto(
                *old(self),
                *final(self),
                r,
                expr_error(Expr::Subscript(*node)),
                expr_bare(Expr::Subscript(*node)), expr_bare_onto(old(self).source@, Expr::Subscript(*node))),
        decreases *node, 3nat,
    {
        let level = match &*node.slice {
            Expr::Tuple(_) => PREC_TUPLE,
            _ => PREC_TEST,
        };
        self.delimit_precedence(&node.value, PREC_ATOM)?;
        self.write_str("[");
        self.delimit_precedence(&node.slice, level)?;
        self.write_str("]");
        assert(self.source@ =~= old(self).source@ + expr_bare(Expr::Subscript(*node)));
        Ok(())
    }

    /// `*value`
    pub fn unparse_expr_starred(&mut self, node: &ExprStarred) -> (r: Result<(), UnparseError>)
        ensures
            rendered_onto(
                *old(self),
                *final(self),
                r,
                expr_error(Expr::Starred(*node)),
                expr_bare(Expr::Starred(*node)), expr_bare_onto(old(self).source@, Expr::Starred(*node))),
        decreases *node, 3nat,
    {
        self.write_str("*");
        self.delimit_precedence(&node.value, PREC_BOR)?;
        assert(self.source@ =~= old(self).source@ + expr_bare(Expr::Starred(*node)));
        Ok(())
    }

    /// A name, as it is.
    pub fn unparse_expr_name(&mut self, node: &ExprName) -> (r: Result<(), UnparseError>)
        ensures
            rendered_onto(
                *old(self),
                *final(self),
                r,
                expr_error(Expr::Name(*node)),
                expr_bare(Expr::Name(*node)), expr_bare_onto(old(self).source@, Expr::Name(*node))),
    {
        self.write_str(node.id.as_str());
        Ok(())
    }

    /// `[a, b]`
    pub fn unparse_expr_list(&mut self, node: &ExprList) -> (r: Result<(), UnparseError>)
        ensures
            rendered_onto(
                *old(self),
                *final(self),
                r,
                expr_error(Expr::List(*node)),
                expr_bare(Expr::List(*node)), expr_bare_onto(old(self).source@, Expr::List(*node))),
        decreases *node, 3nat,
    {
        self.write_str("[");
        self.unparse_exprs(&node.elts, PREC_TEST, ", ")?;
        self.write_str("]");
        assert(self.source@ =~= old(self).source@ + expr_bare(Expr::List(*node)));
        Ok(())
    }

    /// `a, b`; `a,` for a single element; `()` without elements. The
    /// parentheses around a tuple with elements come from its place.
    pub fn unparse_expr_tuple(&mut self, node: &ExprTuple) -> (r: Result<(), UnparseError>)
        ensures
            rendered_onto(
                *old(self),
                *final(self),
                r,
                expr_error(Expr::Tuple(*node)),
                expr_bare(Expr::Tuple(*node)), expr_bare_onto(old(self).source@, Expr::Tuple(*node))),
        decreases *node, 3nat,
    {
        if node.elts.len() == 0 {
            self.write_str("()");
            assert(first_error(exprs_errors(node.elts@)) is None);
        } else {
            self.unparse_exprs(&node.elts, PREC_TEST, ", ")?;
            if node.elts.len() == 1 {
                self.write_str(",");
            }
            assert(self.source@ =~= old(self).source@ + expr_bare(Expr::Tuple(*node)));
        }
        Ok(())
    }

    /// `lower:upper:step`, each part and the second colon only where
    /// present.
    pub fn unparse_expr_slice(&mut self, node: &ExprSlice) -> (r: Result<(), UnparseError>)
        ensures
            rendered_onto(
                *old(self),
                *final(self),
                r,
                expr_error(Expr::Slice(*node)),
                expr_bare(Expr::Slice(*node)), expr_bare_onto(old(self).source@, Expr::Slice(*node))),
        decreases *node, 3nat,
    {
        self.unparse_slice_part(&node.lower, false)?;
        self.write_str(":");
        self.unparse_slice_part(&node.upper, false)?;
        self.unparse_slice_part(&node.step, true)?;
        proof {
            lemma_cat4(
                old(self).source@,
                slice_part_text(node.lower, false),
                ":"@,
                slice_part_text(node.upper, false),
                slice_part_text(node.step, true),
            );
        }
        Ok(())
    }
}

} // verus!
