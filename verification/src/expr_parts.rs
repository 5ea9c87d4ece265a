//! Rendering of what expressions are built from: operators, literals,
//! lists of expressions, keyword arguments, comprehension clauses and
//! parameter lists.

use crate::ast::{
    Arg, ArgWithDefault, Arguments, BoolOp, CmpOp, Comparison, Comprehension, Constant, DictItem,
    Expr, Keyword, Operator, UnaryOp,
};
use crate::error::{first_error, first_error_from, UnparseError};
use crate::expr_model::{
    arg_error, arg_text, arguments_error, arguments_parts, arguments_text, bool_op_text,
    compare_op_text, comprehension_error, comprehension_text, comprehensions_errors,
    comprehensions_texts, dict_item_error, dict_item_text, dict_items_errors, dict_items_texts,
    exprs_errors, exprs_texts, filters_texts, keyword_text, keywords_errors, keywords_texts,
    kwarg_parts, operator_text, param_error, param_text, params_errors, params_texts,
    posonly_marker, unary_op_text, vararg_parts, comparison_text, comparisons_errors,
    comparisons_texts, expr_error, expr_text, kwarg_error, lemma_arguments_text,
    slice_part_error, slice_part_text, vararg_error,
};
use crate::literal::{
    constant_error, constant_text, constants_errors, constants_texts, is_utf8, quote_bytes,
    quote_str,
};
use crate::precedence::{PREC_BOR, PREC_OR, PREC_TEST, PREC_TUPLE};
use crate::expr_output::{
    arg_onto, arguments_onto, comparison_onto, comparisons_onto_from, comprehension_onto,
    comprehensions_onto_from, constant_onto, constants_onto_from, dict_item_onto,
    dict_items_onto_from, exprs_onto_from, filters_onto_from, keyword_group_onto, keyword_onto,
    keywords_onto_from, kwarg_onto, param_group_onto, param_onto, params_onto_from,
    slice_part_onto, vararg_onto,
};
use crate::text::{lemma_cat5, lemma_concat_step, lemma_join_step, 
    concat, concat_upto, join, join_upto, led, lemma_cat2, lemma_cat6, lemma_cat_empty,
};
use crate::unparser::{rendered_onto, Unparser};
use vstd::prelude::*;

verus! {

/// The word of a short-circuit operator.
pub fn bool_op_str(op: &BoolOp) -> (s: &'static str)
    ensures
        s@ == bool_op_text(*op),
{
    match op {
        BoolOp::And => "and",
        BoolOp::Or => "or",
    }
}

/// The sign of a prefix operator.
pub fn unary_op_str(op: &UnaryOp) -> (s: &'static str)
    ensures
        s@ == unary_op_text(*op),
{
    match op {
        UnaryOp::Invert => "~",
        UnaryOp::Not => "not ",
        UnaryOp::UAdd => "+",
        UnaryOp::USub => "-",
    }
}

/// The sign or words of a comparison operator.
pub fn compare_op_str(op: &CmpOp) -> (s: &'static str)
    ensures
        s@ == compare_op_text(*op),
{
    match op {
        CmpOp::Eq => "==",
        CmpOp::NotEq => "!=",
        CmpOp::Lt => "<",
        CmpOp::LtE => "<=",
        CmpOp::Gt => ">",
        CmpOp::GtE => ">=",
        CmpOp::Is => "is",
        CmpOp::IsNot => "is not",
        CmpOp::In => "in",
        CmpOp::NotIn => "not in",
    }
}

/// Whether a parameter list has any part to write.
pub fn has_parameters(node: &Arguments) -> (any: bool)
    ensures
        any == (arguments_parts(*node).len() > 0),
{
    node.posonlyargs.len() > 0 || node.args.len() > 0 || node.vararg.is_some()
        || node.kwonlyargs.len() > 0 || node.kwarg.is_some()
}

impl Unparser {
    /// Writes the sign of a binary operator.
    pub fn unparse_operator(&mut self, node: &Operator)
        ensures
            final(self).source@ == old(self).source@ + operator_text(*node),
            final(self).indent == old(self).indent,
    {
        self.write_str(
            match node {
                Operator::Add => "+",
                Operator::Sub => "-",
                Operator::BitOr => "|",
                Operator::BitAnd => "&",
                Operator::BitXor => "^",
                Operator::Div => "/",
                Operator::FloorDiv => "//",
                Operator::LShift => "<<",
                Operator::MatMult => "@",
                Operator::Mod => "%",
                Operator::Pow => "**",
                Operator::RShift => ">>",
                Operator::Mult => "*",
            },
        )
    }

    /// Writes a constant: see `constant_text`. Fails on a byte string that
    /// is not valid UTF-8.
    pub fn _unparse_constant(&mut self, constant: &Constant) -> (r: Result<(), UnparseError>)
        ensures
            rendered_onto(
                *old(self),
                *final(self),
                r,
                constant_error(*constant),
                constant_text(*constant), constant_onto(old(self).source@, *constant)),
        decreases *constant,
    {
        match constant {
            Constant::Tuple(values) => {
                self.write_str("(");
                let ghost texts = constants_texts(values@);
                let ghost errs = constants_errors(values@);
                let mut i: usize = 0;
                while i < values.len()
                    invariant
                        i <= values.len(),
                        self.indent == old(self).indent,
                        *constant == Constant::Tuple(*values),
                        texts == constants_texts(values@),
                        errs == constants_errors(values@),
                        first_error(errs) == first_error_from(errs, i as nat),
                constants_onto_from(old(self).source@ + "("@, values@, 0) == constants_onto_from(self.source@, values@, i as nat),
                        self.source@ == old(self).source@ + "("@ + join_upto(
                            texts,
                            ", "@,
                            i as nat,
                        ),
                    decreases values.len() - i,
                {
                    if i > 0 {
                        self.write_str(", ");
                    }
                    self._unparse_constant(&values[i])?;
                    i += 1;
                    assert(self.source@ =~= old(self).source@ + "("@ + join_upto(
                        texts,
                        ", "@,
                        i as nat,
                    ));
                }
                if values.len() == 1 {
                    self.write_str(",");
                }
                self.write_str(")");
                assert(self.source@ =~= old(self).source@ + constant_text(*constant));
                Ok(())
            },
            Constant::Ellipsis => {
                self.write_str("...");
                Ok(())
            },
            Constant::Bool(value) => {
                if *value {
                    self.write_str("True");
                } else {
                    self.write_str("False");
                }
                Ok(())
            },
            Constant::Bytes(value) => {
                if !is_utf8(value) {
                    return Err(UnparseError::EncodingError);
                }
                let text = quote_bytes(value);
                self.write_str(text.as_str());
                Ok(())
            },
            Constant::Int(value) => {
                let text = value.to_decimal();
                self.write_str(text.as_str());
                Ok(())
            },
            Constant::Str(value) => {
                let text = quote_str(value.as_str());
                self.write_str(text.as_str());
                Ok(())
            },
            Constant::NoneValue => {
                self.write_str("None");
                Ok(())
            },
            Constant::Complex { re, im } => {
                match re {
                    Some(real_text) => {
                        self.write_str("(");
                        self.write_str(real_text.as_str());
                        self.write_str("+");
                        self.write_str(im.as_str());
                        self.write_str("j)");
                    },
                    None => {
                        self.write_str(im.as_str());
                        self.write_str("j");
                    },
                }
                assert(self.source@ =~= old(self).source@ + constant_text(*constant));
                Ok(())
            },
            Constant::Float(value) => {
                self.write_str(value.as_str());
                Ok(())
            },
        }
    }

    /// Writes a list of expressions, each at `level`, with `sep` between
    /// neighbours.
    pub fn unparse_exprs(&mut self, nodes: &Vec<Expr>, level: usize, sep: &str) -> (r: Result<
        (),
        UnparseError,
    >)
        ensures
            rendered_onto(
                *old(self),
                *final(self),
                r,
                first_error(exprs_errors(nodes@)),
                join(exprs_texts(nodes@, level as nat), sep@), exprs_onto_from(old(self).source@, nodes@, level as nat, sep@, 0)),
        decreases *nodes, 2nat,
    {
        let ghost texts = exprs_texts(nodes@, level as nat);
        let ghost errs = exprs_errors(nodes@);
        let mut i: usize = 0;
        while i < nodes.len()
            invariant
                i <= nodes.len(),
                self.indent == old(self).indent,
                texts == exprs_texts(nodes@, level as nat),
                errs == exprs_errors(nodes@),
                first_error(errs) == first_error_from(errs, i as nat),
                exprs_onto_from(old(self).source@, nodes@, level as nat, sep@, 0) == exprs_onto_from(self.source@, nodes@, level as nat, sep@, i as nat),
                self.source@ == old(self).source@ + join_upto(texts, sep@, i as nat),
            decreases nodes.len() - i,
        {
            if i > 0 {
                self.write_str(sep);
            }
            self.delimit_precedence(&nodes[i], level)?;
            i += 1;
            proof {
                lemma_join_step(old(self).source@, texts, sep@, (i - 1) as nat);
            }
        }
        Ok(())
    }

    /// Writes a keyword argument: `name=value`, or `**value`.
    pub fn unparse_keyword(&mut self, node: &Keyword) -> (r: Result<(), UnparseError>)
        ensures
            rendered_onto(*old(self), *final(self), r, expr_error(node.value), keyword_text(*node), keyword_onto(old(self).source@, *node)),
        decreases *node, 2nat,
    {
        if let Some(arg) = &node.arg {
            self.write_str(arg.as_str());
            self.write_str("=");
        } else {
            self.write_str("**");
        }
        self.delimit_precedence(&node.value, PREC_TEST)?;
        assert(self.source@ =~= old(self).source@ + keyword_text(*node));
        Ok(())
    }

    /// Writes a list of keyword arguments separated by commas.
    pub fn unparse_keywords(&mut self, nodes: &Vec<Keyword>) -> (r: Result<(), UnparseError>)
        ensures
            rendered_onto(
                *old(self),
                *final(self),
                r,
                first_error(keywords_errors(nodes@)),
                join(keywords_texts(nodes@), ", "@), keywords_onto_from(old(self).source@, nodes@, 0)),
        decreases *nodes, 3nat,
    {
        let ghost texts = keywords_texts(nodes@);
        let ghost errs = keywords_errors(nodes@);
        let mut i: usize = 0;
        while i < nodes.len()
            invariant
                i <= nodes.len(),
                self.indent == old(self).indent,
                texts == keywords_texts(nodes@),
                errs == keywords_errors(nodes@),
                first_error(errs) == first_error_from(errs, i as nat),
                keywords_onto_from(old(self).source@, nodes@, 0) == keywords_onto_from(self.source@, nodes@, i as nat),
                self.source@ == old(self).source@ + join_upto(texts, ", "@, i as nat),
            decreases nodes.len() - i,
        {
            if i > 0 {
                self.write_str(", ");
            }
            self.unparse_keyword(&nodes[i])?;
            i += 1;
            assert(self.source@ =~= old(self).source@ + join_upto(texts, ", "@, i as nat));
        }
        Ok(())
    }

    /// Writes the keyword arguments behind the positional ones: nothing
    /// where there are none, else a comma if `written` says that an
    /// argument stands before them, and the keyword arguments.
    pub fn unparse_keyword_group(&mut self, nodes: &Vec<Keyword>, written: bool) -> (r: Result<
        (),
        UnparseError,
    >)
        ensures
            rendered_onto(
                *old(self),
                *final(self),
                r,
                first_error(keywords_errors(nodes@)),
                led(written, keywords_texts(nodes@), ", "@), keyword_group_onto(old(self).source@, nodes@, written)),
        decreases *nodes, 4nat,
    {
        if nodes.len() > 0 {
            if written {
                self.write_str(", ");
                self.unparse_keywords(nodes)?;
                proof {
                    lemma_cat2(old(self).source@, ", "@, join(keywords_texts(nodes@), ", "@));
                }
            } else {
                self.unparse_keywords(nodes)?;
            }
        } else {
            proof {
                assert(first_error(keywords_errors(nodes@)) is None);
                lemma_cat_empty(old(self).source@);
            }
        }
        Ok(())
    }

    /// Writes an optional part of a slice: the expression, or nothing.
    pub fn unparse_slice_part(&mut self, node: &Option<Box<Expr>>, colon: bool) -> (r: Result<
        (),
        UnparseError,
    >)
        ensures
            rendered_onto(
                *old(self),
                *final(self),
                r,
                slice_part_error(*node),
                slice_part_text(*node, colon), slice_part_onto(old(self).source@, *node, colon)),
        decreases *node, 2nat,
    {
        match node {
            Some(part) => {
                if colon {
                    self.write_str(":");
                    self.delimit_precedence(part, PREC_TEST)?;
                    proof {
                        lemma_cat2(old(self).source@, ":"@, expr_text(**part, PREC_TEST as nat));
                    }
                } else {
                    self.delimit_precedence(part, PREC_TEST)?;
                }
            },
            None => {
                proof {
                    lemma_cat_empty(old(self).source@);
                }
            },
        }
        Ok(())
    }

    /// Writes an entry of a dict display: `key: value`, or `**value`.
    pub fn unparse_dict_item(&mut self, node: &DictItem) -> (r: Result<(), UnparseError>)
        ensures
            rendered_onto(*old(self), *final(self), r, dict_item_error(*node), dict_item_text(*node), dict_item_onto(old(self).source@, *node)),
        decreases *node, 2nat,
    {
        match &node.key {
            Some(key) => {
                self.delimit_precedence(key, PREC_TEST)?;
                self.write_str(": ");
                self.delimit_precedence(&node.value, PREC_TEST)?;
            },
            None => {
                self.write_str("**");
                self.delimit_precedence(&node.value, PREC_BOR)?;
            },
        }
        assert(self.source@ =~= old(self).source@ + dict_item_text(*node));
        Ok(())
    }

    /// Writes one step of a comparison chain.
    pub fn unparse_comparison(&mut self, node: &Comparison) -> (r: Result<(), UnparseError>)
        ensures
            rendered_onto(
                *old(self),
                *final(self),
                r,
                expr_error(node.comparator),
                comparison_text(*node), comparison_onto(old(self).source@, *node)),
        decreases *node, 2nat,
    {
        self.write_str(" ");
        self.write_str(compare_op_str(&node.op));
        self.write_str(" ");
        self.delimit_precedence(&node.comparator, PREC_BOR)?;
        assert(self.source@ =~= old(self).source@ + comparison_text(*node));
        Ok(())
    }

    /// Writes a clause of a comprehension with its filters.
    pub fn unparse_comprehension(&mut self, node: &Comprehension) -> (r: Result<(), UnparseError>)
        ensures
            rendered_onto(
                *old(self),
                *final(self),
                r,
                comprehension_error(*node),
                comprehension_text(*node), comprehension_onto(old(self).source@, *node)),
        decreases *node, 3nat,
    {
        if node.is_async {
            self.write_str(" async for ");
        } else {
            self.write_str(" for ");
        }
        self.delimit_precedence(&node.target, PREC_TUPLE)?;
        self.write_str(" in ");
        self.delimit_precedence(&node.iter, PREC_OR)?;
        self.unparse_filters(&node.ifs)?;
        proof {
            lemma_cat5(
                old(self).source@,
                if node.is_async {
                    " async for "@
                } else {
                    " for "@
                },
                expr_text(node.target, PREC_TUPLE as nat),
                " in "@,
                expr_text(node.iter, PREC_OR as nat),
                concat(filters_texts(node.ifs@)),
            );
        }
        Ok(())
    }

    /// Writes the clauses of a comprehension one after the other.
    pub fn unparse_comprehensions(&mut self, nodes: &Vec<Comprehension>) -> (r: Result<
        (),
        UnparseError,
    >)
        ensures
            rendered_onto(
                *old(self),
                *final(self),
                r,
                first_error(comprehensions_errors(nodes@)),
                concat(comprehensions_texts(nodes@)), comprehensions_onto_from(old(self).source@, nodes@, 0)),
        decreases *nodes, 4nat,
    {
        let ghost texts = comprehensions_texts(nodes@);
        let ghost errs = comprehensions_errors(nodes@);
        let mut i: usize = 0;
        while i < nodes.len()
            invariant
                i <= nodes.len(),
                self.indent == old(self).indent,
                texts == comprehensions_texts(nodes@),
                errs == comprehensions_errors(nodes@),
                first_error(errs) == first_error_from(errs, i as nat),
                comprehensions_onto_from(old(self).source@, nodes@, 0) == comprehensions_onto_from(self.source@, nodes@, i as nat),
                self.source@ == old(self).source@ + concat_upto(texts, i as nat),
            decreases nodes.len() - i,
        {
            self.unparse_comprehension(&nodes[i])?;
            i += 1;
            proof {
                lemma_concat_step(old(self).source@, texts, (i - 1) as nat);
            }
        }
        Ok(())
    }

    /// Writes a parameter name with its annotation.
    pub fn unparse_arg(&mut self, node: &Arg) -> (r: Result<(), UnparseError>)
        ensures
            rendered_onto(*old(self), *final(self), r, arg_error(*node), arg_text(*node), arg_onto(old(self).source@, *node)),
        decreases *node, 2nat,
    {
        self.write_str(node.arg.as_str());
        if let Some(annotation) = &node.annotation {
            self.write_str(": ");
            self.delimit_precedence(annotation, PREC_TEST)?;
        }
        assert(self.source@ =~= old(self).source@ + arg_text(*node));
        Ok(())
    }

    /// Writes a parameter with its default value.
    pub fn unparse_param(&mut self, node: &ArgWithDefault) -> (r: Result<(), UnparseError>)
        ensures
            rendered_onto(*old(self), *final(self), r, param_error(*node), param_text(*node), param_onto(old(self).source@, *node)),
        decreases *node, 3nat,
    {
        self.unparse_arg(&node.def)?;
        if let Some(default) = &node.default {
            self.write_str("=");
            self.delimit_precedence(default, PREC_TEST)?;
        }
        assert(self.source@ =~= old(self).source@ + param_text(*node));
        Ok(())
    }

    /// Writes a group of parameters separated by commas.
    pub fn unparse_params(&mut self, nodes: &Vec<ArgWithDefault>) -> (r: Result<(), UnparseError>)
        ensures
            rendered_onto(
                *old(self),
                *final(self),
                r,
                first_error(params_errors(nodes@)),
                join(params_texts(nodes@), ", "@), params_onto_from(old(self).source@, nodes@, 0)),
        decreases *nodes, 4nat,
    {
        let ghost texts = params_texts(nodes@);
        let ghost errs = params_errors(nodes@);
        let mut i: usize = 0;
        while i < nodes.len()
            invariant
                i <= nodes.len(),
                self.indent == old(self).indent,
                texts == params_texts(nodes@),
                errs == params_errors(nodes@),
                first_error(errs) == first_error_from(errs, i as nat),
                params_onto_from(old(self).source@, nodes@, 0) == params_onto_from(self.source@, nodes@, i as nat),
                self.source@ == old(self).source@ + join_upto(texts, ", "@, i as nat),
            decreases nodes.len() - i,
        {
            if i > 0 {
                self.write_str(", ");
            }
            self.unparse_param(&nodes[i])?;
            i += 1;
            assert(self.source@ =~= old(self).source@ + join_upto(texts, ", "@, i as nat));
        }
        Ok(())
    }

    /// Writes a group of parameters behind what is written of the list:
    /// nothing for an empty group, else a comma if `written` says that a
    /// part stands before it, and the group.
    pub fn unparse_param_group(&mut self, nodes: &Vec<ArgWithDefault>, written: bool) -> (r:
        Result<(), UnparseError>)
        ensures
            rendered_onto(
                *old(self),
                *final(self),
                r,
                first_error(params_errors(nodes@)),
                led(written, params_texts(nodes@), ", "@), param_group_onto(old(self).source@, nodes@, written)),
        decreases *nodes, 5nat,
    {
        if nodes.len() > 0 {
            if written {
                self.write_str(", ");
            }
            self.unparse_params(nodes)?;
            assert(self.source@ =~= old(self).source@ + led(
                written,
                params_texts(nodes@),
                ", "@,
            ));
        } else {
            assert(first_error(params_errors(nodes@)) is None);
            assert(self.source@ =~= old(self).source@ + led(
                written,
                params_texts(nodes@),
                ", "@,
            ));
        }
        Ok(())
    }

    /// Writes the marker `/` behind the positional-only parameters, where
    /// there are any.
    pub fn unparse_posonly_marker(&mut self, node: &Arguments)
        ensures
            final(self).source@ == old(self).source@ + led(true, posonly_marker(*node), ", "@),
            final(self).indent == old(self).indent,
    {
        if node.posonlyargs.len() > 0 {
            self.write_str(", ");
            self.write_str("/");
        }
        assert(self.source@ =~= old(self).source@ + led(true, posonly_marker(*node), ", "@));
    }

    /// Writes the `*` part of a parameter list behind what is written of
    /// it: see `vararg_parts`.
    pub fn unparse_vararg(&mut self, node: &Arguments, written: bool) -> (r: Result<
        (),
        UnparseError,
    >)
        ensures
            rendered_onto(
                *old(self),
                *final(self),
                r,
                vararg_error(*node),
                led(written, vararg_parts(*node), ", "@), vararg_onto(old(self).source@, *node, written)),
        decreases *node, 3nat,
    {
        match &node.vararg {
            Some(vararg) => {
                if written {
                    self.write_str(", ");
                }
                self.write_str("*");
                self.unparse_arg(vararg)?;
            },
            None => {
                if node.kwonlyargs.len() > 0 {
                    if written {
                        self.write_str(", ");
                    }
                    self.write_str("*");
                }
            },
        }
        assert(self.source@ =~= old(self).source@ + led(written, vararg_parts(*node), ", "@));
        Ok(())
    }

    /// Writes the `**name` part of a parameter list behind what is written
    /// of it.
    pub fn unparse_kwarg(&mut self, node: &Arguments, written: bool) -> (r: Result<
        (),
        UnparseError,
    >)
        ensures
            rendered_onto(
                *old(self),
                *final(self),
                r,
                kwarg_error(*node),
                led(written, kwarg_parts(*node), ", "@), kwarg_onto(old(self).source@, *node, written)),
        decreases *node, 3nat,
    {
        if let Some(kwarg) = &node.kwarg {
            if written {
                self.write_str(", ");
            }
            self.write_str("**");
            self.unparse_arg(kwarg)?;
        }
        assert(self.source@ =~= old(self).source@ + led(written, kwarg_parts(*node), ", "@));
        Ok(())
    }

    /// Writes a parameter list: the positional-only parameters and their
    /// marker `/`, the positional parameters, `*name` or a bare `*` before
    /// keyword-only parameters, these, and `**name`, separated by commas.
    #[verifier::rlimit(60)]
    pub fn unparse_arguments(&mut self, node: &Arguments) -> (r: Result<(), UnparseError>)
        ensures
            rendered_onto(*old(self), *final(self), r, arguments_error(*node), arguments_text(*node), arguments_onto(old(self).source@, *node)),
        decreases *node, 6nat,
    {
        self.unparse_param_group(&node.posonlyargs, false)?;
        self.unparse_posonly_marker(node);
        let written = node.posonlyargs.len() > 0;
        self.unparse_param_group(&node.args, written)?;
        let written = written || node.args.len() > 0;
        self.unparse_vararg(node, written)?;
        let written = written || node.vararg.is_some() || node.kwonlyargs.len() > 0;
        self.unparse_param_group(&node.kwonlyargs, written)?;
        self.unparse_kwarg(node, written)?;
        proof {
            lemma_arguments_text(*node);
            lemma_cat6(
                old(self).source@,
                led(false, params_texts(node.posonlyargs@), ", "@),
                led(true, posonly_marker(*node), ", "@),
                led(node.posonlyargs@.len() > 0, params_texts(node.args@), ", "@),
                led(node.posonlyargs@.len() > 0 || node.args@.len() > 0, vararg_parts(*node), ", "@),
                led(
                    node.posonlyargs@.len() > 0 || node.args@.len() > 0 || node.vararg is Some
                        || node.kwonlyargs@.len() > 0,
                    params_texts(node.kwonlyargs@),
                    ", "@,
                ),
                led(
                    node.posonlyargs@.len() > 0 || node.args@.len() > 0 || node.vararg is Some
                        || node.kwonlyargs@.len() > 0,
                    kwarg_parts(*node),
                    ", "@,
                ),
            );
        }
        Ok(())
    }

    /// Writes the entries of a dict display separated by commas.
    pub fn unparse_dict_items(&mut self, nodes: &Vec<DictItem>) -> (r: Result<(), UnparseError>)
        ensures
            rendered_onto(
                *old(self),
                *final(self),
                r,
                first_error(dict_items_errors(nodes@)),
                join(dict_items_texts(nodes@), ", "@), dict_items_onto_from(old(self).source@, nodes@, 0)),
        decreases *nodes, 3nat,
    {
        let ghost texts = dict_items_texts(nodes@);
        let ghost errs = dict_items_errors(nodes@);
        let mut i: usize = 0;
        while i < nodes.len()
            invariant
                i <= nodes.len(),
                self.indent == old(self).indent,
                texts == dict_items_texts(nodes@),
                errs == dict_items_errors(nodes@),
                first_error(errs) == first_error_from(errs, i as nat),
                dict_items_onto_from(old(self).source@, nodes@, 0) == dict_items_onto_from(self.source@, nodes@, i as nat),
                self.source@ == old(self).source@ + join_upto(texts, ", "@, i as nat),
            decreases nodes.len() - i,
        {
            if i > 0 {
                self.write_str(", ");
            }
            self.unparse_dict_item(&nodes[i])?;
            i += 1;
            assert(self.source@ =~= old(self).source@ + join_upto(texts, ", "@, i as nat));
        }
        Ok(())
    }

    /// Writes the steps of a comparison chain one after the other.
    pub fn unparse_comparisons(&mut self, nodes: &Vec<Comparison>) -> (r: Result<
        (),
        UnparseError,
    >)
        ensures
            rendered_onto(
                *old(self),
                *final(self),
                r,
                first_error(comparisons_errors(nodes@)),
                concat(comparisons_texts(nodes@)), comparisons_onto_from(old(self).source@, nodes@, 0)),
        decreases *nodes, 3nat,
    {
        let ghost texts = comparisons_texts(nodes@);
        let ghost errs = comparisons_errors(nodes@);
        let mut i: usize = 0;
        while i < nodes.len()
            invariant
                i <= nodes.len(),
                self.indent == old(self).indent,
                texts == comparisons_texts(nodes@),
                errs == comparisons_errors(nodes@),
                first_error(errs) == first_error_from(errs, i as nat),
                comparisons_onto_from(old(self).source@, nodes@, 0) == comparisons_onto_from(self.source@, nodes@, i as nat),
                self.source@ == old(self).source@ + concat_upto(texts, i as nat),
            decreases nodes.len() - i,
        {
            self.unparse_comparison(&nodes[i])?;
            i += 1;
            proof {
                lemma_concat_step(old(self).source@, texts, (i - 1) as nat);
            }
        }
        Ok(())
    }

    /// Writes the filters of a comprehension clause: ` if ` and the
    /// condition, for each.
    pub fn unparse_filters(&mut self, nodes: &Vec<Expr>) -> (r: Result<(), UnparseError>)
        ensures
            rendered_onto(
                *old(self),
                *final(self),
                r,
                first_error(exprs_errors(nodes@)),
                concat(filters_texts(nodes@)), filters_onto_from(old(self).source@, nodes@, 0)),
        decreases *nodes, 2nat,
    {
        let ghost texts = filters_texts(nodes@);
        let ghost errs = exprs_errors(nodes@);
        let mut i: usize = 0;
        while i < nodes.len()
            invariant
                i <= nodes.len(),
                self.indent == old(self).indent,
                texts == filters_texts(nodes@),
                errs == exprs_errors(nodes@),
                first_error(errs) == first_error_from(errs, i as nat),
                filters_onto_from(old(self).source@, nodes@, 0) == filters_onto_from(self.source@, nodes@, i as nat),
                self.source@ == old(self).source@ + concat_upto(texts, i as nat),
            decreases nodes.len() - i,
        {
            self.write_str(" if ");
            self.delimit_precedence(&nodes[i], PREC_OR)?;
            i += 1;
            proof {
                lemma_concat_step(old(self).source@, texts, (i - 1) as nat);
            }
        }
        Ok(())
    }
}

} // verus!
