//! Rendering of what statements are built from: optional parts, decorators,
//! type parameters, imported names, context managers and the headers of
//! compound statements.

use crate::ast::{Alias, Arguments, Expr, Keyword, TypeParam, WithItem, TypeParamParamSpec, TypeParamTypeVar, TypeParamTypeVarTuple};
use crate::error::{first_error, first_error_from, or_error, UnparseError};
use crate::expr_model::{expr_error, expr_text, exprs_errors, exprs_texts, keywords_texts, arguments_text};
use crate::literal::push_char;
use crate::precedence::PREC_TEST;
use crate::stmt_output::{
    class_head_onto, decorators_onto_from, for_head_onto, function_head_onto, optional_onto,
    targets_onto_from, type_param_onto, type_params_onto, type_params_onto_from,
    with_head_onto, with_item_onto, with_items_onto_from,
};
use crate::stmt_model::{
    alias_text, aliases_texts, class_head_error, class_head_text, decorators_texts, dots_text,
    for_head_text, function_head_error, function_head_text, module_text, names_texts,
    optional_expr_error, optional_expr_text, optional_name_text, targets_texts, type_param_error,
    type_param_text, type_params_errors, type_params_text, type_params_texts, with_head_text,
    with_item_error, with_item_text, with_items_errors, with_items_texts,
};
use crate::text::{
    concat, concat_upto, join, join_upto, lemma_cat2, lemma_cat3, lemma_cat5, lemma_cat7,
    lemma_cat9, lemma_cat_empty, lemma_join_led, line_start,
};
use crate::unparser::{rendered, rendered_onto, Unparser};
use vstd::prelude::*;

verus! {

impl Unparser {
    /// Starts a new line at the current depth.
    pub fn start_line(&mut self)
        ensures
            final(self).source@ == old(self).source@ + line_start(old(self).indent as nat),
            final(self).indent == old(self).indent,
    {
        self.fill("");
        proof {
            reveal_strlit("");
            assert(line_start(old(self).indent as nat) + ""@ =~= line_start(
                old(self).indent as nat,
            ));
        }
    }

    /// Writes an optional expression behind `prefix`, and nothing where
    /// there is none.
    pub fn unparse_optional(&mut self, prefix: &str, node: &Option<Box<Expr>>) -> (r: Result<
        (),
        UnparseError,
    >)
        ensures
            rendered_onto(
                *old(self),
                *final(self),
                r,
                optional_expr_error(*node),
                optional_expr_text(prefix@, *node), optional_onto(old(self).source@, prefix@, *node)),
    {
        match node {
            Some(inner) => {
                self.write_str(prefix);
                self.delimit_precedence(inner, PREC_TEST)?;
                proof {
                    lemma_cat2(old(self).source@, prefix@, expr_text(**inner, PREC_TEST as nat));
                }
            },
            None => {
                proof {
                    lemma_cat_empty(old(self).source@);
                }
            },
        }
        Ok(())
    }

    /// Writes an optional name or comment behind `prefix`, and nothing
    /// where there is none.
    pub fn unparse_optional_name(&mut self, prefix: &str, name: &Option<String>)
        ensures
            final(self).source@ == old(self).source@ + optional_name_text(prefix@, *name),
            final(self).indent == old(self).indent,
    {
        match name {
            Some(text) => {
                self.write_str(prefix);
                self.write_str(text.as_str());
                proof {
                    lemma_cat2(old(self).source@, prefix@, text@);
                }
            },
            None => {
                proof {
                    lemma_cat_empty(old(self).source@);
                }
            },
        }
    }

    /// Writes the name of the module of a `from` import, where there is
    /// one.
    pub fn unparse_module(&mut self, module: &Option<String>)
        ensures
            final(self).source@ == old(self).source@ + module_text(*module),
            final(self).indent == old(self).indent,
    {
        match module {
            Some(name) => {
                self.write_str(name.as_str());
            },
            None => {
                proof {
                    lemma_cat_empty(old(self).source@);
                }
            },
        }
    }

    /// Writes the dots of a relative import: one for each level.
    pub fn unparse_dots(&mut self, level: u32)
        ensures
            final(self).source@ == old(self).source@ + dots_text(level as nat),
            final(self).indent == old(self).indent,
    {
        let mut i: u32 = 0;
        assert(self.source@ =~= old(self).source@ + dots_text(0));
        while i < level
            invariant
                i <= level,
                self.indent == old(self).indent,
                self.source@ == old(self).source@ + dots_text(i as nat),
            decreases level - i,
        {
            push_char(&mut self.source, '.');
            i += 1;
            assert(self.source@ =~= old(self).source@ + dots_text(i as nat));
        }
    }

    /// Writes the decorators of a definition, each on a line of its own
    /// behind `@`.
    pub fn unparse_decorators(&mut self, nodes: &Vec<Expr>) -> (r: Result<(), UnparseError>)
        ensures
            rendered_onto(
                *old(self),
                *final(self),
                r,
                first_error(exprs_errors(nodes@)),
                concat(decorators_texts(nodes@, old(self).indent as nat)), decorators_onto_from(old(self).source@, nodes@, old(self).indent as nat, 0)),
    {
        let ghost texts = decorators_texts(nodes@, self.indent as nat);
        let ghost errs = exprs_errors(nodes@);
        let mut i: usize = 0;
        assert(self.source@ =~= old(self).source@ + concat_upto(texts, 0));
        while i < nodes.len()
            invariant
                i <= nodes.len(),
                self.indent == old(self).indent,
                texts == decorators_texts(nodes@, self.indent as nat),
                errs == exprs_errors(nodes@),
                first_error(errs) == first_error_from(errs, i as nat),
                decorators_onto_from(old(self).source@, nodes@, self.indent as nat, 0) == decorators_onto_from(self.source@, nodes@, self.indent as nat, i as nat),
                self.source@ == old(self).source@ + concat_upto(texts, i as nat),
            decreases nodes.len() - i,
        {
            let ghost before = self.source@;
            self.fill("@");
            self.delimit_precedence(&nodes[i], PREC_TEST)?;
            proof {
                lemma_cat2(
                    before,
                    line_start(self.indent as nat) + "@"@,
                    expr_text(nodes@[i as int], PREC_TEST as nat),
                );
                lemma_cat2(old(self).source@, concat_upto(texts, i as nat), texts[i as int]);
            }
            i += 1;
        }
        Ok(())
    }

    /// Writes a type parameter.
    pub fn unparse_type_param(&mut self, node: &TypeParam) -> (r: Result<(), UnparseError>)
        ensures
            rendered_onto(*old(self), *final(self), r, type_param_error(*node), type_param_text(*node), type_param_onto(old(self).source@, *node)),
    {
        match node {
            TypeParam::TypeVar(data) => self.unparse_type_param_type_var(data),
            TypeParam::ParamSpec(data) => self.unparse_type_param_param_spec(data),
            TypeParam::TypeVarTuple(data) => self.unparse_type_param_type_var_tuple(data),
        }
    }

    /// `Name`, or `Name: bound`
    pub fn unparse_type_param_type_var(&mut self, node: &TypeParamTypeVar) -> (r: Result<
        (),
        UnparseError,
    >)
        ensures
            rendered_onto(
                *old(self),
                *final(self),
                r,
                type_param_error(TypeParam::TypeVar(*node)),
                type_param_text(TypeParam::TypeVar(*node)), type_param_onto(old(self).source@, TypeParam::TypeVar(*node))),
    {
        self.write_str(node.name.as_str());
        self.unparse_optional(": ", &node.bound)?;
        proof {
            lemma_cat2(old(self).source@, node.name@, optional_expr_text(": "@, node.bound));
        }
        Ok(())
    }

    /// `**Name`
    pub fn unparse_type_param_param_spec(&mut self, node: &TypeParamParamSpec) -> (r: Result<
        (),
        UnparseError,
    >)
        ensures
            rendered_onto(
                *old(self),
                *final(self),
                r,
                type_param_error(TypeParam::ParamSpec(*node)),
                type_param_text(TypeParam::ParamSpec(*node)), type_param_onto(old(self).source@, TypeParam::ParamSpec(*node))),
    {
        self.write_str("**");
        self.write_str(node.name.as_str());
        proof {
            lemma_cat2(old(self).source@, "**"@, node.name@);
        }
        Ok(())
    }

    /// `*Name`
    pub fn unparse_type_param_type_var_tuple(&mut self, node: &TypeParamTypeVarTuple) -> (r:
        Result<(), UnparseError>)
        ensures
            rendered_onto(
                *old(self),
                *final(self),
                r,
                type_param_error(TypeParam::TypeVarTuple(*node)),
                type_param_text(TypeParam::TypeVarTuple(*node)), type_param_onto(old(self).source@, TypeParam::TypeVarTuple(*node))),
    {
        self.write_str("*");
        self.write_str(node.name.as_str());
        proof {
            lemma_cat2(old(self).source@, "*"@, node.name@);
        }
        Ok(())
    }

    /// Writes a list of type parameters separated by commas.
    pub fn unparse_type_param_list(&mut self, nodes: &Vec<TypeParam>) -> (r: Result<
        (),
        UnparseError,
    >)
        ensures
            rendered_onto(
                *old(self),
                *final(self),
                r,
                first_error(type_params_errors(nodes@)),
                join(type_params_texts(nodes@), ", "@), type_params_onto_from(old(self).source@, nodes@, 0)),
    {
        let ghost texts = type_params_texts(nodes@);
        let ghost errs = type_params_errors(nodes@);
        let mut i: usize = 0;
        assert(self.source@ =~= old(self).source@ + join_upto(texts, ", "@, 0));
        while i < nodes.len()
            invariant
                i <= nodes.len(),
                self.indent == old(self).indent,
                texts == type_params_texts(nodes@),
                errs == type_params_errors(nodes@),
                first_error(errs) == first_error_from(errs, i as nat),
                type_params_onto_from(old(self).source@, nodes@, 0) == type_params_onto_from(self.source@, nodes@, i as nat),
                self.source@ == old(self).source@ + join_upto(texts, ", "@, i as nat),
            decreases nodes.len() - i,
        {
            if i > 0 {
                self.write_str(", ");
            }
            self.unparse_type_param(&nodes[i])?;
            i += 1;
            assert(self.source@ =~= old(self).source@ + join_upto(texts, ", "@, i as nat));
        }
        Ok(())
    }

    /// Writes the type parameters of a definition in brackets, or nothing
    /// where there are none.
    pub fn unparse_type_params(&mut self, nodes: &Vec<TypeParam>) -> (r: Result<(), UnparseError>)
        ensures
            rendered_onto(
                *old(self),
                *final(self),
                r,
                first_error(type_params_errors(nodes@)),
                type_params_text(nodes@), type_params_onto(old(self).source@, nodes@)),
    {
        proof {
            reveal(type_params_text);
        }
        if nodes.len() > 0 {
            self.write_str("[");
            self.unparse_type_param_list(nodes)?;
            self.write_str("]");
            proof {
                lemma_cat3(
                    old(self).source@,
                    "["@,
                    join(type_params_texts(nodes@), ", "@),
                    "]"@,
                );
            }
        } else {
            proof {
                assert(first_error(type_params_errors(nodes@)) is None);
                lemma_cat_empty(old(self).source@);
            }
        }
        Ok(())
    }

    /// Writes an imported name: `name`, or `name as asname`.
    pub fn unparse_alias(&mut self, node: &Alias) -> (r: Result<(), UnparseError>)
        ensures
            rendered(*old(self), *final(self), r, None, alias_text(*node)),
    {
        self.write_str(node.name.as_str());
        self.unparse_optional_name(" as ", &node.asname);
        proof {
            lemma_cat2(old(self).source@, node.name@, optional_name_text(" as "@, node.asname));
        }
        Ok(())
    }

    /// Writes a list of imported names separated by commas.
    pub fn unparse_aliases(&mut self, nodes: &Vec<Alias>) -> (r: Result<(), UnparseError>)
        ensures
            rendered(*old(self), *final(self), r, None, join(aliases_texts(nodes@), ", "@)),
    {
        let ghost texts = aliases_texts(nodes@);
        let mut i: usize = 0;
        assert(self.source@ =~= old(self).source@ + join_upto(texts, ", "@, 0));
        while i < nodes.len()
            invariant
                i <= nodes.len(),
                self.indent == old(self).indent,
                texts == aliases_texts(nodes@),
                self.source@ == old(self).source@ + join_upto(texts, ", "@, i as nat),
            decreases nodes.len() - i,
        {
            if i > 0 {
                self.write_str(", ");
            }
            self.unparse_alias(&nodes[i])?;
            i += 1;
            assert(self.source@ =~= old(self).source@ + join_upto(texts, ", "@, i as nat));
        }
        Ok(())
    }

    /// Writes a list of names separated by commas.
    pub fn unparse_names(&mut self, nodes: &Vec<String>)
        ensures
            final(self).source@ == old(self).source@ + join(names_texts(nodes@), ", "@),
            final(self).indent == old(self).indent,
    {
        let ghost texts = names_texts(nodes@);
        let mut i: usize = 0;
        assert(self.source@ =~= old(self).source@ + join_upto(texts, ", "@, 0));
        while i < nodes.len()
            invariant
                i <= nodes.len(),
                self.indent == old(self).indent,
                texts == names_texts(nodes@),
                self.source@ == old(self).source@ + join_upto(texts, ", "@, i as nat),
            decreases nodes.len() - i,
        {
            if i > 0 {
                self.write_str(", ");
            }
            self.write_str(nodes[i].as_str());
            i += 1;
            assert(self.source@ =~= old(self).source@ + join_upto(texts, ", "@, i as nat));
        }
    }

    /// Writes the targets of an assignment, each followed by ` = `.
    pub fn unparse_targets(&mut self, nodes: &Vec<Expr>) -> (r: Result<(), UnparseError>)
        ensures
            rendered_onto(
                *old(self),
                *final(self),
                r,
                first_error(exprs_errors(nodes@)),
                concat(targets_texts(nodes@)), targets_onto_from(old(self).source@, nodes@, 0)),
    {
        let ghost texts = targets_texts(nodes@);
        let ghost errs = exprs_errors(nodes@);
        let mut i: usize = 0;
        assert(self.source@ =~= old(self).source@ + concat_upto(texts, 0));
        while i < nodes.len()
            invariant
                i <= nodes.len(),
                self.indent == old(self).indent,
                texts == targets_texts(nodes@),
                errs == exprs_errors(nodes@),
                first_error(errs) == first_error_from(errs, i as nat),
                targets_onto_from(old(self).source@, nodes@, 0) == targets_onto_from(self.source@, nodes@, i as nat),
                self.source@ == old(self).source@ + concat_upto(texts, i as nat),
            decreases nodes.len() - i,
        {
            let ghost before = self.source@;
            self.delimit_precedence(&nodes[i], PREC_TEST)?;
            self.write_str(" = ");
            proof {
                lemma_cat2(before, expr_text(nodes@[i as int], PREC_TEST as nat), " = "@);
                lemma_cat2(old(self).source@, concat_upto(texts, i as nat), texts[i as int]);
            }
            i += 1;
        }
        Ok(())
    }

    /// Writes a context manager: `context`, or `context as target`.
    pub fn unparse_withitem(&mut self, node: &WithItem) -> (r: Result<(), UnparseError>)
        ensures
            rendered_onto(*old(self), *final(self), r, with_item_error(*node), with_item_text(*node), with_item_onto(old(self).source@, *node)),
    {
        self.delimit_precedence(&node.context_expr, PREC_TEST)?;
        self.unparse_optional(" as ", &node.optional_vars)?;
        proof {
            lemma_cat2(
                old(self).source@,
                expr_text(node.context_expr, PREC_TEST as nat),
                optional_expr_text(" as "@, node.optional_vars),
            );
        }
        Ok(())
    }

    /// Writes the context managers of a `with` statement separated by
    /// commas.
    pub fn unparse_withitems(&mut self, nodes: &Vec<WithItem>) -> (r: Result<(), UnparseError>)
        ensures
            rendered_onto(
                *old(self),
                *final(self),
                r,
                first_error(with_items_errors(nodes@)),
                join(with_items_texts(nodes@), ", "@), with_items_onto_from(old(self).source@, nodes@, 0)),
    {
        let ghost texts = with_items_texts(nodes@);
        let ghost errs = with_items_errors(nodes@);
        let mut i: usize = 0;
        assert(self.source@ =~= old(self).source@ + join_upto(texts, ", "@, 0));
        while i < nodes.len()
            invariant
                i <= nodes.len(),
                self.indent == old(self).indent,
                texts == with_items_texts(nodes@),
                errs == with_items_errors(nodes@),
                first_error(errs) == first_error_from(errs, i as nat),
                with_items_onto_from(old(self).source@, nodes@, 0) == with_items_onto_from(self.source@, nodes@, i as nat),
                self.source@ == old(self).source@ + join_upto(texts, ", "@, i as nat),
            decreases nodes.len() - i,
        {
            if i > 0 {
                self.write_str(", ");
            }
            self.unparse_withitem(&nodes[i])?;
            i += 1;
            assert(self.source@ =~= old(self).source@ + join_upto(texts, ", "@, i as nat));
        }
        Ok(())
    }

    /// Writes the header of a `with` statement up to its colon.
    pub fn unparse_with_head(&mut self, keyword: &str, items: &Vec<WithItem>) -> (r: Result<
        (),
        UnparseError,
    >)
        ensures
            rendered_onto(
                *old(self),
                *final(self),
                r,
                first_error(with_items_errors(items@)),
                with_head_text(keyword@, items@, old(self).indent as nat), with_head_onto(old(self).source@, keyword@, items@, old(self).indent as nat)),
    {
        self.fill(keyword);
        self.unparse_withitems(items)?;
        self.write_str(":");
        proof {
            reveal(with_head_text);
            lemma_cat3(
                old(self).source@,
                line_start(old(self).indent as nat) + keyword@,
                join(with_items_texts(items@), ", "@),
                ":"@,
            );
        }
        Ok(())
    }

    /// Writes the header of a `for` statement up to its colon.
    pub fn unparse_for_head(&mut self, keyword: &str, target: &Expr, iter: &Expr) -> (r: Result<
        (),
        UnparseError,
    >)
        ensures
            rendered_onto(
                *old(self),
                *final(self),
                r,
                or_error(expr_error(*target), expr_error(*iter)),
                for_head_text(keyword@, *target, *iter, old(self).indent as nat), for_head_onto(old(self).source@, keyword@, *target, *iter, old(self).indent as nat)),
    {
        self.fill(keyword);
        self.delimit_precedence(target, PREC_TEST)?;
        self.write_str(" in ");
        self.delimit_precedence(iter, PREC_TEST)?;
        self.write_str(":");
        proof {
            reveal(for_head_text);
            lemma_cat5(
                old(self).source@,
                line_start(old(self).indent as nat) + keyword@,
                expr_text(*target, PREC_TEST as nat),
                " in "@,
                expr_text(*iter, PREC_TEST as nat),
                ":"@,
            );
        }
        Ok(())
    }

    /// Writes the header of a function definition up to its colon.
    pub fn unparse_function_head(
        &mut self,
        keyword: &str,
        decorators: &Vec<Expr>,
        name: &str,
        type_params: &Vec<TypeParam>,
        args: &Arguments,
        result_type: &Option<Box<Expr>>,
    ) -> (r: Result<(), UnparseError>)
        ensures
            rendered_onto(
                *old(self),
                *final(self),
                r,
                function_head_error(decorators@, type_params@, *args, *result_type),
                function_head_text(
                    keyword@,
                    decorators@,
                    name@,
                    type_params@,
                    *args,
                    *result_type,
                    old(self).indent as nat,
                ), function_head_onto(old(self).source@, keyword@, decorators@, name@, type_params@, *args, *result_type, old(self).indent as nat)),
    {
        self.unparse_decorators(decorators)?;
        self.fill(keyword);
        self.write_str(name);
        self.unparse_type_params(type_params)?;
        self.write_str("(");
        self.unparse_arguments(args)?;
        self.write_str(")");
        self.unparse_optional(" -> ", result_type)?;
        self.write_str(":");
        proof {
            reveal(function_head_text);
            lemma_cat9(
                old(self).source@,
                concat(decorators_texts(decorators@, old(self).indent as nat)),
                line_start(old(self).indent as nat) + keyword@,
                name@,
                type_params_text(type_params@),
                "("@,
                arguments_text(*args),
                ")"@,
                optional_expr_text(" -> "@, *result_type),
                ":"@,
            );
        }
        Ok(())
    }

    /// Writes the header of a class definition up to its colon.
    pub fn unparse_class_head(
        &mut self,
        decorators: &Vec<Expr>,
        name: &str,
        type_params: &Vec<TypeParam>,
        bases: &Vec<Expr>,
        keywords: &Vec<Keyword>,
    ) -> (r: Result<(), UnparseError>)
        ensures
            rendered_onto(
                *old(self),
                *final(self),
                r,
                class_head_error(decorators@, type_params@, bases@, keywords@),
                class_head_text(
                    decorators@,
                    name@,
                    type_params@,
                    bases@,
                    keywords@,
                    old(self).indent as nat,
                ), class_head_onto(old(self).source@, decorators@, name@, type_params@, bases@, keywords@, old(self).indent as nat)),
    {
        self.unparse_decorators(decorators)?;
        self.fill("class ");
        self.write_str(name);
        self.unparse_type_params(type_params)?;
        self.write_str("(");
        let ghost start = self.source@;
        let ghost positional = exprs_texts(bases@, PREC_TEST as nat);
        let ghost named = keywords_texts(keywords@);
        self.unparse_exprs(bases, PREC_TEST, ", ")?;
        if bases.len() > 0 && keywords.len() > 0 {
            self.write_str(", ");
        }
        self.unparse_keywords(keywords)?;
        proof {
            lemma_join_led(positional, named, ", "@);
            assert(self.source@ =~= start + join(positional + named, ", "@));
        }
        self.write_str("):");
        proof {
            reveal(class_head_text);
            lemma_cat7(
                old(self).source@,
                concat(decorators_texts(decorators@, old(self).indent as nat)),
                line_start(old(self).indent as nat) + "class "@,
                name@,
                type_params_text(type_params@),
                "("@,
                join(positional + named, ", "@),
                "):"@,
            );
        }
        Ok(())
    }
}

} // verus!
