//! Rendering of the statements that hold no block.

use crate::ast::{
    Expr, Stmt, StmtAnnAssign, StmtAssert, StmtAssign, StmtAugAssign, StmtBreak, StmtContinue,
    StmtDelete, StmtExpr, StmtGlobal, StmtImport, StmtImportFrom, StmtNonlocal, StmtPass,
    StmtRaise, StmtReturn, StmtTypeAlias,
};
use crate::error::UnparseError;
use crate::expr_model::{expr_text, exprs_texts, operator_text};
use crate::precedence::PREC_TEST;
use crate::stmt_output::{annotated_target_onto, stmt_onto};
use crate::stmt_model::{
    aliases_texts, ann_assign_text, assert_text, assign_text, aug_assign_text, delete_text,
    dots_text, expr_stmt_text, global_text, import_from_text, import_level, import_text,
    module_text, names_texts, nonlocal_text, optional_expr_text, optional_name_text, raise_text,
    return_text, stmt_error, stmt_text, targets_texts, type_alias_text, type_params_text,
};
use crate::text::{
    concat, delimited, join, lemma_cat2, lemma_cat3, lemma_cat4, lemma_cat5, lemma_cat6,
    line_start,
};
use crate::unparser::{rendered_onto, Unparser};
use vstd::prelude::*;

verus! {

impl Unparser {
    /// `return`, or `return value`
    pub fn unparse_stmt_return(&mut self, node: &StmtReturn) -> (r: Result<(), UnparseError>)
        ensures
            rendered_onto(
                *old(self),
                *final(self),
                r,
                stmt_error(Stmt::Return(*node)),
                stmt_text(Stmt::Return(*node), old(self).indent as nat), stmt_onto(old(self).source@, Stmt::Return(*node), old(self).indent as nat)),
    {
        self.fill("return");
        self.unparse_optional(" ", &node.value)?;
        proof {
            reveal(return_text);
            lemma_cat2(
                old(self).source@,
                line_start(old(self).indent as nat) + "return"@,
                optional_expr_text(" "@, node.value),
            );
        }
        Ok(())
    }

    /// `del a, b`
    pub fn unparse_stmt_delete(&mut self, node: &StmtDelete) -> (r: Result<(), UnparseError>)
        ensures
            rendered_onto(
                *old(self),
                *final(self),
                r,
                stmt_error(Stmt::Delete(*node)),
                stmt_text(Stmt::Delete(*node), old(self).indent as nat), stmt_onto(old(self).source@, Stmt::Delete(*node), old(self).indent as nat)),
    {
        self.fill("del ");
        self.unparse_exprs(&node.targets, PREC_TEST, ", ")?;
        proof {
            reveal(delete_text);
            lemma_cat2(
                old(self).source@,
                line_start(old(self).indent as nat) + "del "@,
                join(exprs_texts(node.targets@, PREC_TEST as nat), ", "@),
            );
        }
        Ok(())
    }

    /// `a = b = value`, with the type comment behind it if there is one.
    pub fn unparse_stmt_assign(&mut self, node: &StmtAssign) -> (r: Result<(), UnparseError>)
        ensures
            rendered_onto(
                *old(self),
                *final(self),
                r,
                stmt_error(Stmt::Assign(*node)),
                stmt_text(Stmt::Assign(*node), old(self).indent as nat), stmt_onto(old(self).source@, Stmt::Assign(*node), old(self).indent as nat)),
    {
        self.start_line();
        self.unparse_targets(&node.targets)?;
        self.delimit_precedence(&node.value, PREC_TEST)?;
        self.unparse_optional_name(" # type: ", &node.type_comment);
        proof {
            reveal(assign_text);
            lemma_cat4(
                old(self).source@,
                line_start(old(self).indent as nat),
                concat(targets_texts(node.targets@)),
                expr_text(*node.value, PREC_TEST as nat),
                optional_name_text(" # type: "@, node.type_comment),
            );
        }
        Ok(())
    }

    /// `type Name[T] = value`
    pub fn unparse_stmt_type_alias(&mut self, node: &StmtTypeAlias) -> (r: Result<
        (),
        UnparseError,
    >)
        ensures
            rendered_onto(
                *old(self),
                *final(self),
                r,
                stmt_error(Stmt::TypeAlias(*node)),
                stmt_text(Stmt::TypeAlias(*node), old(self).indent as nat), stmt_onto(old(self).source@, Stmt::TypeAlias(*node), old(self).indent as nat)),
    {
        self.fill("type ");
        self.delimit_precedence(&node.name, PREC_TEST)?;
        self.unparse_type_params(&node.type_params)?;
        self.write_str(" = ");
        self.delimit_precedence(&node.value, PREC_TEST)?;
        proof {
            reveal(type_alias_text);
            lemma_cat5(
                old(self).source@,
                line_start(old(self).indent as nat) + "type "@,
                expr_text(*node.name, PREC_TEST as nat),
                type_params_text(node.type_params@),
                " = "@,
                expr_text(*node.value, PREC_TEST as nat),
            );
        }
        Ok(())
    }

    /// `target op= value`
    pub fn unparse_stmt_aug_assign(&mut self, node: &StmtAugAssign) -> (r: Result<
        (),
        UnparseError,
    >)
        ensures
            rendered_onto(
                *old(self),
                *final(self),
                r,
                stmt_error(Stmt::AugAssign(*node)),
                stmt_text(Stmt::AugAssign(*node), old(self).indent as nat), stmt_onto(old(self).source@, Stmt::AugAssign(*node), old(self).indent as nat)),
    {
        self.start_line();
        self.delimit_precedence(&node.target, PREC_TEST)?;
        self.write_str(" ");
        self.unparse_operator(&node.op);
        self.write_str("= ");
        self.delimit_precedence(&node.value, PREC_TEST)?;
        proof {
            reveal(aug_assign_text);
            lemma_cat6(
                old(self).source@,
                line_start(old(self).indent as nat),
                expr_text(*node.target, PREC_TEST as nat),
                " "@,
                operator_text(node.op),
                "= "@,
                expr_text(*node.value, PREC_TEST as nat),
            );
        }
        Ok(())
    }

    /// Writes the target of an annotated assignment: in parentheses if
    /// `delimit` says so.
    pub fn unparse_annotated_target(&mut self, target: &Expr, delimit: bool) -> (r: Result<
        (),
        UnparseError,
    >)
        ensures
            rendered_onto(
                *old(self),
                *final(self),
                r,
                crate::expr_model::expr_error(*target),
                delimited(delimit, expr_text(*target, PREC_TEST as nat)), annotated_target_onto(old(self).source@, *target, delimit)),
    {
        if delimit {
            self.write_str("(");
            self.delimit_precedence(target, PREC_TEST)?;
            self.write_str(")");
            proof {
                lemma_cat3(old(self).source@, "("@, expr_text(*target, PREC_TEST as nat), ")"@);
            }
        } else {
            self.delimit_precedence(target, PREC_TEST)?;
        }
        Ok(())
    }

    /// `target: annotation`, or `target: annotation = value`; a name that
    /// is not a simple target stands in parentheses.
    pub fn unparse_stmt_ann_assign(&mut self, node: &StmtAnnAssign) -> (r: Result<
        (),
        UnparseError,
    >)
        ensures
            rendered_onto(
                *old(self),
                *final(self),
                r,
                stmt_error(Stmt::AnnAssign(*node)),
                stmt_text(Stmt::AnnAssign(*node), old(self).indent as nat), stmt_onto(old(self).source@, Stmt::AnnAssign(*node), old(self).indent as nat)),
    {
        let is_name = match &*node.target {
            Expr::Name(_) => true,
            _ => false,
        };
        let delimit = !node.simple && is_name;
        self.start_line();
        self.unparse_annotated_target(&node.target, delimit)?;
        self.write_str(": ");
        self.delimit_precedence(&node.annotation, PREC_TEST)?;
        self.unparse_optional(" = ", &node.value)?;
        proof {
            reveal(ann_assign_text);
            lemma_cat5(
                old(self).source@,
                line_start(old(self).indent as nat),
                delimited(delimit, expr_text(*node.target, PREC_TEST as nat)),
                ": "@,
                expr_text(*node.annotation, PREC_TEST as nat),
                optional_expr_text(" = "@, node.value),
            );
        }
        Ok(())
    }

    /// `raise`, `raise exc`, or `raise exc from cause`
    pub fn unparse_stmt_raise(&mut self, node: &StmtRaise) -> (r: Result<(), UnparseError>)
        ensures
            rendered_onto(
                *old(self),
                *final(self),
                r,
                stmt_error(Stmt::Raise(*node)),
                stmt_text(Stmt::Raise(*node), old(self).indent as nat), stmt_onto(old(self).source@, Stmt::Raise(*node), old(self).indent as nat)),
    {
        self.fill("raise");
        self.unparse_optional(" ", &node.exc)?;
        self.unparse_optional(" from ", &node.cause)?;
        proof {
            reveal(raise_text);
            lemma_cat3(
                old(self).source@,
                line_start(old(self).indent as nat) + "raise"@,
                optional_expr_text(" "@, node.exc),
                optional_expr_text(" from "@, node.cause),
            );
        }
        Ok(())
    }

    /// `assert test`, or `assert test, msg`
    pub fn unparse_stmt_assert(&mut self, node: &StmtAssert) -> (r: Result<(), UnparseError>)
        ensures
            rendered_onto(
                *old(self),
                *final(self),
                r,
                stmt_error(Stmt::Assert(*node)),
                stmt_text(Stmt::Assert(*node), old(self).indent as nat), stmt_onto(old(self).source@, Stmt::Assert(*node), old(self).indent as nat)),
    {
        self.fill("assert ");
        self.delimit_precedence(&node.test, PREC_TEST)?;
        self.unparse_optional(", ", &node.msg)?;
        proof {
            reveal(assert_text);
            lemma_cat3(
                old(self).source@,
                line_start(old(self).indent as nat) + "assert "@,
                expr_text(*node.test, PREC_TEST as nat),
                optional_expr_text(", "@, node.msg),
            );
        }
        Ok(())
    }

    /// `import a, b as c`
    pub fn unparse_stmt_import(&mut self, node: &StmtImport) -> (r: Result<(), UnparseError>)
        ensures
            rendered_onto(
                *old(self),
                *final(self),
                r,
                stmt_error(Stmt::Import(*node)),
                stmt_text(Stmt::Import(*node), old(self).indent as nat), stmt_onto(old(self).source@, Stmt::Import(*node), old(self).indent as nat)),
    {
        self.fill("import ");
        self.unparse_aliases(&node.names)?;
        proof {
            reveal(import_text);
            lemma_cat2(
                old(self).source@,
                line_start(old(self).indent as nat) + "import "@,
                join(aliases_texts(node.names@), ", "@),
            );
        }
        Ok(())
    }

    /// `from ..module import a, b as c`: as many dots as the level says.
    pub fn unparse_stmt_import_from(&mut self, node: &StmtImportFrom) -> (r: Result<
        (),
        UnparseError,
    >)
        ensures
            rendered_onto(
                *old(self),
                *final(self),
                r,
                stmt_error(Stmt::ImportFrom(*node)),
                stmt_text(Stmt::ImportFrom(*node), old(self).indent as nat), stmt_onto(old(self).source@, Stmt::ImportFrom(*node), old(self).indent as nat)),
    {
        self.fill("from ");
        let level = match node.level {
            Some(level) => level,
            None => 0,
        };
        self.unparse_dots(level);
        self.unparse_module(&node.module);
        self.write_str(" import ");
        self.unparse_aliases(&node.names)?;
        proof {
            reveal(import_from_text);
            lemma_cat5(
                old(self).source@,
                line_start(old(self).indent as nat) + "from "@,
                dots_text(import_level(node.level)),
                module_text(node.module),
                " import "@,
                join(aliases_texts(node.names@), ", "@),
            );
        }
        Ok(())
    }

    /// `global a, b`
    pub fn unparse_stmt_global(&mut self, node: &StmtGlobal) -> (r: Result<(), UnparseError>)
        ensures
            rendered_onto(
                *old(self),
                *final(self),
                r,
                stmt_error(Stmt::Global(*node)),
                stmt_text(Stmt::Global(*node), old(self).indent as nat), stmt_onto(old(self).source@, Stmt::Global(*node), old(self).indent as nat)),
    {
        self.fill("global ");
        self.unparse_names(&node.names);
        proof {
            reveal(global_text);
            lemma_cat2(
                old(self).source@,
                line_start(old(self).indent as nat) + "global "@,
                join(names_texts(node.names@), ", "@),
            );
        }
        Ok(())
    }

    /// `nonlocal a, b`
    pub fn unparse_stmt_nonlocal(&mut self, node: &StmtNonlocal) -> (r: Result<(), UnparseError>)
        ensures
            rendered_onto(
                *old(self),
                *final(self),
                r,
                stmt_error(Stmt::Nonlocal(*node)),
                stmt_text(Stmt::Nonlocal(*node), old(self).indent as nat), stmt_onto(old(self).source@, Stmt::Nonlocal(*node), old(self).indent as nat)),
    {
        self.fill("nonlocal ");
        self.unparse_names(&node.names);
        proof {
            reveal(nonlocal_text);
            lemma_cat2(
                old(self).source@,
                line_start(old(self).indent as nat) + "nonlocal "@,
                join(names_texts(node.names@), ", "@),
            );
        }
        Ok(())
    }

    /// An expression on a line of its own.
    pub fn unparse_stmt_expr(&mut self, node: &StmtExpr) -> (r: Result<(), UnparseError>)
        ensures
            rendered_onto(
                *old(self),
                *final(self),
                r,
                stmt_error(Stmt::Expr(*node)),
                stmt_text(Stmt::Expr(*node), old(self).indent as nat), stmt_onto(old(self).source@, Stmt::Expr(*node), old(self).indent as nat)),
    {
        self.start_line();
        self.delimit_precedence(&node.value, PREC_TEST)?;
        proof {
            reveal(expr_stmt_text);
            lemma_cat2(
                old(self).source@,
                line_start(old(self).indent as nat),
                expr_text(*node.value, PREC_TEST as nat),
            );
        }
        Ok(())
    }

    /// `pass`
    pub fn unparse_stmt_pass(&mut self, _node: &StmtPass) -> (r: Result<(), UnparseError>)
        ensures
            rendered_onto(
                *old(self),
                *final(self),
                r,
                stmt_error(Stmt::Pass(*_node)),
                stmt_text(Stmt::Pass(*_node), old(self).indent as nat), stmt_onto(old(self).source@, Stmt::Pass(*_node), old(self).indent as nat)),
    {
        self.fill("pass");
        Ok(())
    }

    /// `break`
    pub fn unparse_stmt_break(&mut self, _node: &StmtBreak) -> (r: Result<(), UnparseError>)
        ensures
            rendered_onto(
                *old(self),
                *final(self),
                r,
                stmt_error(Stmt::Break(*_node)),
                stmt_text(Stmt::Break(*_node), old(self).indent as nat), stmt_onto(old(self).source@, Stmt::Break(*_node), old(self).indent as nat)),
    {
        self.fill("break");
        Ok(())
    }

    /// `continue`
    pub fn unparse_stmt_continue(&mut self, _node: &StmtContinue) -> (r: Result<(), UnparseError>)
        ensures
            rendered_onto(
                *old(self),
                *final(self),
                r,
                stmt_error(Stmt::Continue(*_node)),
                stmt_text(Stmt::Continue(*_node), old(self).indent as nat), stmt_onto(old(self).source@, Stmt::Continue(*_node), old(self).indent as nat)),
    {
        self.fill("continue");
        Ok(())
    }
}

} // verus!
