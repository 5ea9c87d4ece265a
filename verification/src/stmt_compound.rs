//! Rendering of statements as a whole: the dispatcher, blocks and clauses,
//! and the statements that hold blocks.

use crate::ast::{
    ExceptHandler, ExceptHandlerExceptHandler, MatchCase, Stmt, StmtAsyncFor,
    StmtAsyncFunctionDef, StmtAsyncWith, StmtClassDef, StmtFor, StmtFunctionDef, StmtIf,
    StmtMatch, StmtTry, StmtTryStar, StmtWhile, StmtWith,
};
use crate::error::{first_error, first_error_from, UnparseError};
use crate::expr_model::expr_text;
use crate::pattern_model::{pattern_text, PATTERN_ANY};
use crate::precedence::PREC_TEST;
use crate::stmt_output::{
    block_onto, cases_onto_from, clause_onto, handler_onto, handlers_onto_from, if_tail_onto,
    match_case_onto, stmt_onto, stmts_onto_from,
};
use crate::stmt_model::{
    async_for_text, async_function_def_text, async_with_text, block_text, cases_errors,
    cases_texts, class_def_text, class_head_text, clause_text, for_head_text, for_text,
    function_def_text, function_head_text, handler_error, handler_keyword, handler_text,
    handlers_errors, handlers_texts, if_tail_error, if_tail_text, if_text, match_case_error,
    match_case_text, match_text, optional_expr_text, optional_name_text, stmt_error, stmt_text,
    stmts_errors, stmts_texts, suite_text, try_star_text, try_text, while_text, with_head_text,
    with_text,
};
use crate::text::{
    concat, concat_upto, lemma_cat2, lemma_cat3, lemma_cat4, lemma_cat5, lemma_cat_empty,
    line_start, nested,
};
use crate::unparser::{rendered_onto, Unparser};
use vstd::prelude::*;

verus! {

impl Unparser {
    /// Writes a statement on a new line at the current depth.
    pub fn unparse_stmt(&mut self, node: &Stmt) -> (r: Result<(), UnparseError>)
        ensures
            rendered_onto(
                *old(self),
                *final(self),
                r,
                stmt_error(*node),
                stmt_text(*node, old(self).indent as nat), stmt_onto(old(self).source@, *node, old(self).indent as nat)),
        decreases *node, 0nat,
    {
        match node {
            Stmt::FunctionDef(data) => self.unparse_stmt_function_def(data),
            Stmt::AsyncFunctionDef(data) => self.unparse_stmt_async_function_def(data),
            Stmt::ClassDef(data) => self.unparse_stmt_class_def(data),
            Stmt::Return(data) => self.unparse_stmt_return(data),
            Stmt::Delete(data) => self.unparse_stmt_delete(data),
            Stmt::Assign(data) => self.unparse_stmt_assign(data),
            Stmt::TypeAlias(data) => self.unparse_stmt_type_alias(data),
            Stmt::AugAssign(data) => self.unparse_stmt_aug_assign(data),
            Stmt::AnnAssign(data) => self.unparse_stmt_ann_assign(data),
            Stmt::For(data) => self.unparse_stmt_for(data),
            Stmt::AsyncFor(data) => self.unparse_stmt_async_for(data),
            Stmt::While(data) => self.unparse_stmt_while(data),
            Stmt::If(data) => self.unparse_stmt_if(data),
            Stmt::With(data) => self.unparse_stmt_with(data),
            Stmt::AsyncWith(data) => self.unparse_stmt_async_with(data),
            Stmt::Match(data) => self.unparse_stmt_match(data),
            Stmt::Raise(data) => self.unparse_stmt_raise(data),
            Stmt::Try(data) => self.unparse_stmt_try(data),
            Stmt::TryStar(data) => self.unparse_stmt_try_star(data),
            Stmt::Assert(data) => self.unparse_stmt_assert(data),
            Stmt::Import(data) => self.unparse_stmt_import(data),
            Stmt::ImportFrom(data) => self.unparse_stmt_import_from(data),
            Stmt::Global(data) => self.unparse_stmt_global(data),
            Stmt::Nonlocal(data) => self.unparse_stmt_nonlocal(data),
            Stmt::Expr(data) => self.unparse_stmt_expr(data),
            Stmt::Pass(data) => self.unparse_stmt_pass(data),
            Stmt::Break(data) => self.unparse_stmt_break(data),
            Stmt::Continue(data) => self.unparse_stmt_continue(data),
        }
    }

    /// Writes a list of statements at the current depth.
    pub fn unparse_stmts(&mut self, body: &Vec<Stmt>) -> (r: Result<(), UnparseError>)
        ensures
            rendered_onto(
                *old(self),
                *final(self),
                r,
                first_error(stmts_errors(body@)),
                suite_text(body@, old(self).indent as nat), stmts_onto_from(old(self).source@, body@, old(self).indent as nat, 0)),
        decreases *body, 1nat,
    {
        let ghost texts = stmts_texts(body@, self.indent as nat);
        let ghost errs = stmts_errors(body@);
        let mut i: usize = 0;
        proof {
            lemma_cat_empty(self.source@);
        }
        while i < body.len()
            invariant
                i <= body.len(),
                self.indent == old(self).indent,
                texts == stmts_texts(body@, self.indent as nat),
                errs == stmts_errors(body@),
                first_error(errs) == first_error_from(errs, i as nat),
                stmts_onto_from(old(self).source@, body@, self.indent as nat, 0) == stmts_onto_from(self.source@, body@, self.indent as nat, i as nat),
                self.source@ == old(self).source@ + concat_upto(texts, i as nat),
            decreases body.len() - i,
        {
            self.unparse_stmt(&body[i])?;
            proof {
                lemma_cat2(old(self).source@, concat_upto(texts, i as nat), texts[i as int]);
            }
            i += 1;
        }
        Ok(())
    }

    /// Writes the body of a compound statement: its statements one level
    /// deeper than the current depth, which is the same afterwards.
    pub fn block(&mut self, body: &Vec<Stmt>) -> (r: Result<(), UnparseError>)
        ensures
            rendered_onto(
                *old(self),
                *final(self),
                r,
                first_error(stmts_errors(body@)),
                block_text(body@, old(self).indent as nat), block_onto(old(self).source@, body@, old(self).indent as nat)),
        decreases *body, 2nat,
    {
        let outer = self.indent;
        if outer < usize::MAX {
            self.indent = outer + 1;
        }
        self.unparse_stmts(body)?;
        self.indent = outer;
        Ok(())
    }

    /// Writes a clause that is there only where it has statements: a line
    /// with `keyword` and the block.
    pub fn unparse_clause(&mut self, keyword: &str, body: &Vec<Stmt>) -> (r: Result<
        (),
        UnparseError,
    >)
        ensures
            rendered_onto(
                *old(self),
                *final(self),
                r,
                first_error(stmts_errors(body@)),
                clause_text(keyword@, body@, old(self).indent as nat), clause_onto(old(self).source@, keyword@, body@, old(self).indent as nat)),
        decreases *body, 3nat,
    {
        if body.len() > 0 {
            self.fill(keyword);
            self.block(body)?;
            proof {
                lemma_cat2(
                    old(self).source@,
                    line_start(old(self).indent as nat) + keyword@,
                    block_text(body@, old(self).indent as nat),
                );
            }
        } else {
            proof {
                assert(first_error(stmts_errors(body@)) is None);
                lemma_cat_empty(old(self).source@);
            }
        }
        Ok(())
    }

    /// Writes what follows the body of an `if` statement: `elif` for an
    /// alternative that is exactly one `if` statement, `else:` for any
    /// other that is not empty.
    pub fn unparse_if_tail(&mut self, orelse: &Vec<Stmt>) -> (r: Result<(), UnparseError>)
        ensures
            rendered_onto(
                *old(self),
                *final(self),
                r,
                if_tail_error(orelse@),
                if_tail_text(orelse@, old(self).indent as nat), if_tail_onto(old(self).source@, orelse@, old(self).indent as nat)),
        decreases *orelse, 4nat,
    {
        if orelse.len() == 1 {
            if let Stmt::If(inner) = &orelse[0] {
                self.fill("elif ");
                self.delimit_precedence(&inner.test, PREC_TEST)?;
                self.write_str(":");
                self.block(&inner.body)?;
                self.unparse_if_tail(&inner.orelse)?;
                proof {
                    lemma_cat5(
                        old(self).source@,
                        line_start(old(self).indent as nat) + "elif "@,
                        expr_text(*inner.test, PREC_TEST as nat),
                        ":"@,
                        block_text(inner.body@, old(self).indent as nat),
                        if_tail_text(inner.orelse@, old(self).indent as nat),
                    );
                }
                return Ok(());
            }
        }
        self.unparse_clause("else:", orelse)
    }

    /// `def name(parameters) -> annotation:` behind its decorators, and
    /// the body.
    pub fn unparse_stmt_function_def(&mut self, node: &StmtFunctionDef) -> (r: Result<
        (),
        UnparseError,
    >)
        ensures
            rendered_onto(
                *old(self),
                *final(self),
                r,
                stmt_error(Stmt::FunctionDef(*node)),
                stmt_text(Stmt::FunctionDef(*node), old(self).indent as nat), stmt_onto(old(self).source@, Stmt::FunctionDef(*node), old(self).indent as nat)),
        decreases *node, 5nat,
    {
        self.unparse_function_head(
            "def ",
            &node.decorator_list,
            node.name.as_str(),
            &node.type_params,
            &node.args,
            &node.returns,
        )?;
        self.block(&node.body)?;
        proof {
            lemma_cat2(
                old(self).source@,
                function_head_text(
                    "def "@,
                    node.decorator_list@,
                    node.name@,
                    node.type_params@,
                    *node.args,
                    node.returns,
                    old(self).indent as nat,
                ),
                block_text(node.body@, old(self).indent as nat),
            );
            assert(self.source@ == old(self).source@ + function_def_text(
                *node,
                old(self).indent as nat,
            ));
        }
        Ok(())
    }

    /// `async def name(parameters) -> annotation:` behind its decorators,
    /// and the body.
    pub fn unparse_stmt_async_function_def(&mut self, node: &StmtAsyncFunctionDef) -> (r: Result<
        (),
        UnparseError,
    >)
        ensures
            rendered_onto(
                *old(self),
                *final(self),
                r,
                stmt_error(Stmt::AsyncFunctionDef(*node)),
                stmt_text(Stmt::AsyncFunctionDef(*node), old(self).indent as nat), stmt_onto(old(self).source@, Stmt::AsyncFunctionDef(*node), old(self).indent as nat)),
        decreases *node, 5nat,
    {
        self.unparse_function_head(
            "async def ",
            &node.decorator_list,
            node.name.as_str(),
            &node.type_params,
            &node.args,
            &node.returns,
        )?;
        self.block(&node.body)?;
        proof {
            lemma_cat2(
                old(self).source@,
                function_head_text(
                    "async def "@,
                    node.decorator_list@,
                    node.name@,
                    node.type_params@,
                    *node.args,
                    node.returns,
                    old(self).indent as nat,
                ),
                block_text(node.body@, old(self).indent as nat),
            );
            assert(self.source@ == old(self).source@ + async_function_def_text(
                *node,
                old(self).indent as nat,
            ));
        }
        Ok(())
    }

    /// `class Name[T](bases, keyword=value):` behind its decorators, and
    /// the body.
    pub fn unparse_stmt_class_def(&mut self, node: &StmtClassDef) -> (r: Result<(), UnparseError>)
        ensures
            rendered_onto(
                *old(self),
                *final(self),
                r,
                stmt_error(Stmt::ClassDef(*node)),
                stmt_text(Stmt::ClassDef(*node), old(self).indent as nat), stmt_onto(old(self).source@, Stmt::ClassDef(*node), old(self).indent as nat)),
        decreases *node, 5nat,
    {
        self.unparse_class_head(
            &node.decorator_list,
            node.name.as_str(),
            &node.type_params,
            &node.bases,
            &node.keywords,
        )?;
        self.block(&node.body)?;
        proof {
            lemma_cat2(
                old(self).source@,
                class_head_text(
                    node.decorator_list@,
                    node.name@,
                    node.type_params@,
                    node.bases@,
                    node.keywords@,
                    old(self).indent as nat,
                ),
                block_text(node.body@, old(self).indent as nat),
            );
            assert(self.source@ == old(self).source@ + class_def_text(
                *node,
                old(self).indent as nat,
            ));
        }
        Ok(())
    }

    /// `for target in iter:` and the body, then `else:` and its block
    /// where it has statements.
    pub fn unparse_stmt_for(&mut self, node: &StmtFor) -> (r: Result<(), UnparseError>)
        ensures
            rendered_onto(
                *old(self),
                *final(self),
                r,
                stmt_error(Stmt::For(*node)),
                stmt_text(Stmt::For(*node), old(self).indent as nat), stmt_onto(old(self).source@, Stmt::For(*node), old(self).indent as nat)),
        decreases *node, 5nat,
    {
        self.unparse_for_head("for ", &node.target, &node.iter)?;
        self.block(&node.body)?;
        self.unparse_clause("else:", &node.orelse)?;
        proof {
            lemma_cat3(
                old(self).source@,
                for_head_text("for "@, *node.target, *node.iter, old(self).indent as nat),
                block_text(node.body@, old(self).indent as nat),
                clause_text("else:"@, node.orelse@, old(self).indent as nat),
            );
            assert(self.source@ == old(self).source@ + for_text(*node, old(self).indent as nat));
        }
        Ok(())
    }

    /// `async for target in iter:` and the body, then `else:` and its
    /// block where it has statements.
    pub fn unparse_stmt_async_for(&mut self, node: &StmtAsyncFor) -> (r: Result<(), UnparseError>)
        ensures
            rendered_onto(
                *old(self),
                *final(self),
                r,
                stmt_error(Stmt::AsyncFor(*node)),
                stmt_text(Stmt::AsyncFor(*node), old(self).indent as nat), stmt_onto(old(self).source@, Stmt::AsyncFor(*node), old(self).indent as nat)),
        decreases *node, 5nat,
    {
        self.unparse_for_head("async for ", &node.target, &node.iter)?;
        self.block(&node.body)?;
        self.unparse_clause("else:", &node.orelse)?;
        proof {
            lemma_cat3(
                old(self).source@,
                for_head_text("async for "@, *node.target, *node.iter, old(self).indent as nat),
                block_text(node.body@, old(self).indent as nat),
                clause_text("else:"@, node.orelse@, old(self).indent as nat),
            );
            assert(self.source@ == old(self).source@ + async_for_text(
                *node,
                old(self).indent as nat,
            ));
        }
        Ok(())
    }

    /// `while test:` and the body, then `else:` and its block where it has
    /// statements.
    pub fn unparse_stmt_while(&mut self, node: &StmtWhile) -> (r: Result<(), UnparseError>)
        ensures
            rendered_onto(
                *old(self),
                *final(self),
                r,
                stmt_error(Stmt::While(*node)),
                stmt_text(Stmt::While(*node), old(self).indent as nat), stmt_onto(old(self).source@, Stmt::While(*node), old(self).indent as nat)),
        decreases *node, 5nat,
    {
        self.fill("while ");
        self.delimit_precedence(&node.test, PREC_TEST)?;
        self.write_str(":");
        self.block(&node.body)?;
        self.unparse_clause("else:", &node.orelse)?;
        proof {
            lemma_cat5(
                old(self).source@,
                line_start(old(self).indent as nat) + "while "@,
                expr_text(*node.test, PREC_TEST as nat),
                ":"@,
                block_text(node.body@, old(self).indent as nat),
                clause_text("else:"@, node.orelse@, old(self).indent as nat),
            );
            assert(self.source@ == old(self).source@ + while_text(*node, old(self).indent as nat));
        }
        Ok(())
    }

    /// `if test:` and the body, then the alternative: see `unparse_if_tail`.
    pub fn unparse_stmt_if(&mut self, node: &StmtIf) -> (r: Result<(), UnparseError>)
        ensures
            rendered_onto(
                *old(self),
                *final(self),
                r,
                stmt_error(Stmt::If(*node)),
                stmt_text(Stmt::If(*node), old(self).indent as nat), stmt_onto(old(self).source@, Stmt::If(*node), old(self).indent as nat)),
        decreases *node, 5nat,
    {
        self.fill("if ");
        self.delimit_precedence(&node.test, PREC_TEST)?;
        self.write_str(":");
        self.block(&node.body)?;
        self.unparse_if_tail(&node.orelse)?;
        proof {
            lemma_cat5(
                old(self).source@,
                line_start(old(self).indent as nat) + "if "@,
                expr_text(*node.test, PREC_TEST as nat),
                ":"@,
                block_text(node.body@, old(self).indent as nat),
                if_tail_text(node.orelse@, old(self).indent as nat),
            );
            assert(self.source@ == old(self).source@ + if_text(*node, old(self).indent as nat));
        }
        Ok(())
    }

    /// `with a as b, c:` and the body.
    pub fn unparse_stmt_with(&mut self, node: &StmtWith) -> (r: Result<(), UnparseError>)
        ensures
            rendered_onto(
                *old(self),
                *final(self),
                r,
                stmt_error(Stmt::With(*node)),
                stmt_text(Stmt::With(*node), old(self).indent as nat), stmt_onto(old(self).source@, Stmt::With(*node), old(self).indent as nat)),
        decreases *node, 5nat,
    {
        self.unparse_with_head("with ", &node.items)?;
        self.block(&node.body)?;
        proof {
            lemma_cat2(
                old(self).source@,
                with_head_text("with "@, node.items@, old(self).indent as nat),
                block_text(node.body@, old(self).indent as nat),
            );
            assert(self.source@ == old(self).source@ + with_text(*node, old(self).indent as nat));
        }
        Ok(())
    }

    /// `async with a as b, c:` and the body.
    pub fn unparse_stmt_async_with(&mut self, node: &StmtAsyncWith) -> (r: Result<
        (),
        UnparseError,
    >)
        ensures
            rendered_onto(
                *old(self),
                *final(self),
                r,
                stmt_error(Stmt::AsyncWith(*node)),
                stmt_text(Stmt::AsyncWith(*node), old(self).indent as nat), stmt_onto(old(self).source@, Stmt::AsyncWith(*node), old(self).indent as nat)),
        decreases *node, 5nat,
    {
        self.unparse_with_head("async with ", &node.items)?;
        self.block(&node.body)?;
        proof {
            lemma_cat2(
                old(self).source@,
                with_head_text("async with "@, node.items@, old(self).indent as nat),
                block_text(node.body@, old(self).indent as nat),
            );
            assert(self.source@ == old(self).source@ + async_with_text(
                *node,
                old(self).indent as nat,
            ));
        }
        Ok(())
    }

    /// `case pattern if guard:` and the body.
    pub fn unparse_match_case(&mut self, node: &MatchCase) -> (r: Result<(), UnparseError>)
        ensures
            rendered_onto(
                *old(self),
                *final(self),
                r,
                match_case_error(*node),
                match_case_text(*node, old(self).indent as nat), match_case_onto(old(self).source@, *node, old(self).indent as nat)),
        decreases *node, 0nat,
    {
        self.fill("case ");
        self.delimit_pattern(&node.pattern, PATTERN_ANY)?;
        self.unparse_optional(" if ", &node.guard)?;
        self.write_str(":");
        self.block(&node.body)?;
        proof {
            lemma_cat5(
                old(self).source@,
                line_start(old(self).indent as nat) + "case "@,
                pattern_text(node.pattern, PATTERN_ANY as nat),
                optional_expr_text(" if "@, node.guard),
                ":"@,
                block_text(node.body@, old(self).indent as nat),
            );
        }
        Ok(())
    }

    /// Writes a list of `case` clauses at the current depth.
    pub fn unparse_cases(&mut self, cases: &Vec<MatchCase>) -> (r: Result<(), UnparseError>)
        ensures
            rendered_onto(
                *old(self),
                *final(self),
                r,
                first_error(cases_errors(cases@)),
                concat(cases_texts(cases@, old(self).indent as nat)), cases_onto_from(old(self).source@, cases@, old(self).indent as nat, 0)),
        decreases *cases, 1nat,
    {
        let ghost texts = cases_texts(cases@, self.indent as nat);
        let ghost errs = cases_errors(cases@);
        let mut i: usize = 0;
        proof {
            lemma_cat_empty(self.source@);
        }
        while i < cases.len()
            invariant
                i <= cases.len(),
                self.indent == old(self).indent,
                texts == cases_texts(cases@, self.indent as nat),
                errs == cases_errors(cases@),
                first_error(errs) == first_error_from(errs, i as nat),
                cases_onto_from(old(self).source@, cases@, self.indent as nat, 0) == cases_onto_from(self.source@, cases@, self.indent as nat, i as nat),
                self.source@ == old(self).source@ + concat_upto(texts, i as nat),
            decreases cases.len() - i,
        {
            self.unparse_match_case(&cases[i])?;
            proof {
                lemma_cat2(old(self).source@, concat_upto(texts, i as nat), texts[i as int]);
            }
            i += 1;
        }
        Ok(())
    }

    /// Writes the `case` clauses of a `match` statement one level deeper
    /// than the current depth, which is the same afterwards.
    pub fn block_cases(&mut self, cases: &Vec<MatchCase>) -> (r: Result<(), UnparseError>)
        ensures
            rendered_onto(
                *old(self),
                *final(self),
                r,
                first_error(cases_errors(cases@)),
                concat(cases_texts(cases@, nested(old(self).indent as nat))), cases_onto_from(old(self).source@, cases@, nested(old(self).indent as nat), 0)),
        decreases *cases, 2nat,
    {
        let outer = self.indent;
        if outer < usize::MAX {
            self.indent = outer + 1;
        }
        self.unparse_cases(cases)?;
        self.indent = outer;
        Ok(())
    }

    /// `match subject:` and the `case` clauses.
    pub fn unparse_stmt_match(&mut self, node: &StmtMatch) -> (r: Result<(), UnparseError>)
        ensures
            rendered_onto(
                *old(self),
                *final(self),
                r,
                stmt_error(Stmt::Match(*node)),
                stmt_text(Stmt::Match(*node), old(self).indent as nat), stmt_onto(old(self).source@, Stmt::Match(*node), old(self).indent as nat)),
        decreases *node, 5nat,
    {
        self.fill("match ");
        self.delimit_precedence(&node.subject, PREC_TEST)?;
        self.write_str(":");
        self.block_cases(&node.cases)?;
        proof {
            lemma_cat4(
                old(self).source@,
                line_start(old(self).indent as nat) + "match "@,
                expr_text(*node.subject, PREC_TEST as nat),
                ":"@,
                concat(cases_texts(node.cases@, nested(old(self).indent as nat))),
            );
            assert(self.source@ == old(self).source@ + match_text(*node, old(self).indent as nat));
        }
        Ok(())
    }

    /// Writes a handler clause; `star` tells whether it stands in a `try`
    /// statement for exception groups.
    pub fn unparse_excepthandler(&mut self, node: &ExceptHandler, star: bool) -> (r: Result<
        (),
        UnparseError,
    >)
        ensures
            rendered_onto(
                *old(self),
                *final(self),
                r,
                handler_error(*node),
                handler_text(*node, star, old(self).indent as nat), handler_onto(old(self).source@, *node, star, old(self).indent as nat)),
        decreases *node, 1nat,
    {
        match node {
            ExceptHandler::ExceptHandler(data) => self.unparse_excepthandler_except_handler(
                data,
                star,
            ),
        }
    }

    /// `except type as name:` and the body, with `except*` for exception
    /// groups.
    pub fn unparse_excepthandler_except_handler(
        &mut self,
        node: &ExceptHandlerExceptHandler,
        star: bool,
    ) -> (r: Result<(), UnparseError>)
        ensures
            rendered_onto(
                *old(self),
                *final(self),
                r,
                handler_error(ExceptHandler::ExceptHandler(*node)),
                handler_text(ExceptHandler::ExceptHandler(*node), star, old(self).indent as nat), handler_onto(old(self).source@, ExceptHandler::ExceptHandler(*node), star, old(self).indent as nat)),
        decreases *node, 0nat,
    {
        if star {
            self.fill("except*");
        } else {
            self.fill("except");
        }
        self.unparse_optional(" ", &node.type_)?;
        self.unparse_optional_name(" as ", &node.name);
        self.write_str(":");
        self.block(&node.body)?;
        proof {
            lemma_cat5(
                old(self).source@,
                line_start(old(self).indent as nat) + handler_keyword(star),
                optional_expr_text(" "@, node.type_),
                optional_name_text(" as "@, node.name),
                ":"@,
                block_text(node.body@, old(self).indent as nat),
            );
        }
        Ok(())
    }

    /// Writes the handler clauses of a `try` statement.
    pub fn unparse_handlers(&mut self, nodes: &Vec<ExceptHandler>, star: bool) -> (r: Result<
        (),
        UnparseError,
    >)
        ensures
            rendered_onto(
                *old(self),
                *final(self),
                r,
                first_error(handlers_errors(nodes@)),
                concat(handlers_texts(nodes@, star, old(self).indent as nat)), handlers_onto_from(old(self).source@, nodes@, star, old(self).indent as nat, 0)),
        decreases *nodes, 2nat,
    {
        let ghost texts = handlers_texts(nodes@, star, self.indent as nat);
        let ghost errs = handlers_errors(nodes@);
        let mut i: usize = 0;
        proof {
            lemma_cat_empty(self.source@);
        }
        while i < nodes.len()
            invariant
                i <= nodes.len(),
                self.indent == old(self).indent,
                texts == handlers_texts(nodes@, star, self.indent as nat),
                errs == handlers_errors(nodes@),
                first_error(errs) == first_error_from(errs, i as nat),
                handlers_onto_from(old(self).source@, nodes@, star, self.indent as nat, 0) == handlers_onto_from(self.source@, nodes@, star, self.indent as nat, i as nat),
                self.source@ == old(self).source@ + concat_upto(texts, i as nat),
            decreases nodes.len() - i,
        {
            self.unparse_excepthandler(&nodes[i], star)?;
            proof {
                lemma_cat2(old(self).source@, concat_upto(texts, i as nat), texts[i as int]);
            }
            i += 1;
        }
        Ok(())
    }

    /// `try:` and the body, the handlers, and the `else:` and `finally:`
    /// clauses where they have statements.
    pub fn unparse_stmt_try(&mut self, node: &StmtTry) -> (r: Result<(), UnparseError>)
        ensures
            rendered_onto(
                *old(self),
                *final(self),
                r,
                stmt_error(Stmt::Try(*node)),
                stmt_text(Stmt::Try(*node), old(self).indent as nat), stmt_onto(old(self).source@, Stmt::Try(*node), old(self).indent as nat)),
        decreases *node, 5nat,
    {
        self.fill("try:");
        self.block(&node.body)?;
        self.unparse_handlers(&node.handlers, false)?;
        self.unparse_clause("else:", &node.orelse)?;
        self.unparse_clause("finally:", &node.finalbody)?;
        proof {
            lemma_cat5(
                old(self).source@,
                line_start(old(self).indent as nat) + "try:"@,
                block_text(node.body@, old(self).indent as nat),
                concat(handlers_texts(node.handlers@, false, old(self).indent as nat)),
                clause_text("else:"@, node.orelse@, old(self).indent as nat),
                clause_text("finally:"@, node.finalbody@, old(self).indent as nat),
            );
            assert(self.source@ == old(self).source@ + try_text(*node, old(self).indent as nat));
        }
        Ok(())
    }

    /// The same for exception groups: the handlers start with `except*`.
    pub fn unparse_stmt_try_star(&mut self, node: &StmtTryStar) -> (r: Result<(), UnparseError>)
        ensures
            rendered_onto(
                *old(self),
                *final(self),
                r,
                stmt_error(Stmt::TryStar(*node)),
                stmt_text(Stmt::TryStar(*node), old(self).indent as nat), stmt_onto(old(self).source@, Stmt::TryStar(*node), old(self).indent as nat)),
        decreases *node, 5nat,
    {
        self.fill("try:");
        self.block(&node.body)?;
        self.unparse_handlers(&node.handlers, true)?;
        self.unparse_clause("else:", &node.orelse)?;
        self.unparse_clause("finally:", &node.finalbody)?;
        proof {
            lemma_cat5(
                old(self).source@,
                line_start(old(self).indent as nat) + "try:"@,
                block_text(node.body@, old(self).indent as nat),
                concat(handlers_texts(node.handlers@, true, old(self).indent as nat)),
                clause_text("else:"@, node.orelse@, old(self).indent as nat),
                clause_text("finally:"@, node.finalbody@, old(self).indent as nat),
            );
            assert(self.source@ == old(self).source@ + try_star_text(
                *node,
                old(self).indent as nat,
            ));
        }
        Ok(())
    }
}

/// Renders a list of statements as the text of a module.
///
/// Succeeds exactly when no statement fails, with the text of the
/// statements one after the other, each on new lines at depth zero;
/// otherwise fails with the failure of the first statement that fails.
pub fn render(body: &Vec<Stmt>) -> (r: Result<String, UnparseError>)
    ensures
        match r {
            Ok(text) => first_error(stmts_errors(body@)) is None && text@ == suite_text(body@, 0),
            Err(e) => first_error(stmts_errors(body@)) == Some(e),
        },
{
    let mut unparser = Unparser::new();
    match unparser.unparse_stmts(body) {
        Ok(()) => {
            assert(unparser.source@ =~= suite_text(body@, 0));
            Ok(unparser.source)
        },
        Err(e) => Err(e),
    }
}

} // verus!
