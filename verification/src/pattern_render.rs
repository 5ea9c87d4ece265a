//! Rendering of the patterns of `case` clauses.

use crate::ast::{
    KeywordPattern, MappingEntry, Pattern, PatternMatchAs, PatternMatchClass, PatternMatchMapping,
    PatternMatchOr, PatternMatchSequence, PatternMatchSingleton, PatternMatchStar,
    PatternMatchValue,
};
use crate::error::{first_error, first_error_from, UnparseError};
use crate::pattern_model::{
    keyword_pattern_text, keyword_patterns_errors, keyword_patterns_texts, mapping_entries_errors,
    mapping_entries_texts, mapping_entry_error, mapping_entry_text, mapping_rest_parts,
    pattern_bare, pattern_error, pattern_rank, pattern_text, patterns_errors, patterns_texts,
    PATTERN_ANY, PATTERN_CLOSED, PATTERN_OR,
};
use crate::pattern_output::{
    keyword_pattern_onto, keyword_patterns_onto_from, mapping_entries_onto_from,
    mapping_entry_onto, pattern_bare_onto, pattern_onto, patterns_onto_from,
};
use crate::precedence::{PREC_ATOM, PREC_TEST};
use crate::text::{lemma_join_step, join, join_upto, led, lemma_join_led};
use crate::unparser::{rendered_onto, Unparser};
use vstd::prelude::*;

verus! {

/// How tightly a pattern binds.
pub fn get_pattern_rank(node: &Pattern) -> (rank: usize)
    ensures
        rank == pattern_rank(*node),
{
    match node {
        Pattern::MatchAs(data) => if data.name.is_some() && data.pattern.is_some() {
            PATTERN_ANY
        } else {
            PATTERN_CLOSED
        },
        Pattern::MatchOr(_) => PATTERN_OR,
        _ => PATTERN_CLOSED,
    }
}

impl Unparser {
    /// Writes a pattern where one of at least rank `level` is required: in
    /// parentheses if its own rank is lower.
    pub fn delimit_pattern(&mut self, node: &Pattern, level: usize) -> (r: Result<
        (),
        UnparseError,
    >)
        ensures
            rendered_onto(
                *old(self),
                *final(self),
                r,
                pattern_error(*node),
                pattern_text(*node, level as nat), pattern_onto(old(self).source@, *node, level as nat)),
        decreases *node, 1nat,
    {
        let should_delimit = get_pattern_rank(node) < level;
        if should_delimit {
            self.write_str("(");
        }
        self.unparse_pattern(node)?;
        if should_delimit {
            self.write_str(")");
        }
        assert(self.source@ =~= old(self).source@ + pattern_text(*node, level as nat));
        Ok(())
    }

    /// Writes a pattern without parentheses around the whole.
    pub fn unparse_pattern(&mut self, node: &Pattern) -> (r: Result<(), UnparseError>)
        ensures
            rendered_onto(*old(self), *final(self), r, pattern_error(*node), pattern_bare(*node), pattern_bare_onto(old(self).source@, *node)),
        decreases *node, 0nat,
    {
        match node {
            Pattern::MatchValue(data) => self.unparse_pattern_match_value(data),
            Pattern::MatchSingleton(data) => self.unparse_pattern_match_singleton(data),
            Pattern::MatchSequence(data) => self.unparse_pattern_match_sequence(data),
            Pattern::MatchMapping(data) => self.unparse_pattern_match_mapping(data),
            Pattern::MatchClass(data) => self.unparse_pattern_match_class(data),
            Pattern::MatchStar(data) => self.unparse_pattern_match_star(data),
            Pattern::MatchAs(data) => self.unparse_pattern_match_as(data),
            Pattern::MatchOr(data) => self.unparse_pattern_match_or(data),
        }
    }

    /// Writes a list of patterns, each at `level`, with `sep` between
    /// neighbours.
    pub fn unparse_patterns(&mut self, nodes: &Vec<Pattern>, level: usize, sep: &str) -> (r:
        Result<(), UnparseError>)
        ensures
            rendered_onto(
                *old(self),
                *final(self),
                r,
                first_error(patterns_errors(nodes@)),
                join(patterns_texts(nodes@, level as nat), sep@), patterns_onto_from(old(self).source@, nodes@, level as nat, sep@, 0)),
        decreases *nodes, 2nat,
    {
        let ghost texts = patterns_texts(nodes@, level as nat);
        let ghost errs = patterns_errors(nodes@);
        let mut i: usize = 0;
        while i < nodes.len()
            invariant
                i <= nodes.len(),
                self.indent == old(self).indent,
                texts == patterns_texts(nodes@, level as nat),
                errs == patterns_errors(nodes@),
                first_error(errs) == first_error_from(errs, i as nat),
                patterns_onto_from(old(self).source@, nodes@, level as nat, sep@, 0) == patterns_onto_from(self.source@, nodes@, level as nat, sep@, i as nat),
                self.source@ == old(self).source@ + join_upto(texts, sep@, i as nat),
            decreases nodes.len() - i,
        {
            if i > 0 {
                self.write_str(sep);
            }
            self.delimit_pattern(&nodes[i], level)?;
            i += 1;
            proof {
                lemma_join_step(old(self).source@, texts, sep@, (i - 1) as nat);
            }
        }
        Ok(())
    }

    /// A value pattern: its expression.
    pub fn unparse_pattern_match_value(&mut self, node: &PatternMatchValue) -> (r: Result<
        (),
        UnparseError,
    >)
        ensures
            rendered_onto(
                *old(self),
                *final(self),
                r,
                pattern_error(Pattern::MatchValue(*node)),
                pattern_bare(Pattern::MatchValue(*node)), pattern_bare_onto(old(self).source@, Pattern::MatchValue(*node))),
    {
        self.delimit_precedence(&node.value, PREC_TEST)
    }

    /// `None`, `True` or `False`: the constant.
    pub fn unparse_pattern_match_singleton(&mut self, node: &PatternMatchSingleton) -> (r: Result<
        (),
        UnparseError,
    >)
        ensures
            rendered_onto(
                *old(self),
                *final(self),
                r,
                pattern_error(Pattern::MatchSingleton(*node)),
                pattern_bare(Pattern::MatchSingleton(*node)), pattern_bare_onto(old(self).source@, Pattern::MatchSingleton(*node))),
    {
        self._unparse_constant(&node.value)
    }

    /// `[a, b, *rest]`
    pub fn unparse_pattern_match_sequence(&mut self, node: &PatternMatchSequence) -> (r: Result<
        (),
        UnparseError,
    >)
        ensures
            rendered_onto(
                *old(self),
                *final(self),
                r,
                pattern_error(Pattern::MatchSequence(*node)),
                pattern_bare(Pattern::MatchSequence(*node)), pattern_bare_onto(old(self).source@, Pattern::MatchSequence(*node))),
        decreases *node, 3nat,
    {
        self.write_str("[");
        self.unparse_patterns(&node.patterns, PATTERN_ANY, ", ")?;
        self.write_str("]");
        assert(self.source@ =~= old(self).source@ + pattern_bare(Pattern::MatchSequence(*node)));
        Ok(())
    }

    /// Writes an entry of a mapping pattern: `key: pattern`.
    pub fn unparse_mapping_entry(&mut self, node: &MappingEntry) -> (r: Result<(), UnparseError>)
        ensures
            rendered_onto(
                *old(self),
                *final(self),
                r,
                mapping_entry_error(*node),
                mapping_entry_text(*node), mapping_entry_onto(old(self).source@, *node)),
        decreases *node, 2nat,
    {
        self.delimit_precedence(&node.key, PREC_TEST)?;
        self.write_str(": ");
        self.delimit_pattern(&node.pattern, PATTERN_ANY)?;
        assert(self.source@ =~= old(self).source@ + mapping_entry_text(*node));
        Ok(())
    }

    /// Writes the entries of a mapping pattern separated by commas.
    pub fn unparse_mapping_entries(&mut self, nodes: &Vec<MappingEntry>) -> (r: Result<
        (),
        UnparseError,
    >)
        ensures
            rendered_onto(
                *old(self),
                *final(self),
                r,
                first_error(mapping_entries_errors(nodes@)),
                join(mapping_entries_texts(nodes@), ", "@), mapping_entries_onto_from(old(self).source@, nodes@, 0)),
        decreases *nodes, 3nat,
    {
        let ghost texts = mapping_entries_texts(nodes@);
        let ghost errs = mapping_entries_errors(nodes@);
        let mut i: usize = 0;
        while i < nodes.len()
            invariant
                i <= nodes.len(),
                self.indent == old(self).indent,
                texts == mapping_entries_texts(nodes@),
                errs == mapping_entries_errors(nodes@),
                first_error(errs) == first_error_from(errs, i as nat),
                mapping_entries_onto_from(old(self).source@, nodes@, 0) == mapping_entries_onto_from(self.source@, nodes@, i as nat),
                self.source@ == old(self).source@ + join_upto(texts, ", "@, i as nat),
            decreases nodes.len() - i,
        {
            if i > 0 {
                self.write_str(", ");
            }
            self.unparse_mapping_entry(&nodes[i])?;
            i += 1;
            assert(self.source@ =~= old(self).source@ + join_upto(texts, ", "@, i as nat));
        }
        Ok(())
    }

    /// `{key: pattern, **rest}`
    pub fn unparse_pattern_match_mapping(&mut self, node: &PatternMatchMapping) -> (r: Result<
        (),
        UnparseError,
    >)
        ensures
            rendered_onto(
                *old(self),
                *final(self),
                r,
                pattern_error(Pattern::MatchMapping(*node)),
                pattern_bare(Pattern::MatchMapping(*node)), pattern_bare_onto(old(self).source@, Pattern::MatchMapping(*node))),
        decreases *node, 4nat,
    {
        self.write_str("{");
        let ghost start = self.source@;
        let ghost entries = mapping_entries_texts(node.entries@);
        let ghost rest_parts = mapping_rest_parts(*node);
        self.unparse_mapping_entries(&node.entries)?;
        if let Some(rest) = &node.rest {
            if node.entries.len() > 0 {
                self.write_str(", ");
            }
            self.write_str("**");
            self.write_str(rest.as_str());
        }
        proof {
            lemma_join_led(entries, rest_parts, ", "@);
            assert(self.source@ =~= start + join(entries, ", "@) + led(
                entries.len() > 0,
                rest_parts,
                ", "@,
            ));
        }
        self.write_str("}");
        assert(self.source@ =~= old(self).source@ + pattern_bare(Pattern::MatchMapping(*node)));
        Ok(())
    }

    /// Writes a keyword argument of a class pattern: `attr=pattern`.
    pub fn unparse_keyword_pattern(&mut self, node: &KeywordPattern) -> (r: Result<
        (),
        UnparseError,
    >)
        ensures
            rendered_onto(
                *old(self),
                *final(self),
                r,
                pattern_error(node.pattern),
                keyword_pattern_text(*node), keyword_pattern_onto(old(self).source@, *node)),
        decreases *node, 2nat,
    {
        self.write_str(node.attr.as_str());
        self.write_str("=");
        self.delimit_pattern(&node.pattern, PATTERN_ANY)?;
        assert(self.source@ =~= old(self).source@ + keyword_pattern_text(*node));
        Ok(())
    }

    /// Writes the keyword arguments of a class pattern separated by commas.
    pub fn unparse_keyword_patterns(&mut self, nodes: &Vec<KeywordPattern>) -> (r: Result<
        (),
        UnparseError,
    >)
        ensures
            rendered_onto(
                *old(self),
                *final(self),
                r,
                first_error(keyword_patterns_errors(nodes@)),
                join(keyword_patterns_texts(nodes@), ", "@), keyword_patterns_onto_from(old(self).source@, nodes@, 0)),
        decreases *nodes, 3nat,
    {
        let ghost texts = keyword_patterns_texts(nodes@);
        let ghost errs = keyword_patterns_errors(nodes@);
        let mut i: usize = 0;
        while i < nodes.len()
            invariant
                i <= nodes.len(),
                self.indent == old(self).indent,
                texts == keyword_patterns_texts(nodes@),
                errs == keyword_patterns_errors(nodes@),
                first_error(errs) == first_error_from(errs, i as nat),
                keyword_patterns_onto_from(old(self).source@, nodes@, 0) == keyword_patterns_onto_from(self.source@, nodes@, i as nat),
                self.source@ == old(self).source@ + join_upto(texts, ", "@, i as nat),
            decreases nodes.len() - i,
        {
            if i > 0 {
                self.write_str(", ");
            }
            self.unparse_keyword_pattern(&nodes[i])?;
            i += 1;
            assert(self.source@ =~= old(self).source@ + join_upto(texts, ", "@, i as nat));
        }
        Ok(())
    }

    /// `Class(a, b, attr=c)`: the positional patterns, then the keyword
    /// patterns.
    pub fn unparse_pattern_match_class(&mut self, node: &PatternMatchClass) -> (r: Result<
        (),
        UnparseError,
    >)
        ensures
            rendered_onto(
                *old(self),
                *final(self),
                r,
                pattern_error(Pattern::MatchClass(*node)),
                pattern_bare(Pattern::MatchClass(*node)), pattern_bare_onto(old(self).source@, Pattern::MatchClass(*node))),
        decreases *node, 4nat,
    {
        self.delimit_precedence(&node.cls, PREC_ATOM)?;
        self.write_str("(");
        let ghost start = self.source@;
        let ghost positional = patterns_texts(node.patterns@, PATTERN_ANY as nat);
        let ghost named = keyword_patterns_texts(node.kwd_patterns@);
        self.unparse_patterns(&node.patterns, PATTERN_ANY, ", ")?;
        if node.patterns.len() > 0 && node.kwd_patterns.len() > 0 {
            self.write_str(", ");
        }
        self.unparse_keyword_patterns(&node.kwd_patterns)?;
        proof {
            lemma_join_led(positional, named, ", "@);
            assert(self.source@ =~= start + join(positional + named, ", "@));
        }
        self.write_str(")");
        assert(self.source@ =~= old(self).source@ + pattern_bare(Pattern::MatchClass(*node)));
        Ok(())
    }

    /// `*name`, or `*_` without a name.
    pub fn unparse_pattern_match_star(&mut self, node: &PatternMatchStar) -> (r: Result<
        (),
        UnparseError,
    >)
        ensures
            rendered_onto(
                *old(self),
                *final(self),
                r,
                pattern_error(Pattern::MatchStar(*node)),
                pattern_bare(Pattern::MatchStar(*node)), pattern_bare_onto(old(self).source@, Pattern::MatchStar(*node))),
    {
        let name = match &node.name {
            Some(name) => name.as_str(),
            None => "_",
        };
        self.write_str("*");
        self.write_str(name);
        assert(self.source@ =~= old(self).source@ + pattern_bare(Pattern::MatchStar(*node)));
        Ok(())
    }

    /// `_` without a name and a pattern, the name alone without a pattern,
    /// and `pattern as name`. A pattern without a name has no rendering.
    pub fn unparse_pattern_match_as(&mut self, node: &PatternMatchAs) -> (r: Result<
        (),
        UnparseError,
    >)
        ensures
            rendered_onto(
                *old(self),
                *final(self),
                r,
                pattern_error(Pattern::MatchAs(*node)),
                pattern_bare(Pattern::MatchAs(*node)), pattern_bare_onto(old(self).source@, Pattern::MatchAs(*node))),
        decreases *node, 3nat,
    {
        match &node.name {
            None => match &node.pattern {
                None => {
                    self.write_str("_");
                },
                Some(_) => {
                    return Err(UnparseError::UnsupportedConstruct);
                },
            },
            Some(name) => match &node.pattern {
                None => {
                    self.write_str(name.as_str());
                },
                Some(inner) => {
                    self.delimit_pattern(inner, PATTERN_OR)?;
                    self.write_str(" as ");
                    self.write_str(name.as_str());
                    assert(self.source@ =~= old(self).source@ + pattern_bare(
                        Pattern::MatchAs(*node),
                    ));
                },
            },
        }
        Ok(())
    }

    /// `a | b | c`
    pub fn unparse_pattern_match_or(&mut self, node: &PatternMatchOr) -> (r: Result<
        (),
        UnparseError,
    >)
        ensures
            rendered_onto(
                *old(self),
                *final(self),
                r,
                pattern_error(Pattern::MatchOr(*node)),
                pattern_bare(Pattern::MatchOr(*node)), pattern_bare_onto(old(self).source@, Pattern::MatchOr(*node))),
        decreases *node, 3nat,
    {
        self.unparse_patterns(&node.patterns, PATTERN_CLOSED, " | ")
    }
}

} // verus!
