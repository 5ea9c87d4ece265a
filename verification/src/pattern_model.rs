//! What a pattern of a `case` clause renders to.

use crate::ast::{KeywordPattern, MappingEntry, Pattern, PatternMatchMapping};
use crate::error::{first_error, or_error, UnparseError};
use crate::expr_model::{expr_error, expr_text};
use crate::literal::{constant_error, constant_text};
use crate::precedence::{PREC_ATOM, PREC_TEST};
use crate::text::{delimited, join};
use vstd::prelude::*;

verus! {

/// Where any pattern may stand: the pattern of a `case`, an item of a
/// sequence, a value of a mapping, an argument of a class pattern.
pub const PATTERN_ANY: usize = 0;

/// Where an `as` pattern needs parentheses: before `as`.
pub const PATTERN_OR: usize = 1;

/// Where an `as` pattern and an alternation need parentheses: between the
/// bars of an alternation.
pub const PATTERN_CLOSED: usize = 2;

/// How tightly a pattern binds: `pattern as name` least, an alternation
/// next, every other pattern most.
pub open spec fn pattern_rank(p: Pattern) -> nat {
    match p {
        Pattern::MatchAs(d) => if d.name is Some && d.pattern is Some {
            PATTERN_ANY as nat
        } else {
            PATTERN_CLOSED as nat
        },
        Pattern::MatchOr(_) => PATTERN_OR as nat,
        _ => PATTERN_CLOSED as nat,
    }
}

/// The text of a pattern where one of at least rank `level` is required:
/// in parentheses if its own rank is lower.
pub open spec fn pattern_text(p: Pattern, level: nat) -> Seq<char>
    decreases p, 1nat,
{
    delimited(pattern_rank(p) < level, pattern_bare(p))
}

/// The texts of a list of patterns, each at `level`.
pub open spec fn patterns_texts(ps: Seq<Pattern>, level: nat) -> Seq<Seq<char>>
    decreases ps, 2nat,
{
    Seq::new(
        ps.len(),
        |i: int|
            if 0 <= i < ps.len() {
                pattern_text(ps[i], level)
            } else {
                Seq::empty()
            },
    )
}

/// An entry of a mapping pattern: `key: pattern`.
pub open spec fn mapping_entry_text(entry: MappingEntry) -> Seq<char>
    decreases entry, 2nat,
{
    expr_text(entry.key, PREC_TEST as nat) + ": "@ + pattern_text(
        entry.pattern,
        PATTERN_ANY as nat,
    )
}

/// The texts of the entries of a mapping pattern.
pub open spec fn mapping_entries_texts(entries: Seq<MappingEntry>) -> Seq<Seq<char>>
    decreases entries, 3nat,
{
    Seq::new(
        entries.len(),
        |i: int|
            if 0 <= i < entries.len() {
                mapping_entry_text(entries[i])
            } else {
                Seq::empty()
            },
    )
}

/// The part of a mapping pattern that captures the other keys: `**name`,
/// where there is one.
pub open spec fn mapping_rest_parts(d: PatternMatchMapping) -> Seq<Seq<char>> {
    match d.rest {
        Some(name) => seq!["**"@ + name@],
        None => Seq::empty(),
    }
}

/// A keyword argument of a class pattern: `attr=pattern`.
pub open spec fn keyword_pattern_text(k: KeywordPattern) -> Seq<char>
    decreases k, 2nat,
{
    k.attr@ + "="@ + pattern_text(k.pattern, PATTERN_ANY as nat)
}

/// The texts of the keyword arguments of a class pattern.
pub open spec fn keyword_patterns_texts(ks: Seq<KeywordPattern>) -> Seq<Seq<char>>
    decreases ks, 3nat,
{
    Seq::new(
        ks.len(),
        |i: int|
            if 0 <= i < ks.len() {
                keyword_pattern_text(ks[i])
            } else {
                Seq::empty()
            },
    )
}

/// The text of a pattern without parentheses around the whole.
///
/// A value as its expression and a singleton as its constant; a sequence
/// in brackets; a mapping in braces, `key: pattern` pairs and then
/// `**rest`; a class pattern as the class and its arguments in
/// parentheses, positional before keyword; a star pattern as `*name`, or
/// `*_` without a name; a capture as its name, the wildcard as `_`, and
/// `pattern as name`; an alternation with ` | ` between the alternatives.
/// A pattern bound to no name has no rendering.
pub open spec fn pattern_bare(p: Pattern) -> Seq<char>
    decreases p, 0nat,
{
    match p {
        Pattern::MatchValue(d) => expr_text(*d.value, PREC_TEST as nat),
        Pattern::MatchSingleton(d) => constant_text(d.value),
        Pattern::MatchSequence(d) => "["@ + join(
            patterns_texts(d.patterns@, PATTERN_ANY as nat),
            ", "@,
        ) + "]"@,
        Pattern::MatchMapping(d) => "{"@ + join(
            mapping_entries_texts(d.entries@) + mapping_rest_parts(d),
            ", "@,
        ) + "}"@,
        Pattern::MatchClass(d) => expr_text(*d.cls, PREC_ATOM as nat) + "("@ + join(
            patterns_texts(d.patterns@, PATTERN_ANY as nat) + keyword_patterns_texts(
                d.kwd_patterns@,
            ),
            ", "@,
        ) + ")"@,
        Pattern::MatchStar(d) => "*"@ + match d.name {
            Some(name) => name@,
            None => "_"@,
        },
        Pattern::MatchAs(d) => match d.name {
            None => match d.pattern {
                None => "_"@,
                Some(_) => Seq::empty(),
            },
            Some(name) => match d.pattern {
                None => name@,
                Some(inner) => pattern_text(*inner, PATTERN_OR as nat) + " as "@ + name@,
            },
        },
        Pattern::MatchOr(d) => join(patterns_texts(d.patterns@, PATTERN_CLOSED as nat), " | "@),
    }
}

/// The failures of a list of patterns.
pub open spec fn patterns_errors(ps: Seq<Pattern>) -> Seq<Option<UnparseError>>
    decreases ps, 2nat,
{
    Seq::new(
        ps.len(),
        |i: int|
            if 0 <= i < ps.len() {
                pattern_error(ps[i])
            } else {
                None
            },
    )
}

/// The failure of an entry of a mapping pattern.
pub open spec fn mapping_entry_error(entry: MappingEntry) -> Option<UnparseError>
    decreases entry, 2nat,
{
    or_error(expr_error(entry.key), pattern_error(entry.pattern))
}

/// The failures of the entries of a mapping pattern.
pub open spec fn mapping_entries_errors(entries: Seq<MappingEntry>) -> Seq<Option<UnparseError>>
    decreases entries, 3nat,
{
    Seq::new(
        entries.len(),
        |i: int|
            if 0 <= i < entries.len() {
                mapping_entry_error(entries[i])
            } else {
                None
            },
    )
}

/// The failures of the keyword arguments of a class pattern.
pub open spec fn keyword_patterns_errors(ks: Seq<KeywordPattern>) -> Seq<Option<UnparseError>>
    decreases ks, 3nat,
{
    Seq::new(
        ks.len(),
        |i: int|
            if 0 <= i < ks.len() {
                pattern_error(ks[i].pattern)
            } else {
                None
            },
    )
}

/// The failure that rendering a pattern ends in, if any: that of the first
/// of its parts that fails, in the order in which they are written. A
/// pattern bound to no name, `pattern as` without the name, has no
/// rendering.
pub open spec fn pattern_error(p: Pattern) -> Option<UnparseError>
    decreases p, 0nat,
{
    match p {
        Pattern::MatchValue(d) => expr_error(*d.value),
        Pattern::MatchSingleton(d) => constant_error(d.value),
        Pattern::MatchSequence(d) => first_error(patterns_errors(d.patterns@)),
        Pattern::MatchMapping(d) => first_error(mapping_entries_errors(d.entries@)),
        Pattern::MatchClass(d) => or_error(
            expr_error(*d.cls),
            or_error(
                first_error(patterns_errors(d.patterns@)),
                first_error(keyword_patterns_errors(d.kwd_patterns@)),
            ),
        ),
        Pattern::MatchStar(_) => None,
        Pattern::MatchAs(d) => match d.name {
            None => match d.pattern {
                None => None,
                Some(_) => Some(UnparseError::UnsupportedConstruct),
            },
            Some(_) => match d.pattern {
                None => None,
                Some(inner) => pattern_error(*inner),
            },
        },
        Pattern::MatchOr(d) => first_error(patterns_errors(d.patterns@)),
    }
}

} // verus!
