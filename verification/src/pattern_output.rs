//! What the buffer holds after a pattern is rendered, whether the
//! rendering succeeds or stops at a failure.

use crate::ast::{KeywordPattern, MappingEntry, Pattern};
use crate::error::{first_error, stopping};
use crate::expr_model::expr_error;
use crate::expr_output::{constant_onto, expr_onto};
use crate::pattern_model::{
    keyword_patterns_errors, mapping_entries_errors, mapping_entry_error, pattern_bare,
    pattern_error, pattern_rank, patterns_errors, PATTERN_ANY, PATTERN_CLOSED, PATTERN_OR,
};
use crate::precedence::{PREC_ATOM, PREC_TEST};
use vstd::prelude::*;

verus! {

/// The buffer after a pattern is rendered onto `base` where one of at
/// least rank `level` is required.
pub open spec fn pattern_onto(base: Seq<char>, p: Pattern, level: nat) -> Seq<char>
    decreases p, 1nat,
{
    let reached = pattern_bare_onto(
        if pattern_rank(p) < level {
            base + "("@
        } else {
            base
        },
        p,
    );
    stopping(
        pattern_error(p),
        reached,
        if pattern_rank(p) < level {
            reached + ")"@
        } else {
            reached
        },
    )
}

/// The buffer after the patterns from the `i`th on are rendered onto
/// `cur`, each at `level`, with `sep` between neighbours.
pub open spec fn patterns_onto_from(
    cur: Seq<char>,
    ps: Seq<Pattern>,
    level: nat,
    sep: Seq<char>,
    i: nat,
) -> Seq<char>
    decreases ps, ps.len() - i,
{
    if i >= ps.len() {
        cur
    } else {
        let reached = pattern_onto(
            if i > 0 {
                cur + sep
            } else {
                cur
            },
            ps[i as int],
            level,
        );
        stopping(
            pattern_error(ps[i as int]),
            reached,
            patterns_onto_from(reached, ps, level, sep, i + 1),
        )
    }
}

/// The buffer after an entry of a mapping pattern is rendered onto
/// `base`.
pub open spec fn mapping_entry_onto(base: Seq<char>, entry: MappingEntry) -> Seq<char>
    decreases entry, 2nat,
{
    let key = expr_onto(base, entry.key, PREC_TEST as nat);
    stopping(
        expr_error(entry.key),
        key,
        pattern_onto(key + ": "@, entry.pattern, PATTERN_ANY as nat),
    )
}

/// The buffer after the entries of a mapping pattern from the `i`th on
/// are rendered onto `cur`, with commas between them.
pub open spec fn mapping_entries_onto_from(cur: Seq<char>, entries: Seq<MappingEntry>, i: nat) -> Seq<
    char,
>
    decreases entries, entries.len() - i,
{
    if i >= entries.len() {
        cur
    } else {
        let reached = mapping_entry_onto(
            if i > 0 {
                cur + ", "@
            } else {
                cur
            },
            entries[i as int],
        );
        stopping(
            mapping_entry_error(entries[i as int]),
            reached,
            mapping_entries_onto_from(reached, entries, i + 1),
        )
    }
}

/// The buffer after a keyword argument of a class pattern is rendered
/// onto `base`.
pub open spec fn keyword_pattern_onto(base: Seq<char>, k: KeywordPattern) -> Seq<char>
    decreases k, 2nat,
{
    pattern_onto(base + k.attr@ + "="@, k.pattern, PATTERN_ANY as nat)
}

/// The buffer after the keyword arguments of a class pattern from the
/// `i`th on are rendered onto `cur`, with commas between them.
pub open spec fn keyword_patterns_onto_from(cur: Seq<char>, ks: Seq<KeywordPattern>, i: nat) -> Seq<
    char,
>
    decreases ks, ks.len() - i,
{
    if i >= ks.len() {
        cur
    } else {
        let reached = keyword_pattern_onto(
            if i > 0 {
                cur + ", "@
            } else {
                cur
            },
            ks[i as int],
        );
        stopping(
            pattern_error(ks[i as int].pattern),
            reached,
            keyword_patterns_onto_from(reached, ks, i + 1),
        )
    }
}

/// The buffer after a pattern is rendered onto `base` without parentheses
/// around the whole: its parts in the order in which they are written, up
/// to the first that fails.
pub open spec fn pattern_bare_onto(base: Seq<char>, p: Pattern) -> Seq<char>
    decreases p, 0nat,
{
    match p {
        Pattern::MatchValue(d) => expr_onto(base, *d.value, PREC_TEST as nat),
        Pattern::MatchSingleton(d) => constant_onto(base, d.value),
        Pattern::MatchSequence(d) => {
            let items = patterns_onto_from(base + "["@, d.patterns@, PATTERN_ANY as nat, ", "@, 0);
            stopping(first_error(patterns_errors(d.patterns@)), items, items + "]"@)
        },
        Pattern::MatchMapping(d) => {
            let entries = mapping_entries_onto_from(base + "{"@, d.entries@, 0);
            stopping(
                first_error(mapping_entries_errors(d.entries@)),
                entries,
                match d.rest {
                    Some(rest) => (if d.entries@.len() > 0 {
                        entries + ", "@
                    } else {
                        entries
                    }) + "**"@ + rest@ + "}"@,
                    None => entries + "}"@,
                },
            )
        },
        Pattern::MatchClass(d) => {
            let cls = expr_onto(base, *d.cls, PREC_ATOM as nat);
            let positional = patterns_onto_from(
                cls + "("@,
                d.patterns@,
                PATTERN_ANY as nat,
                ", "@,
                0,
            );
            let named = keyword_patterns_onto_from(
                if d.patterns@.len() > 0 && d.kwd_patterns@.len() > 0 {
                    positional + ", "@
                } else {
                    positional
                },
                d.kwd_patterns@,
                0,
            );
            stopping(
                expr_error(*d.cls),
                cls,
                stopping(
                    first_error(patterns_errors(d.patterns@)),
                    positional,
                    stopping(
                        first_error(keyword_patterns_errors(d.kwd_patterns@)),
                        named,
                        named + ")"@,
                    ),
                ),
            )
        },
        Pattern::MatchStar(_) => base + pattern_bare(p),
        Pattern::MatchAs(d) => match d.name {
            None => match d.pattern {
                None => base + "_"@,
                Some(_) => base,
            },
            Some(name) => match d.pattern {
                None => base + name@,
                Some(inner) => {
                    let bound = pattern_onto(base, *inner, PATTERN_OR as nat);
                    stopping(pattern_error(*inner), bound, bound + " as "@ + name@)
                },
            },
        },
        Pattern::MatchOr(d) => patterns_onto_from(
            base,
            d.patterns@,
            PATTERN_CLOSED as nat,
            " | "@,
            0,
        ),
    }
}

} // verus!
