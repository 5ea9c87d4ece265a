//! Building blocks of the rendered text: joining parts with a separator,
//! concatenating lines, indentation and parentheses.

use vstd::prelude::*;

verus! {

/// The first `n` parts, with `sep` between neighbours.
pub open spec fn join_upto(parts: Seq<Seq<char>>, sep: Seq<char>, n: nat) -> Seq<char>
    decreases n,
{
    if n == 0 || n > parts.len() {
        Seq::empty()
    } else if n == 1 {
        parts[0]
    } else {
        join_upto(parts, sep, (n - 1) as nat) + sep + parts[n - 1]
    }
}

/// All parts with `sep` between neighbours, and nothing after the last.
pub open spec fn join(parts: Seq<Seq<char>>, sep: Seq<char>) -> Seq<char> {
    join_upto(parts, sep, parts.len())
}

/// The first `n` parts one after the other.
pub open spec fn concat_upto(parts: Seq<Seq<char>>, n: nat) -> Seq<char>
    decreases n,
{
    if n == 0 || n > parts.len() {
        Seq::empty()
    } else {
        concat_upto(parts, (n - 1) as nat) + parts[n - 1]
    }
}

/// All parts one after the other.
pub open spec fn concat(parts: Seq<Seq<char>>) -> Seq<char> {
    concat_upto(parts, parts.len())
}

/// The text of one level of indentation.
pub open spec fn indent_unit() -> Seq<char> {
    "    "@
}

/// The indentation of a line at the given depth: one unit per level.
pub open spec fn indent_text(depth: nat) -> Seq<char>
    decreases depth,
{
    if depth == 0 {
        Seq::empty()
    } else {
        indent_text((depth - 1) as nat) + indent_unit()
    }
}

/// The start of a new line at the given depth: a line break and the
/// indentation.
pub open spec fn line_start(depth: nat) -> Seq<char> {
    "\n"@ + indent_text(depth)
}

/// The depth of a block nested in a block of depth `depth`: one more. The
/// depth is counted in a `usize`; at its largest value it stays.
pub open spec fn nested(depth: nat) -> nat {
    if depth < usize::MAX {
        depth + 1
    } else {
        depth
    }
}

/// `inner` in parentheses if `needed`, else as it is.
pub open spec fn delimited(needed: bool, inner: Seq<char>) -> Seq<char> {
    if needed {
        "("@ + inner + ")"@
    } else {
        inner
    }
}

/// `text` if `present`, else nothing.
pub open spec fn optional(present: bool, text: Seq<char>) -> Seq<char> {
    if present {
        text
    } else {
        Seq::empty()
    }
}

/// What a prefix of the parts joins to does not depend on the parts after
/// it.
pub proof fn lemma_join_upto_prefix(
    a: Seq<Seq<char>>,
    b: Seq<Seq<char>>,
    sep: Seq<char>,
    n: nat,
)
    requires
        n <= a.len(),
        n <= b.len(),
        forall|i: int| 0 <= i < n ==> a[i] == b[i],
    ensures
        join_upto(a, sep, n) == join_upto(b, sep, n),
    decreases n,
{
    if n > 1 {
        lemma_join_upto_prefix(a, b, sep, (n - 1) as nat);
    }
}

/// Joining two lists of parts laid end to end: the second list counted up
/// to its first `k` parts.
proof fn lemma_join_upto_concat(a: Seq<Seq<char>>, b: Seq<Seq<char>>, sep: Seq<char>, k: nat)
    requires
        k <= b.len(),
    ensures
        join_upto(a + b, sep, a.len() + k) == if a.len() == 0 {
            join_upto(b, sep, k)
        } else if k == 0 {
            join(a, sep)
        } else {
            join(a, sep) + sep + join_upto(b, sep, k)
        },
    decreases k,
{
    let ab = a + b;
    if k == 0 {
        lemma_join_upto_prefix(ab, a, sep, a.len());
    } else {
        lemma_join_upto_concat(a, b, sep, (k - 1) as nat);
        assert(ab[a.len() + k - 1] == b[k - 1]);
        if a.len() == 0 {
            assert(ab =~= b);
        } else if k == 1 {
            assert(join_upto(ab, sep, a.len() + 1) == join_upto(ab, sep, a.len()) + sep + b[0]);
        } else {
            assert(join_upto(ab, sep, a.len() + k) =~= join(a, sep) + sep + join_upto(b, sep, k));
        }
    }
}

/// Joining two lists of parts laid end to end gives the two joined texts
/// with the separator between them, unless one of the lists is empty.
pub proof fn lemma_join_concat(a: Seq<Seq<char>>, b: Seq<Seq<char>>, sep: Seq<char>)
    ensures
        join(a + b, sep) == if a.len() == 0 {
            join(b, sep)
        } else if b.len() == 0 {
            join(a, sep)
        } else {
            join(a, sep) + sep + join(b, sep)
        },
{
    lemma_join_upto_concat(a, b, sep, b.len());
}

/// A group of parts written behind other parts: nothing for an empty
/// group, else the joined group, behind a separator if `written` says that
/// a part stands before it.
pub open spec fn led(written: bool, group: Seq<Seq<char>>, sep: Seq<char>) -> Seq<char> {
    if group.len() == 0 {
        Seq::empty()
    } else if written {
        sep + join(group, sep)
    } else {
        join(group, sep)
    }
}

/// Joining a list of parts with a further group laid behind it.
pub proof fn lemma_join_led(done: Seq<Seq<char>>, group: Seq<Seq<char>>, sep: Seq<char>)
    ensures
        join(done + group, sep) == join(done, sep) + led(done.len() > 0, group, sep),
{
    lemma_join_concat(done, group, sep);
    assert(join(done + group, sep) =~= join(done, sep) + led(done.len() > 0, group, sep));
}

/// Appending two texts one by one is appending their concatenation.
pub proof fn lemma_cat2(s: Seq<char>, a: Seq<char>, b: Seq<char>)
    ensures
        s + a + b == s + (a + b),
{
    assert(s + a + b =~= s + (a + b));
}

/// Appending three texts one by one is appending their concatenation.
pub proof fn lemma_cat3(s: Seq<char>, a: Seq<char>, b: Seq<char>, c: Seq<char>)
    ensures
        s + a + b + c == s + (a + b + c),
{
    assert(s + a + b + c =~= s + (a + b + c));
}

/// Appending four texts one by one is appending their concatenation.
pub proof fn lemma_cat4(s: Seq<char>, a: Seq<char>, b: Seq<char>, c: Seq<char>, d: Seq<char>)
    ensures
        s + a + b + c + d == s + (a + b + c + d),
{
    assert(s + a + b + c + d =~= s + (a + b + c + d));
}

/// Appending five texts one by one is appending their concatenation.
pub proof fn lemma_cat5(
    s: Seq<char>,
    a: Seq<char>,
    b: Seq<char>,
    c: Seq<char>,
    d: Seq<char>,
    e: Seq<char>,
)
    ensures
        s + a + b + c + d + e == s + (a + b + c + d + e),
{
    assert(s + a + b + c + d + e =~= s + (a + b + c + d + e));
}

/// Appending six texts one by one is appending their concatenation.
pub proof fn lemma_cat6(
    s: Seq<char>,
    a: Seq<char>,
    b: Seq<char>,
    c: Seq<char>,
    d: Seq<char>,
    e: Seq<char>,
    f: Seq<char>,
)
    ensures
        s + a + b + c + d + e + f == s + (a + b + c + d + e + f),
{
    assert(s + a + b + c + d + e + f =~= s + (a + b + c + d + e + f));
}

/// Appending seven texts one by one is appending their concatenation.
pub proof fn lemma_cat7(
    s: Seq<char>,
    a: Seq<char>,
    b: Seq<char>,
    c: Seq<char>,
    d: Seq<char>,
    e: Seq<char>,
    f: Seq<char>,
    g: Seq<char>,
)
    ensures
        s + a + b + c + d + e + f + g == s + (a + b + c + d + e + f + g),
{
    assert(s + a + b + c + d + e + f + g =~= s + (a + b + c + d + e + f + g));
}

/// Appending nine texts one by one is appending their concatenation.
pub proof fn lemma_cat9(
    s: Seq<char>,
    a: Seq<char>,
    b: Seq<char>,
    c: Seq<char>,
    d: Seq<char>,
    e: Seq<char>,
    f: Seq<char>,
    g: Seq<char>,
    h: Seq<char>,
    i: Seq<char>,
)
    ensures
        s + a + b + c + d + e + f + g + h + i == s + (a + b + c + d + e + f + g + h + i),
{
    assert(s + a + b + c + d + e + f + g + h + i =~= s + (a + b + c + d + e + f + g + h + i));
}

/// One more part joined behind the first `i`: the part itself as the first,
/// a separator and the part otherwise.
pub proof fn lemma_join_step(base: Seq<char>, parts: Seq<Seq<char>>, sep: Seq<char>, i: nat)
    requires
        i < parts.len(),
    ensures
        base + join_upto(parts, sep, i + 1) == if i == 0 {
            base + join_upto(parts, sep, 0) + parts[0]
        } else {
            base + join_upto(parts, sep, i) + sep + parts[i as int]
        },
{
    if i == 0 {
        assert(base + join_upto(parts, sep, 1) =~= base + join_upto(parts, sep, 0) + parts[0]);
    } else {
        assert(base + join_upto(parts, sep, i + 1) =~= base + join_upto(parts, sep, i) + sep
            + parts[i as int]);
    }
}

/// One more part laid behind the first `i`.
pub proof fn lemma_concat_step(base: Seq<char>, parts: Seq<Seq<char>>, i: nat)
    requires
        i < parts.len(),
    ensures
        base + concat_upto(parts, i + 1) == base + concat_upto(parts, i) + parts[i as int],
{
    assert(base + concat_upto(parts, i + 1) =~= base + concat_upto(parts, i) + parts[i as int]);
}

/// Appending nothing leaves a text as it is.
pub proof fn lemma_cat_empty(s: Seq<char>)
    ensures
        s + Seq::<char>::empty() == s,
{
    assert(s + Seq::<char>::empty() =~= s);
}

} // verus!
