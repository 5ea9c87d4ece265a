//! The ways in which rendering can fail, and how a failure among several
//! parts rendered in order is chosen.

use vstd::prelude::*;

verus! {

/// Why a tree could not be rendered.
#[derive(Clone, Copy, Debug, PartialEq, Eq)]
pub enum UnparseError {
    /// A byte-string literal is not valid UTF-8, so it cannot be carried
    /// as text.
    EncodingError,
    /// The tree holds a node that has no rendering: a formatted string, one
    /// of its interpolated values, or a pattern bound to no name.
    UnsupportedConstruct,
}

impl UnparseError {
    /// A short description of the error for people.
    pub fn message(&self) -> (text: String)
        ensures
            text@ == match *self {
                UnparseError::EncodingError => "byte-string literal is not valid UTF-8"@,
                UnparseError::UnsupportedConstruct => "the tree holds a node that has no rendering"@,
            },
    {
        match self {
            UnparseError::EncodingError => "byte-string literal is not valid UTF-8".to_owned(),
            UnparseError::UnsupportedConstruct => "the tree holds a node that has no rendering".to_owned(),
        }
    }
}

/// The result of a rendering step whose failure, if any, is `err`.
pub open spec fn outcome(err: Option<UnparseError>) -> Result<(), UnparseError> {
    match err {
        Some(e) => Err(e),
        None => Ok(()),
    }
}

/// The failure of two parts rendered one after the other: that of the
/// first part if it fails, else that of the second.
pub open spec fn or_error(first: Option<UnparseError>, second: Option<UnparseError>) -> Option<
    UnparseError,
> {
    match first {
        Some(e) => Some(e),
        None => second,
    }
}

/// The buffer after a part that may fail and what follows it: `reached`,
/// the buffer after the part, where the part fails with `err`, and
/// `beyond`, the buffer after what follows, where it does not.
pub open spec fn stopping(err: Option<UnparseError>, reached: Seq<char>, beyond: Seq<char>) -> Seq<
    char,
> {
    if err is Some {
        reached
    } else {
        beyond
    }
}

/// The first failure among `errs[i..]`.
pub open spec fn first_error_from(errs: Seq<Option<UnparseError>>, i: nat) -> Option<UnparseError>
    decreases errs.len() - i,
{
    if i >= errs.len() {
        None
    } else if errs[i as int] is Some {
        errs[i as int]
    } else {
        first_error_from(errs, i + 1)
    }
}

/// The failure of a list of parts rendered in order: the first one.
pub open spec fn first_error(errs: Seq<Option<UnparseError>>) -> Option<UnparseError> {
    first_error_from(errs, 0)
}

/// A list fails exactly when one of its parts fails, and then with the
/// failure of the first such part.
pub proof fn lemma_first_error_from(errs: Seq<Option<UnparseError>>, i: nat)
    ensures
        first_error_from(errs, i) is None <==> forall|j: int|
            i <= j < errs.len() ==> errs[j] is None,
        first_error_from(errs, i) is Some ==> exists|j: int|
            i <= j < errs.len() && errs[j] == first_error_from(errs, i) && forall|k: int|
                i <= k < j ==> errs[k] is None,
    decreases errs.len() - i,
{
    if i < errs.len() {
        lemma_first_error_from(errs, i + 1);
        if errs[i as int] is Some {
            assert(i <= i < errs.len() && errs[i as int] == first_error_from(errs, i));
        } else if first_error_from(errs, i) is Some {
            let j = choose|j: int|
                i + 1 <= j < errs.len() && errs[j] == first_error_from(errs, i + 1) && forall|k: int|
                    i + 1 <= k < j ==> errs[k] is None;
            assert(i <= j < errs.len() && errs[j] == first_error_from(errs, i) && forall|k: int|
                i <= k < j ==> errs[k] is None);
        }
    }
}

} // verus!
