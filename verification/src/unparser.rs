//! The renderer: a text buffer that only grows, and the current depth of
//! indentation.

use crate::error::{outcome, UnparseError};
use crate::text::{indent_text, line_start};
use vstd::prelude::*;
use vstd::string::*;

verus! {

/// The state of one rendering session. `source` is the text written so
/// far; `indent` is the depth of the block that is being written, zero at
/// the top level.
pub struct Unparser {
    pub source: String,
    pub indent: usize,
}

/// What a rendering step does to the renderer.
///
/// The step succeeds exactly when `err` is `None`, and otherwise fails with
/// the error in `err`. Where it succeeds, it has appended `text` to the
/// buffer and left the depth of indentation as it was. Where it fails, the
/// buffer still starts with what it held before: what the step wrote
/// before the failure stays behind it and is of no use.
pub open spec fn rendered(
    pre: Unparser,
    post: Unparser,
    result: Result<(), UnparseError>,
    err: Option<UnparseError>,
    text: Seq<char>,
) -> bool {
    &&& result == outcome(err)
    &&& result is Ok ==> post.source@ == pre.source@ + text && post.indent == pre.indent
    &&& pre.source@.is_prefix_of(post.source@)
}

/// What a rendering step does to the renderer, with all that it leaves in
/// the buffer: as `rendered` says, and the buffer holds `after`, whether
/// the step succeeds or fails. Where the step fails, `after` is the old
/// buffer and what the step wrote up to the failure, so that the buffer is
/// the same wherever the same step is taken from the same buffer.
pub open spec fn rendered_onto(
    pre: Unparser,
    post: Unparser,
    result: Result<(), UnparseError>,
    err: Option<UnparseError>,
    text: Seq<char>,
    after: Seq<char>,
) -> bool {
    &&& rendered(pre, post, result, err, text)
    &&& post.source@ == after
}

impl Unparser {
    /// A renderer with an empty buffer at the top level.
    pub fn new() -> (unparser: Unparser)
        ensures
            unparser.source@ == Seq::<char>::empty(),
            unparser.indent == 0,
    {
        Unparser { source: String::new(), indent: 0 }
    }

    /// Appends `str_` to the buffer.
    pub fn write_str(&mut self, str_: &str)
        ensures
            final(self).source@ == old(self).source@ + str_@,
            final(self).indent == old(self).indent,
    {
        self.source.append(str_);
    }

    /// Starts a new line at the current depth and writes `str_` on it.
    pub fn fill(&mut self, str_: &str)
        ensures
            final(self).source@ == old(self).source@ + (line_start(old(self).indent as nat) + str_@),
            final(self).indent == old(self).indent,
    {
        self.source.append("\n");
        let mut level: usize = 0;
        while level < self.indent
            invariant
                level <= self.indent,
                self.indent == old(self).indent,
                self.source@ == old(self).source@ + "\n"@ + indent_text(level as nat),
            decreases self.indent - level,
        {
            self.source.append("    ");
            level += 1;
            assert(self.source@ =~= old(self).source@ + "\n"@ + indent_text(level as nat));
        }
        self.source.append(str_);
        assert(self.source@ =~= old(self).source@ + (line_start(old(self).indent as nat) + str_@));
    }
}

} // verus!
