//! Failing softly: an answer that may be absent, and what to do when a file
//! cannot be opened.

use crate::text::{chars_of, line_bounds, lines};
use vstd::prelude::*;

verus! {

/// The last character of the first line of `text`; none where the text is
/// empty or its first line is.
pub open spec fn last_of_first_line(text: Seq<char>) -> Option<char> {
    let all = lines(text);
    if all.len() > 0 && all[0].len() > 0 {
        Some(all[0].last())
    } else {
        None
    }
}

/// The last character of the first line of `text`, if there is one.
pub fn question_mark_option(text: &str) -> (last: Option<char>)
    ensures
        last == last_of_first_line(text@),
{
    let chars = chars_of(text);
    let bounds = line_bounds(&chars);
    if bounds.len() == 0 {
        return None;
    }
    let (from, to) = bounds[0];
    proof {
        assert(bounds@[0].0 == from);
        assert(chars@.subrange(from as int, to as int) == lines(text@)[0]);
    }
    if from == to {
        None
    } else {
        Some(chars[to - 1])
    }
}

/// Why a file could not be opened.
#[derive(Debug, PartialEq, Eq, Copy, Clone, Structural)]
pub enum OpenFailure {
    /// There is no such file.
    NotFound,
    /// Anything else.
    Other,
}

/// What to do about a file that could not be opened.
#[derive(Debug, PartialEq, Eq, Copy, Clone, Structural)]
pub enum Recovery {
    /// Create the file and go on with the new one.
    CreateFile,
    /// Stop: nothing can be done here.
    GiveUp,
}

/// What to do about a file that could not be opened: a missing file is
/// created, any other failure ends the attempt.
pub fn recover_from(failure: OpenFailure) -> (recovery: Recovery)
    ensures
        recovery == (match failure {
            OpenFailure::NotFound => Recovery::CreateFile,
            OpenFailure::Other => Recovery::GiveUp,
        }),
{
    match failure {
        OpenFailure::NotFound => Recovery::CreateFile,
        OpenFailure::Other => Recovery::GiveUp,
    }
}

} // verus!
