//! Putting a logical line together from the physical lines that are read.
//!
//! A backslash at the end of what has been read so far asks for more: it is
//! taken off, and the next physical line is appended. The line is complete as
//! soon as the text does not end with a backslash.

use vstd::prelude::*;
use vstd::string::*;
use crate::text::CONTINUATION_MARKER;

verus! {

/// The text asks to be continued: its last character is the backslash.
pub open spec fn continues(s: Seq<char>) -> bool {
    s.len() > 0 && s.last() == CONTINUATION_MARKER
}

/// What has been put together after one more physical line.
#[derive(Clone, Debug, PartialEq, Eq)]
pub enum Assembly {
    /// The line goes on: `text` is what stands so far, the marker taken off.
    Partial { text: String },
    /// The logical line is complete.
    Complete { line: String },
}

/// What an [`Assembly`] says.
pub enum AssemblySpec {
    Partial { text: Seq<char> },
    Complete { line: Seq<char> },
}

impl View for Assembly {
    type V = AssemblySpec;

    open spec fn view(&self) -> AssemblySpec {
        match self {
            Assembly::Partial { text } => AssemblySpec::Partial { text: text@ },
            Assembly::Complete { line } => AssemblySpec::Complete { line: line@ },
        }
    }
}

/// What `pending`, the text read so far, becomes with the physical line
/// `physical` appended.
pub open spec fn assembled(pending: Seq<char>, physical: Seq<char>) -> AssemblySpec {
    let joined = pending + physical;
    if continues(joined) {
        AssemblySpec::Partial { text: joined.drop_last() }
    } else {
        AssemblySpec::Complete { line: joined }
    }
}

/// Appends the physical line `physical` to `pending`, the text read so far,
/// and tells whether the logical line is complete.
pub fn assemble(pending: String, physical: &str) -> (r: Assembly)
    ensures
        r@ == assembled(pending@, physical@),
{
    let joined = pending.concat(physical);
    let n = joined.as_str().unicode_len();
    if n > 0 && joined.as_str().get_char(n - 1) == CONTINUATION_MARKER {
        Assembly::Partial { text: joined.as_str().substring_char(0, n - 1).to_owned() }
    } else {
        Assembly::Complete { line: joined }
    }
}

/// Of two physical lines, the first of which ends with a backslash, the
/// logical line is the first without its backslash, followed by the second;
/// unless that in turn ends with a backslash: then the line goes on.
pub proof fn lemma_two_lines(first: Seq<char>, second: Seq<char>)
    requires
        continues(first),
    ensures
        assembled(Seq::empty(), first) == (AssemblySpec::Partial { text: first.drop_last() }),
        !continues(first.drop_last() + second) ==> assembled(first.drop_last(), second) == (
        AssemblySpec::Complete { line: first.drop_last() + second }),
{
}

} // verus!
