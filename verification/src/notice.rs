//! Messages for the user.

use vstd::prelude::*;

verus! {

/// Whether a message tells of a success or of an error.
#[derive(Clone, Copy, Debug, PartialEq, Eq)]
pub enum Tone {
    Success,
    Error,
}

/// A message for the user.
#[derive(Clone, Debug, PartialEq, Eq)]
pub struct Notice {
    pub tone: Tone,
    pub text: String,
}

/// What a [`Notice`] says.
pub struct NoticeSpec {
    pub tone: Tone,
    pub text: Seq<char>,
}

impl View for Notice {
    type V = NoticeSpec;

    open spec fn view(&self) -> NoticeSpec {
        NoticeSpec { tone: self.tone, text: self.text@ }
    }
}

/// The message of tone `Success` that says `text`.
pub open spec fn success_notice(text: Seq<char>) -> NoticeSpec {
    NoticeSpec { tone: Tone::Success, text }
}

/// The message of tone `Error` that says `text`.
pub open spec fn error_notice(text: Seq<char>) -> NoticeSpec {
    NoticeSpec { tone: Tone::Error, text }
}

} // verus!
