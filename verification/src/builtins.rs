//! The commands that the shell carries out itself.

use vstd::prelude::*;
use vstd::string::*;
use crate::notice::{Notice, NoticeSpec, Tone, error_notice};
use crate::scan::optional_text;

verus! {

/// The built-in that ends the shell.
pub const EXIT: &'static str = "exit";

/// The built-in that changes the working directory.
pub const CD: &'static str = "cd";

/// What `notice` says, if there is one.
pub open spec fn notice_view(notice: Option<Notice>) -> Option<NoticeSpec> {
    match notice {
        Some(n) => Some(n@),
        None => None,
    }
}

/// What the user is told when the directory could not be changed for `reason`.
pub open spec fn change_dir_failed_text(reason: Seq<char>) -> Seq<char> {
    "Failed to change the directory!\n"@ + reason
}

/// What the user is told, if anything, after an attempt to change the
/// directory: `failure` is the reason why it failed, or nothing if it did not.
pub open spec fn change_dir_notice(failure: Option<Seq<char>>) -> Option<NoticeSpec> {
    match failure {
        Some(reason) => Some(error_notice(change_dir_failed_text(reason))),
        None => None,
    }
}

/// The status of `cd` and what the user is told, after the attempt to change
/// the directory: `failure` is the reason why it failed, or nothing if it did
/// not. Only a change that was made is a success.
pub fn change_dir(failure: Option<&str>) -> (outcome: (bool, Option<Notice>))
    ensures
        outcome.0 == (failure is None),
        notice_view(outcome.1) == change_dir_notice(optional_text(failure)),
{
    match failure {
        Some(reason) => {
            let text = String::from_str("Failed to change the directory!\n").concat(reason);
            (false, Some(Notice { tone: Tone::Error, text }))
        },
        None => (true, None),
    }
}

} // verus!
