//! The history of the lines that were entered: where its file lies, and what
//! entering a line does to it.
//!
//! The history itself is rustyline's `FileHistory`, the one that its line
//! editor recalls lines from. What is said of it here is taken on trust from
//! rustyline's source.

use vstd::prelude::*;
use vstd::string::*;
use rustyline::history::{FileHistory, History};
use crate::text::is_space;

verus! {

/// The name of the history file, as it follows the user's home directory.
pub const HISTORY_FILE: &'static str = "/.rush_history";

/// What the user is told when no history could be loaded.
pub const NO_HISTORY: &'static str = "No previous history.";

/// The path of the history file of the user whose home directory is `home`.
pub open spec fn history_path_of(home: Seq<char>) -> Seq<char> {
    home + HISTORY_FILE@
}

/// The path of the history file of the user whose home directory is `home`.
pub fn history_path(home: &str) -> (path: String)
    ensures
        path@ == history_path_of(home@),
{
    String::from_str(home).concat(HISTORY_FILE)
}

/// rustyline's `FileHistory`. Nothing is known of what is inside it but what
/// the functions below say.
#[verifier::external_type_specification]
#[verifier::external_body]
pub struct ExFileHistory(rustyline::history::FileHistory);

/// The lines that the history holds, the oldest first.
pub uninterp spec fn entries(history: FileHistory) -> Seq<Seq<char>>;

/// The number of lines that the history was made to hold at most.
pub uninterp spec fn capacity(history: FileHistory) -> nat;

/// Whether the history was made to pass over lines that begin with white
/// space.
pub uninterp spec fn skips_indented(history: FileHistory) -> bool;

/// Whether the history was made to pass over a line that repeats the one
/// entered last.
pub uninterp spec fn skips_repeats(history: FileHistory) -> bool;

/// The history does not take `line` up: it holds nothing at all, or the line
/// is empty, or it is one of those that the history was made to pass over.
pub open spec fn passed_over(history: FileHistory, line: Seq<char>) -> bool {
    ||| capacity(history) == 0
    ||| line.len() == 0
    ||| (skips_indented(history) && is_space(line[0]))
    ||| (skips_repeats(history) && entries(history).len() > 0 && entries(history).last() == line)
}

/// The lines that the history holds after `line` was entered: a line that is
/// taken up goes to the end, and the oldest line leaves if the history is
/// full.
pub open spec fn recorded(history: FileHistory, line: Seq<char>) -> Seq<Seq<char>> {
    if passed_over(history, line) {
        entries(history)
    } else if entries(history).len() == capacity(history) {
        entries(history).drop_first().push(line)
    } else {
        entries(history).push(line)
    }
}

/// Enters `line` into the history and tells whether the history took it up.
///
/// This calls rustyline's `History::add` on its `FileHistory`, and nothing
/// here is proved of it. What is claimed is what the source of
/// `FileHistory::add`, and of the `MemHistory` that it hands the line to,
/// shows: the line is passed over in the four cases of [`passed_over`];
/// otherwise it is appended, after the oldest line has been dropped if the
/// history holds as many lines as it may; what the history was made with does
/// not change; and the call returns no error.
#[verifier::external_body]
pub(crate) fn remember(history: &mut FileHistory, line: &str) -> (taken: bool)
    ensures
        taken == !passed_over(*old(history), line@),
        entries(*final(history)) == recorded(*old(history), line@),
        capacity(*final(history)) == capacity(*old(history)),
        skips_indented(*final(history)) == skips_indented(*old(history)),
        skips_repeats(*final(history)) == skips_repeats(*old(history)),
{
    history.add(line).unwrap_or(false)
}

/// What the history was made with is the same in `before` and in `after`.
pub open spec fn same_settings(before: FileHistory, after: FileHistory) -> bool {
    &&& capacity(after) == capacity(before)
    &&& skips_indented(after) == skips_indented(before)
    &&& skips_repeats(after) == skips_repeats(before)
}

/// A line that the history takes up is its last line afterwards, a line that
/// it passes over changes nothing, and a history that was not over its limit
/// is not over it afterwards.
pub proof fn lemma_recorded(history: FileHistory, line: Seq<char>)
    ensures
        !passed_over(history, line) ==> recorded(history, line).len() > 0 && recorded(
            history,
            line,
        ).last() == line,
        passed_over(history, line) ==> recorded(history, line) == entries(history),
        entries(history).len() <= capacity(history) ==> recorded(history, line).len() <= capacity(
            history,
        ),
{
}

} // verus!
