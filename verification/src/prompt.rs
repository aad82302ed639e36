//! The prompt: a banner with the working directory, and below it a glyph in
//! the colour of the last command's fate. A line that goes on is read at an
//! empty prompt.

use vstd::prelude::*;
use vstd::string::*;

verus! {

/// Which prompt is shown before a physical line is read.
#[derive(Clone, Copy, Debug, PartialEq, Eq)]
pub enum Prompt {
    /// The full prompt, in the colour of the last command's fate.
    Status { success: bool },
    /// The empty prompt of a line that goes on.
    Continuation,
}

/// Switches to bold face.
pub const ANSI_BOLD: &'static str = "\x1b[1m";

/// Switches to cyan.
pub const ANSI_COLOR_CYAN: &'static str = "\x1b[36m";

/// Switches to green.
pub const GREEN: &'static str = "\x1b[32m";

/// Switches to red.
pub const RED: &'static str = "\x1b[31m";

/// Switches colour and face off.
pub const RESET: &'static str = "\x1b[0m";

/// What stands before the working directory.
pub const BANNER: &'static str = "RUSHING IN ";

/// The glyph that carries the colour of the status.
pub const GLYPH: &'static str = "\u{2ba1}";

/// The colour for a status: green for success, red for failure.
pub open spec fn status_colour(success: bool) -> Seq<char> {
    if success {
        GREEN@
    } else {
        RED@
    }
}

/// The prompt for the working directory `cwd` after a command that ended with
/// `success`: the banner line, then the glyph and two blanks.
pub open spec fn prompt_text(cwd: Seq<char>, success: bool) -> Seq<char> {
    ANSI_BOLD@ + BANNER@ + ANSI_COLOR_CYAN@ + cwd + RESET@ + "\n"@ + ANSI_BOLD@ + status_colour(
        success,
    ) + GLYPH@ + RESET@ + "  "@
}

/// Builds the prompt for the working directory `cwd` after a command that ended
/// with `last_exit_status`.
pub fn generate_prompt(cwd: &str, last_exit_status: bool) -> (prompt: String)
    ensures
        prompt@ == prompt_text(cwd@, last_exit_status),
{
    let banner = String::from_str(ANSI_BOLD).concat(BANNER).concat(ANSI_COLOR_CYAN).concat(
        cwd,
    ).concat(RESET).concat("\n");
    let colour = if last_exit_status {
        GREEN
    } else {
        RED
    };
    banner.concat(ANSI_BOLD).concat(colour).concat(GLYPH).concat(RESET).concat("  ")
}

/// The text of `prompt` in the working directory `cwd`.
pub open spec fn rendered(prompt: Prompt, cwd: Seq<char>) -> Seq<char> {
    match prompt {
        Prompt::Status { success } => prompt_text(cwd, success),
        Prompt::Continuation => Seq::empty(),
    }
}

/// Builds the text of `prompt` in the working directory `cwd`.
pub fn render(prompt: Prompt, cwd: &str) -> (text: String)
    ensures
        text@ == rendered(prompt, cwd@),
{
    match prompt {
        Prompt::Status { success } => generate_prompt(cwd, success),
        Prompt::Continuation => String::new(),
    }
}

} // verus!
