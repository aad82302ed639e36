//! The core of an interactive command shell: the grammar that turns a line of
//! input into commands, and the rules that decide what is run next.
//!
//! A line is a sequence of groups, set apart by `;`. A group holds a chain
//! of commands, set apart by `|`: a command of a chain runs only if the one
//! before it succeeded, while a group runs whatever became of the groups
//! before it. No pipe is set up between the commands of a chain. A command is
//! a program with its arguments, set apart by white space; a last word `&`
//! sends it to the background. `cd` and `exit` are carried out by the shell
//! itself.
//!
//! Nothing here touches a terminal, a file or a process. [`tokens`] reads a
//! line, [`shell`] is the machine that says what is to be done next, and
//! [`launcher`], [`builtins`] and [`prompt`] hold the rules for what the
//! machine asks for. [`grammar`], [`split`] and [`dispatch`] state what all of
//! this means, and prove what holds of it.

pub mod builtins;
pub mod dispatch;
pub mod error;
pub mod grammar;
pub mod history;
pub mod launcher;
pub mod notice;
pub mod prompt;
pub mod reader;
pub mod scan;
pub mod shell;
pub mod signals;
pub mod split;
pub mod text;
pub mod tokens;
