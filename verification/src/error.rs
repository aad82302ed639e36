//! The errors that end the shell.

use vstd::prelude::*;
use vstd::string::*;

verus! {

/// Why the shell gave up.
#[derive(Clone, Copy, Debug, PartialEq, Eq)]
pub enum Failure {
    /// The environment does not name the user's home directory.
    Environment,
    /// No line could be read: the input ended, or the read was interrupted.
    Readline,
    /// The history could not be kept.
    History,
}

/// An error that ends the shell, with a note on where it arose.
#[derive(Clone, Debug, PartialEq, Eq)]
pub enum ProgramError {
    Environment(String),
    Readline(String),
    History(String),
}

/// What a [`ProgramError`] says.
pub enum ProgramErrorSpec {
    Environment(Seq<char>),
    Readline(Seq<char>),
    History(Seq<char>),
}

impl View for ProgramError {
    type V = ProgramErrorSpec;

    open spec fn view(&self) -> ProgramErrorSpec {
        match self {
            ProgramError::Environment(note) => ProgramErrorSpec::Environment(note@),
            ProgramError::Readline(note) => ProgramErrorSpec::Readline(note@),
            ProgramError::History(note) => ProgramErrorSpec::History(note@),
        }
    }
}

/// The error that stands for `failure`.
pub open spec fn error_of(failure: Failure) -> ProgramErrorSpec {
    match failure {
        Failure::Environment => ProgramErrorSpec::Environment("HOME is not set"@),
        Failure::Readline => ProgramErrorSpec::Readline("error during readline()"@),
        Failure::History => ProgramErrorSpec::History("error while keeping the history"@),
    }
}

/// What is shown to the user for an error.
pub open spec fn message_of(error: ProgramErrorSpec) -> Seq<char> {
    match error {
        ProgramErrorSpec::Environment(_) => "Error processing the environment"@,
        ProgramErrorSpec::Readline(_) => "Error processing readline input from prompt"@,
        ProgramErrorSpec::History(_) => "Error processing the command history"@,
    }
}

impl ProgramError {
    /// The error that stands for `failure`.
    pub fn new(failure: Failure) -> (error: ProgramError)
        ensures
            error@ == error_of(failure),
    {
        match failure {
            Failure::Environment => ProgramError::Environment(String::from_str("HOME is not set")),
            Failure::Readline => ProgramError::Readline(
                String::from_str("error during readline()"),
            ),
            Failure::History => ProgramError::History(
                String::from_str("error while keeping the history"),
            ),
        }
    }

    /// What is shown to the user for this error.
    pub fn message(&self) -> (text: String)
        ensures
            text@ == message_of(self@),
    {
        match self {
            ProgramError::Environment(_) => String::from_str("Error processing the environment"),
            ProgramError::Readline(_) => String::from_str(
                "Error processing readline input from prompt",
            ),
            ProgramError::History(_) => String::from_str("Error processing the command history"),
        }
    }
}

} // verus!
