//! Launching a program: what is spawned, and what its fate means to the shell.
//!
//! Spawning and waiting are for the caller. The rules are here: a command in
//! the foreground is waited for and its success is the status; a command in the
//! background is never waited for and counts as a success once it runs; a
//! program that cannot be spawned is a failure.

use vstd::prelude::*;
use vstd::string::*;
use crate::notice::{Notice, NoticeSpec, Tone, error_notice, success_notice};
use crate::scan::views;
use crate::signals::{Disposition, Role, Signal, policy_for, policy_of};
use crate::text::{decimal, decimal_string};

verus! {

/// A program to spawn.
#[derive(Clone, Debug, PartialEq, Eq)]
pub struct Invocation {
    pub program: String,
    pub args: Vec<String>,
    pub background: bool,
    /// What the new process is to do with the signals of the terminal, set
    /// before the program starts.
    pub signals: Vec<(Signal, Disposition)>,
}

/// What an [`Invocation`] says.
pub struct InvocationSpec {
    pub program: Seq<char>,
    pub args: Seq<Seq<char>>,
    pub background: bool,
    pub signals: Seq<(Signal, Disposition)>,
}

impl View for Invocation {
    type V = InvocationSpec;

    open spec fn view(&self) -> InvocationSpec {
        InvocationSpec {
            program: self.program@,
            args: views(self.args@),
            background: self.background,
            signals: self.signals@,
        }
    }
}

/// The invocation that `tokens` ask for: the first names the program, the
/// others are its arguments. The new process gets the default effect of the
/// signals back, which the shell itself ignores.
pub open spec fn invocation_of(tokens: Seq<Seq<char>>, background: bool) -> InvocationSpec {
    InvocationSpec {
        program: tokens[0],
        args: tokens.skip(1),
        background,
        signals: policy_of(Role::Child),
    }
}

impl Invocation {
    /// The invocation that `tokens` ask for.
    pub fn new(tokens: &Vec<String>, background: bool) -> (invocation: Invocation)
        requires
            tokens.len() > 0,
        ensures
            invocation@ == invocation_of(views(tokens@), background),
    {
        let program = tokens[0].clone();
        let mut args: Vec<String> = Vec::new();
        let mut k: usize = 1;
        while k < tokens.len()
            invariant
                1 <= k <= tokens.len(),
                args.len() == k - 1,
                forall|j: int| 0 <= j < args.len() ==> (#[trigger] args[j])@ == tokens[j + 1]@,
            decreases tokens.len() - k,
        {
            args.push(tokens[k].clone());
            k += 1;
        }
        assert(views(args@) == views(tokens@).skip(1));
        Invocation { program, args, background, signals: policy_for(Role::Child) }
    }
}

/// What became of an attempt to spawn a program.
#[derive(Clone, Copy, Debug, PartialEq, Eq)]
pub enum Spawned {
    /// The program could not be started: not found, not permitted.
    Failed,
    /// The program runs as process `pid`.
    Running { pid: u32 },
}

/// What is to be done once the attempt to spawn has been made.
#[derive(Clone, Debug, PartialEq, Eq)]
pub enum Progress {
    /// Wait for the process to end: its success is the status.
    Wait,
    /// Nothing is left to do: the status is `success`, and the user is told.
    Finished { success: bool, notice: Notice },
}

/// What a [`Progress`] says.
pub enum ProgressSpec {
    Wait,
    Finished { success: bool, notice: NoticeSpec },
}

impl View for Progress {
    type V = ProgressSpec;

    open spec fn view(&self) -> ProgressSpec {
        match self {
            Progress::Wait => ProgressSpec::Wait,
            Progress::Finished { success, notice } => ProgressSpec::Finished {
                success: *success,
                notice: notice@,
            },
        }
    }
}

/// What the user is told of a program that could not be spawned.
pub open spec fn not_found_text() -> Seq<char> {
    "Command not found!"@
}

/// What the user is told of the background process `pid`.
pub open spec fn started_text(pid: u32) -> Seq<char> {
    decimal(pid as nat) + " started!"@
}

/// What follows an attempt to spawn, for a command in the background or not.
pub open spec fn spawn_outcome(background: bool, spawned: Spawned) -> ProgressSpec {
    match spawned {
        Spawned::Failed => ProgressSpec::Finished {
            success: false,
            notice: error_notice(not_found_text()),
        },
        Spawned::Running { pid } => if background {
            ProgressSpec::Finished { success: true, notice: success_notice(started_text(pid)) }
        } else {
            ProgressSpec::Wait
        },
    }
}

/// Decides what follows an attempt to spawn. A background command is never
/// waited for, and is a success whenever it could be spawned.
pub fn after_spawn(background: bool, spawned: Spawned) -> (progress: Progress)
    ensures
        progress@ == spawn_outcome(background, spawned),
        background ==> progress@ is Finished,
        background && spawned is Running ==> progress@->success,
{
    match spawned {
        Spawned::Failed => Progress::Finished {
            success: false,
            notice: Notice { tone: Tone::Error, text: String::from_str("Command not found!") },
        },
        Spawned::Running { pid } => {
            if background {
                let text = decimal_string(pid).concat(" started!");
                Progress::Finished { success: true, notice: Notice { tone: Tone::Success, text } }
            } else {
                Progress::Wait
            }
        },
    }
}

/// The status of a foreground command once the wait is over: `waited` is how
/// the process ended, or nothing if it could not be waited for.
pub fn after_wait(waited: Option<bool>) -> (status: bool)
    ensures
        status == (waited == Some(true)),
{
    match waited {
        Some(ended_well) => ended_well,
        None => false,
    }
}

} // verus!
