//! The execution loop, as a machine that decides and never acts.
//!
//! The machine is in a state; the state asks for one action; the caller
//! carries the action out and reports what came of it as an event; the event
//! takes the machine to its next state. Reading, spawning, changing the
//! directory and ending the process are the caller's part. Which of them is
//! due, with what arguments, and what follows from its fate, is decided here.
//!
//! One thing the machine does itself: it enters each logical line into the
//! history, which the caller lends it for every step.
//!
//! A command without tokens is passed over in silence: it runs nothing and
//! leaves the status as it was. `cd` without a directory asks to change to the
//! empty path, which no system accepts, so it fails as any other wrong path
//! does.

use vstd::prelude::*;
use vstd::string::*;
use crate::builtins::{CD, EXIT};
use crate::error::{Failure, ProgramError, ProgramErrorSpec, error_of};
use crate::grammar::{CommandSpec, parse};
use crate::history::{
    NO_HISTORY, entries, history_path, history_path_of, recorded, remember, same_settings,
};
use crate::launcher::{Invocation, InvocationSpec, invocation_of};
use crate::prompt::Prompt;
use crate::reader::{Assembly, AssemblySpec, assemble, assembled};
use crate::scan::{optional_text, same_text};
use crate::tokens::{CommandGroup, DependentCommand, group_views, tokenize};
use rustyline::history::FileHistory;

verus! {

/// What the caller is asked to do.
#[derive(Clone, Debug, PartialEq, Eq)]
pub enum Action {
    /// Load the history from the file at `path`.
    LoadHistory { path: String },
    /// Tell the user `notice`, and create an empty history file at `path`.
    CreateHistory { path: String, notice: String },
    /// Show the prompt and read one physical line.
    Read { prompt: Prompt },
    /// Change the working directory to `path`.
    ChangeDir { path: String },
    /// Spawn the program, with the signals set in the new process as the
    /// invocation says, and wait for it unless it runs in the background.
    Launch { invocation: Invocation },
    /// Write the history to the file at `path`.
    SaveHistory { path: String },
    /// End the process with status 0.
    Exit,
    /// Report the error and end the process with status 1.
    Abort { error: ProgramError },
}

/// What an [`Action`] says.
pub enum ActionSpec {
    LoadHistory { path: Seq<char> },
    CreateHistory { path: Seq<char>, notice: Seq<char> },
    Read { prompt: Prompt },
    ChangeDir { path: Seq<char> },
    Launch { invocation: InvocationSpec },
    SaveHistory { path: Seq<char> },
    Exit,
    Abort { error: ProgramErrorSpec },
}

impl View for Action {
    type V = ActionSpec;

    open spec fn view(&self) -> ActionSpec {
        match self {
            Action::LoadHistory { path } => ActionSpec::LoadHistory { path: path@ },
            Action::CreateHistory { path, notice } => ActionSpec::CreateHistory {
                path: path@,
                notice: notice@,
            },
            Action::Read { prompt } => ActionSpec::Read { prompt: *prompt },
            Action::ChangeDir { path } => ActionSpec::ChangeDir { path: path@ },
            Action::Launch { invocation } => ActionSpec::Launch { invocation: invocation@ },
            Action::SaveHistory { path } => ActionSpec::SaveHistory { path: path@ },
            Action::Exit => ActionSpec::Exit,
            Action::Abort { error } => ActionSpec::Abort { error: error@ },
        }
    }
}

/// The status with which the process ends, for the actions that end it.
pub open spec fn exit_code_of(action: ActionSpec) -> Option<u8> {
    match action {
        ActionSpec::Exit => Some(0u8),
        ActionSpec::Abort { .. } => Some(1u8),
        _ => None,
    }
}

impl Action {
    /// The status with which the process ends, if this action ends it.
    pub fn exit_code(&self) -> (code: Option<u8>)
        ensures
            code == exit_code_of(self@),
    {
        match self {
            Action::Exit => Some(0),
            Action::Abort { .. } => Some(1),
            _ => None,
        }
    }
}

/// What came of the action that the caller was asked for.
#[derive(Clone, Debug, PartialEq, Eq)]
pub enum Event {
    /// A physical line was read.
    Line(String),
    /// No line could be read: the input ended, or the read was interrupted.
    ReadFailed,
    /// The action was carried out, and ended well or not.
    Done { success: bool },
}

/// What an [`Event`] says.
pub enum EventSpec {
    Line(Seq<char>),
    ReadFailed,
    Done { success: bool },
}

impl View for Event {
    type V = EventSpec;

    open spec fn view(&self) -> EventSpec {
        match self {
            Event::Line(line) => EventSpec::Line(line@),
            Event::ReadFailed => EventSpec::ReadFailed,
            Event::Done { success } => EventSpec::Done { success: *success },
        }
    }
}

/// Where the machine stands.
#[derive(Clone, Copy, Debug, PartialEq, Eq)]
pub enum Phase {
    /// The history of earlier sessions is being loaded.
    Loading,
    /// No history could be loaded: an empty history file is being created.
    Creating,
    /// About to read the first physical line of a logical line.
    Prompting,
    /// About to read a further physical line of a logical line.
    Continuing,
    /// A command of the line is being carried out.
    Dispatching,
    /// `exit` was met: the history is being written out.
    Saving,
    /// The shell has ended in good order.
    Exited,
    /// The shell has ended with an error.
    Failed { failure: Failure },
}

/// The state of the machine.
pub struct ShellState {
    /// How the last command that ran ended; true before any has run.
    pub status: bool,
    pub phase: Phase,
    /// The path of the history file.
    pub history: Seq<char>,
    /// While a line is read: what has been read of it.
    pub pending: Seq<char>,
    /// While a line is dispatched: its groups.
    pub groups: Seq<Seq<CommandSpec>>,
    /// While a line is dispatched: the group and, within it, the command that
    /// is being carried out.
    pub group: int,
    pub command: int,
}

/// A command that the machine hands out: it has a token, and is not `exit`.
pub open spec fn runnable(command: CommandSpec) -> bool {
    command.tokens.len() > 0 && command.tokens[0] != EXIT@
}

/// What carrying out a runnable command asks of the caller: `cd` changes the
/// directory to its first argument, anything else is a program to launch.
pub open spec fn action_of(command: CommandSpec) -> ActionSpec {
    if command.tokens[0] == CD@ {
        ActionSpec::ChangeDir {
            path: if command.tokens.len() > 1 {
                command.tokens[1]
            } else {
                Seq::empty()
            },
        }
    } else {
        ActionSpec::Launch { invocation: invocation_of(command.tokens, command.background) }
    }
}

/// Where the machine comes to stand in a line.
pub enum Place {
    /// Behind the last command: the line is done.
    End,
    /// At an `exit`.
    Exit,
    /// At a command to dispatch.
    Command { group: int, command: int },
}

/// Where the machine comes to stand when it looks for work from the place
/// `(group, command)` on: it passes over the commands without tokens and stops
/// at the first command that has one.
pub open spec fn seek(groups: Seq<Seq<CommandSpec>>, group: int, command: int) -> Place
    decreases groups.len() - group,
        if 0 <= group < groups.len() {
            groups[group].len() - command
        } else {
            0
        },
{
    if group < 0 || command < 0 || group >= groups.len() {
        Place::End
    } else if command >= groups[group].len() {
        seek(groups, group + 1, 0)
    } else if groups[group][command].tokens.len() == 0 {
        seek(groups, group, command + 1)
    } else if groups[group][command].tokens[0] == EXIT@ {
        Place::Exit
    } else {
        Place::Command { group, command }
    }
}

/// The state in which the machine starts, for a user whose home directory is
/// `home`: nothing has failed yet, and the history is about to be loaded.
/// Without a home directory the machine cannot start.
pub open spec fn initial(home: Option<Seq<char>>) -> ShellState {
    ShellState {
        status: true,
        phase: match home {
            Some(_) => Phase::Loading,
            None => Phase::Failed { failure: Failure::Environment },
        },
        history: match home {
            Some(h) => history_path_of(h),
            None => Seq::empty(),
        },
        pending: Seq::empty(),
        groups: Seq::empty(),
        group: 0,
        command: 0,
    }
}

impl ShellState {
    /// What every state of the machine satisfies.
    pub open spec fn wf(self) -> bool {
        &&& self.phase == Phase::Dispatching ==> {
            &&& 0 <= self.group < self.groups.len()
            &&& 0 <= self.command < self.groups[self.group].len()
            &&& runnable(self.groups[self.group][self.command])
        }
        &&& self.phase != Phase::Dispatching ==> {
            &&& self.groups.len() == 0
            &&& self.group == 0
            &&& self.command == 0
        }
        &&& self.phase != Phase::Continuing ==> self.pending.len() == 0
    }

    /// What the state asks of the caller.
    pub open spec fn action(self) -> ActionSpec {
        match self.phase {
            Phase::Loading => ActionSpec::LoadHistory { path: self.history },
            Phase::Creating => ActionSpec::CreateHistory {
                path: self.history,
                notice: NO_HISTORY@,
            },
            Phase::Prompting => ActionSpec::Read { prompt: Prompt::Status { success: self.status } },
            Phase::Continuing => ActionSpec::Read { prompt: Prompt::Continuation },
            Phase::Dispatching => action_of(self.groups[self.group][self.command]),
            Phase::Saving => ActionSpec::SaveHistory { path: self.history },
            Phase::Exited => ActionSpec::Exit,
            Phase::Failed { failure } => ActionSpec::Abort { error: error_of(failure) },
        }
    }

    /// The state in `phase` with no line at hand.
    pub open spec fn rest(self, phase: Phase) -> ShellState {
        ShellState {
            phase,
            pending: Seq::empty(),
            groups: Seq::empty(),
            group: 0,
            command: 0,
            ..self
        }
    }

    /// The logical line that `event` completes, if it completes one: the
    /// event is a physical line, the machine was reading, and what has been
    /// read does not ask to be continued.
    pub open spec fn entered(self, event: EventSpec) -> Option<Seq<char>> {
        match event {
            EventSpec::Line(physical) => if self.phase == Phase::Prompting || self.phase
                == Phase::Continuing {
                match assembled(self.pending, physical) {
                    AssemblySpec::Partial { .. } => None,
                    AssemblySpec::Complete { line } => Some(line),
                }
            } else {
                None
            },
            _ => None,
        }
    }

    /// The state after the physical line `physical` was read: the line goes
    /// on, or it is complete and the machine looks for work in it.
    pub open spec fn take_line(self, physical: Seq<char>) -> ShellState {
        match assembled(self.pending, physical) {
            AssemblySpec::Partial { text } => ShellState {
                phase: Phase::Continuing,
                pending: text,
                ..self
            },
            AssemblySpec::Complete { line } => self.arrive(
                self.status,
                parse(line),
                seek(parse(line), 0, 0),
            ),
        }
    }

    /// The state with the status `status` at the place `place` of the line
    /// whose groups are `groups`: at its end the next line is read, at an
    /// `exit` the history is saved, at a command that command is dispatched.
    pub open spec fn arrive(
        self,
        status: bool,
        groups: Seq<Seq<CommandSpec>>,
        place: Place,
    ) -> ShellState {
        match place {
            Place::End => ShellState { status, ..self }.rest(Phase::Prompting),
            Place::Exit => ShellState { status, ..self }.rest(Phase::Saving),
            Place::Command { group, command } => ShellState {
                status,
                phase: Phase::Dispatching,
                pending: Seq::empty(),
                groups,
                group,
                command,
                ..self
            },
        }
    }

    /// The state after the command that was dispatched has ended: its fate is
    /// the status, and the machine looks for work behind it if it ended well,
    /// from the next group on if it did not.
    pub open spec fn complete(self, success: bool) -> ShellState {
        if success {
            self.arrive(success, self.groups, seek(self.groups, self.group, self.command + 1))
        } else {
            self.arrive(success, self.groups, seek(self.groups, self.group + 1, 0))
        }
    }

    /// The state that `event` leads to. An event that does not answer what the
    /// state asked for changes nothing.
    pub open spec fn step(self, event: EventSpec) -> ShellState {
        match self.phase {
            Phase::Loading => match event {
                EventSpec::Done { success } => if success {
                    self.rest(Phase::Prompting)
                } else {
                    self.rest(Phase::Creating)
                },
                _ => self,
            },
            Phase::Creating => match event {
                EventSpec::Done { success } => if success {
                    self.rest(Phase::Prompting)
                } else {
                    self.rest(Phase::Failed { failure: Failure::History })
                },
                _ => self,
            },
            Phase::Prompting | Phase::Continuing => match event {
                EventSpec::Line(physical) => self.take_line(physical),
                EventSpec::ReadFailed => self.rest(Phase::Failed { failure: Failure::Readline }),
                EventSpec::Done { .. } => self,
            },
            Phase::Dispatching => match event {
                EventSpec::Done { success } => self.complete(success),
                _ => self,
            },
            Phase::Saving => match event {
                EventSpec::Done { success } => if success {
                    self.rest(Phase::Exited)
                } else {
                    self.rest(Phase::Failed { failure: Failure::History })
                },
                _ => self,
            },
            Phase::Exited | Phase::Failed { .. } => self,
        }
    }
}

/// What a step does to the history: a logical line that the step completes is
/// entered, and nothing else is done to it.
pub open spec fn history_follows(
    line: Option<Seq<char>>,
    before: FileHistory,
    after: FileHistory,
) -> bool {
    match line {
        Some(l) => entries(after) == recorded(before, l) && same_settings(before, after),
        None => after == before,
    }
}

/// The machine.
pub struct Shell {
    status: bool,
    phase: Phase,
    history: String,
    pending: String,
    groups: Vec<CommandGroup>,
    group: usize,
    command: usize,
}

impl View for Shell {
    type V = ShellState;

    closed spec fn view(&self) -> ShellState {
        ShellState {
            status: self.status,
            phase: self.phase,
            history: self.history@,
            pending: self.pending@,
            groups: group_views(self.groups@),
            group: self.group as int,
            command: self.command as int,
        }
    }
}

/// What carrying out `command` asks of the caller: `cd` changes the directory
/// to its first argument, anything else is a program to launch.
pub fn action_for(command: &DependentCommand) -> (action: Action)
    requires
        runnable(command@),
    ensures
        action@ == action_of(command@),
{
    if same_text(command.tokens[0].as_str(), CD) {
        let path = if command.tokens.len() > 1 {
            command.tokens[1].clone()
        } else {
            String::new()
        };
        Action::ChangeDir { path }
    } else {
        Action::Launch { invocation: Invocation::new(&command.tokens, command.background) }
    }
}

/// Where the machine comes to stand in a line.
enum Target {
    End,
    Exit,
    Command { group: usize, command: usize },
}

impl View for Target {
    type V = Place;

    closed spec fn view(&self) -> Place {
        match self {
            Target::End => Place::End,
            Target::Exit => Place::Exit,
            Target::Command { group, command } => Place::Command {
                group: *group as int,
                command: *command as int,
            },
        }
    }
}

/// Looks for work from the place `(group, command)` on.
fn find(groups: &Vec<CommandGroup>, group: usize, command: usize) -> (target: Target)
    ensures
        target@ == seek(group_views(groups@), group as int, command as int),
        target matches Target::Command { group: g, command: c } ==> {
            &&& g < groups.len()
            &&& c < groups[g as int].chain.commands.len()
            &&& runnable(groups[g as int].chain.commands[c as int]@)
        },
{
    let mut g = group;
    let mut c = command;
    while g < groups.len()
        invariant
            seek(group_views(groups@), g as int, c as int) == seek(
                group_views(groups@),
                group as int,
                command as int,
            ),
        decreases groups.len() - g,
            if g < groups.len() {
                groups[g as int].chain.commands.len() - c
            } else {
                0
            },
    {
        if c >= groups[g].chain.commands.len() {
            g += 1;
            c = 0;
        } else {
            if groups[g].chain.commands[c].tokens.len() == 0 {
                c += 1;
            } else if same_text(groups[g].chain.commands[c].tokens[0].as_str(), EXIT) {
                return Target::Exit;
            } else {
                return Target::Command { group: g, command: c };
            }
        }
    }
    Target::End
}

impl Shell {
    #[verifier::type_invariant]
    spec fn well_formed(self) -> bool {
        self@.wf()
    }

    /// The machine in `phase`, with no line at hand.
    fn at_rest(status: bool, phase: Phase, history: String) -> (shell: Shell)
        requires
            phase != Phase::Dispatching,
            phase != Phase::Continuing,
        ensures
            shell@.status == status,
            shell@.history == history@,
            shell@ == shell@.rest(phase),
    {
        let shell = Shell {
            status,
            phase,
            history,
            pending: String::new(),
            groups: Vec::new(),
            group: 0,
            command: 0,
        };
        assert(shell@.groups == Seq::<Seq<CommandSpec>>::empty());
        shell
    }

    /// The machine at `target` in the line whose groups are `groups`.
    fn arrived(status: bool, history: String, groups: Vec<CommandGroup>, target: Target) -> (shell:
        Shell)
        requires
            target matches Target::Command { group: g, command: c } ==> {
                &&& g < groups.len()
                &&& c < groups[g as int].chain.commands.len()
                &&& runnable(groups[g as int].chain.commands[c as int]@)
            },
        ensures
            shell@.status == status,
            shell@.history == history@,
            shell@ == shell@.arrive(status, group_views(groups@), target@),
    {
        match target {
            Target::End => Shell::at_rest(status, Phase::Prompting, history),
            Target::Exit => Shell::at_rest(status, Phase::Saving, history),
            Target::Command { group, command } => Shell {
                status,
                phase: Phase::Dispatching,
                history,
                pending: String::new(),
                groups,
                group,
                command,
            },
        }
    }

    /// The machine at its start, for a user whose home directory is `home`.
    pub fn new(home: Option<&str>) -> (shell: Shell)
        ensures
            shell@ == initial(optional_text(home)),
            shell@.wf(),
    {
        match home {
            Some(h) => Shell::at_rest(true, Phase::Loading, history_path(h)),
            None => Shell::at_rest(
                true,
                Phase::Failed { failure: Failure::Environment },
                String::new(),
            ),
        }
    }

    /// How the last command that ran ended.
    pub fn last_exit_status(&self) -> (status: bool)
        ensures
            status == self@.status,
    {
        self.status
    }

    /// Where the machine stands.
    pub fn phase(&self) -> (phase: Phase)
        ensures
            phase == self@.phase,
    {
        self.phase
    }

    /// What the machine asks of the caller.
    pub fn action(&self) -> (action: Action)
        ensures
            action@ == self@.action(),
    {
        proof {
            use_type_invariant(self);
        }
        match self.phase {
            Phase::Loading => Action::LoadHistory { path: self.history.clone() },
            Phase::Creating => Action::CreateHistory {
                path: self.history.clone(),
                notice: String::from_str(NO_HISTORY),
            },
            Phase::Prompting => Action::Read { prompt: Prompt::Status { success: self.status } },
            Phase::Continuing => Action::Read { prompt: Prompt::Continuation },
            Phase::Dispatching => {
                action_for(&self.groups[self.group].chain.commands[self.command])
            },
            Phase::Saving => Action::SaveHistory { path: self.history.clone() },
            Phase::Exited => Action::Exit,
            Phase::Failed { failure } => Action::Abort { error: ProgramError::new(failure) },
        }
    }

    /// Takes the machine to its next state, and tells what that state asks of
    /// the caller. A logical line that `event` completes is entered into
    /// `history`.
    pub fn step(self, event: Event, history: &mut FileHistory) -> (next: (Shell, Action))
        ensures
            next.0@ == self@.step(event@),
            next.0@.wf(),
            next.1@ == next.0@.action(),
            history_follows(self@.entered(event@), *old(history), *final(history)),
    {
        let shell = self.advance(event, history);
        proof {
            use_type_invariant(&shell);
        }
        let action = shell.action();
        (shell, action)
    }

    /// The machine in the state that `event` leads to.
    fn advance(self, event: Event, history: &mut FileHistory) -> (next: Shell)
        ensures
            next@ == self@.step(event@),
            history_follows(self@.entered(event@), *old(history), *final(history)),
    {
        proof {
            use_type_invariant(&self);
        }
        match self.phase {
            Phase::Loading => match event {
                Event::Done { success } => {
                    if success {
                        Shell::at_rest(self.status, Phase::Prompting, self.history)
                    } else {
                        Shell::at_rest(self.status, Phase::Creating, self.history)
                    }
                },
                _ => self,
            },
            Phase::Creating => match event {
                Event::Done { success } => {
                    if success {
                        Shell::at_rest(self.status, Phase::Prompting, self.history)
                    } else {
                        Shell::at_rest(
                            self.status,
                            Phase::Failed { failure: Failure::History },
                            self.history,
                        )
                    }
                },
                _ => self,
            },
            Phase::Prompting | Phase::Continuing => match event {
                Event::Line(physical) => {
                    match assemble(self.pending, physical.as_str()) {
                        Assembly::Partial { text } => Shell {
                            status: self.status,
                            phase: Phase::Continuing,
                            history: self.history,
                            pending: text,
                            groups: self.groups,
                            group: 0,
                            command: 0,
                        },
                        Assembly::Complete { line } => {
                            remember(history, line.as_str());
                            let groups = tokenize(line.as_str());
                            let target = find(&groups, 0, 0);
                            Shell::arrived(self.status, self.history, groups, target)
                        },
                    }
                },
                Event::ReadFailed => Shell::at_rest(
                    self.status,
                    Phase::Failed { failure: Failure::Readline },
                    self.history,
                ),
                Event::Done { .. } => self,
            },
            Phase::Dispatching => match event {
                Event::Done { success } => {
                    assert(self.group < self.groups.len());
                    assert(self.command < self.groups[self.group as int].chain.commands.len());
                    let target = if success {
                        find(&self.groups, self.group, self.command + 1)
                    } else {
                        find(&self.groups, self.group + 1, 0)
                    };
                    Shell::arrived(success, self.history, self.groups, target)
                },
                _ => self,
            },
            Phase::Saving => match event {
                Event::Done { success } => {
                    if success {
                        Shell::at_rest(self.status, Phase::Exited, self.history)
                    } else {
                        Shell::at_rest(
                            self.status,
                            Phase::Failed { failure: Failure::History },
                            self.history,
                        )
                    }
                },
                _ => self,
            },
            Phase::Exited | Phase::Failed { .. } => self,
        }
    }
}

} // verus!
