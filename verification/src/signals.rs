//! What becomes of the signals that the terminal sends.
//!
//! The shell itself is not to be ended by an interrupt or a quit that is meant
//! for the program in the foreground, so it ignores both for as long as it
//! lives. A program that it spawns must not inherit that: before it starts, both
//! signals get their default effect back.

use vstd::prelude::*;

verus! {

/// A signal that the user can send from the terminal.
#[derive(Clone, Copy, Debug, PartialEq, Eq)]
pub enum Signal {
    Interrupt,
    Quit,
}

/// What a process does with a signal.
#[derive(Clone, Copy, Debug, PartialEq, Eq)]
pub enum Disposition {
    Ignore,
    Default,
}

/// A process that the signal policy speaks of.
#[derive(Clone, Copy, Debug, PartialEq, Eq)]
pub enum Role {
    /// The shell itself.
    Shell,
    /// A program that the shell has spawned, before it starts.
    Child,
}

/// The policy: the shell ignores, a child does not.
pub open spec fn policy(role: Role, signal: Signal) -> Disposition {
    match role {
        Role::Shell => Disposition::Ignore,
        Role::Child => Disposition::Default,
    }
}

/// What the process in `role` does with `signal`.
pub fn disposition(role: Role, signal: Signal) -> (d: Disposition)
    ensures
        d == policy(role, signal),
{
    match role {
        Role::Shell => Disposition::Ignore,
        Role::Child => Disposition::Default,
    }
}

/// What the process in `role` does with each signal that the policy speaks
/// of.
pub open spec fn policy_of(role: Role) -> Seq<(Signal, Disposition)> {
    seq![
        (Signal::Interrupt, policy(role, Signal::Interrupt)),
        (Signal::Quit, policy(role, Signal::Quit)),
    ]
}

/// What the process in `role` is to do with each signal that the policy
/// speaks of.
pub fn policy_for(role: Role) -> (all: Vec<(Signal, Disposition)>)
    ensures
        all@ == policy_of(role),
{
    let mut all: Vec<(Signal, Disposition)> = Vec::new();
    all.push((Signal::Interrupt, disposition(role, Signal::Interrupt)));
    all.push((Signal::Quit, disposition(role, Signal::Quit)));
    all
}

} // verus!
