//! What holds of the machine, whatever the line and whatever the fate of its
//! commands: which command is dispatched next, that a failure ends its chain,
//! and that only a command that ran decides the status.

use vstd::prelude::*;
use crate::builtins::EXIT;
use crate::grammar::{CommandSpec, parse};
use crate::reader::continues;
use crate::prompt::Prompt;
use crate::shell::{ActionSpec, EventSpec, Phase, Place, ShellState, runnable, seek};

verus! {

/// The place `(i, j)` of a line comes before the place `(g, c)`.
pub open spec fn before(i: int, j: int, g: int, c: int) -> bool {
    i < g || (i == g && j < c)
}

/// The line has a command at the place `(i, j)`.
pub open spec fn has_place(groups: Seq<Seq<CommandSpec>>, i: int, j: int) -> bool {
    0 <= i < groups.len() && 0 <= j < groups[i].len()
}

/// From the place `(g, c)` up to, not including, the place `(i, j)` no command
/// of the line has a token.
pub open spec fn nothing_between(
    groups: Seq<Seq<CommandSpec>>,
    g: int,
    c: int,
    i: int,
    j: int,
) -> bool {
    forall|x: int, y: int|
        has_place(groups, x, y) && !before(x, y, g, c) && before(x, y, i, j)
            ==> (#[trigger] groups[x][y]).tokens.len() == 0
}

/// From the place `(g, c)` on no command of the line has a token.
pub open spec fn nothing_from(groups: Seq<Seq<CommandSpec>>, g: int, c: int) -> bool {
    forall|x: int, y: int|
        has_place(groups, x, y) && !before(x, y, g, c) ==> (#[trigger] groups[x][y]).tokens.len()
            == 0
}

/// The command at `(i, j)` is the first from `(g, c)` on that has a token.
pub open spec fn first_from(groups: Seq<Seq<CommandSpec>>, g: int, c: int, i: int, j: int) -> bool {
    &&& has_place(groups, i, j)
    &&& !before(i, j, g, c)
    &&& groups[i][j].tokens.len() > 0
    &&& nothing_between(groups, g, c, i, j)
}

/// Looking for work from a place on finds the first command from there on
/// that has a token. If there is none, the line is at its end. If that command
/// is `exit`, the machine stands at an exit. Otherwise it stands at that
/// command.
pub proof fn lemma_seek(groups: Seq<Seq<CommandSpec>>, g: int, c: int)
    requires
        0 <= g,
        0 <= c,
    ensures
        seek(groups, g, c) is End ==> nothing_from(groups, g, c),
        seek(groups, g, c) is Exit ==> exists|i: int, j: int|
            first_from(groups, g, c, i, j) && #[trigger] groups[i][j].tokens[0] == EXIT@,
        seek(groups, g, c) matches Place::Command { group, command } ==> first_from(
            groups,
            g,
            c,
            group,
            command,
        ) && runnable(groups[group][command]),
    decreases groups.len() - g,
        if 0 <= g < groups.len() {
            groups[g].len() - c
        } else {
            0
        },
{
    if g >= groups.len() {
    } else if c >= groups[g].len() {
        lemma_seek(groups, g + 1, 0);
        if seek(groups, g, c) is Exit {
            let (i, j) = choose|i: int, j: int|
                first_from(groups, g + 1, 0, i, j) && #[trigger] groups[i][j].tokens[0] == EXIT@;
            assert(first_from(groups, g, c, i, j));
        }
    } else if groups[g][c].tokens.len() == 0 {
        lemma_seek(groups, g, c + 1);
        if seek(groups, g, c) is Exit {
            let (i, j) = choose|i: int, j: int|
                first_from(groups, g, c + 1, i, j) && #[trigger] groups[i][j].tokens[0] == EXIT@;
            assert(first_from(groups, g, c, i, j));
        }
    } else {
        assert(first_from(groups, g, c, g, c));
    }
}

/// Every state that the machine reaches is well formed.
pub proof fn lemma_step_wf(s: ShellState, event: EventSpec)
    requires
        s.wf(),
    ensures
        s.step(event).wf(),
{
    match s.phase {
        Phase::Prompting | Phase::Continuing => {
            if let Some(line) = s.entered(event) {
                lemma_seek(parse(line), 0, 0);
            }
        },
        Phase::Dispatching => {
            lemma_seek(s.groups, s.group, s.command + 1);
            lemma_seek(s.groups, s.group + 1, 0);
        },
        _ => {},
    }
}

/// The status is how the last command that ran ended: the end of a dispatched
/// command sets it, and nothing else changes it. The path of the history file
/// never changes.
pub proof fn lemma_status(s: ShellState, event: EventSpec)
    ensures
        s.phase == Phase::Dispatching && event is Done ==> s.step(event).status
            == event->success,
        !(s.phase == Phase::Dispatching && event is Done) ==> s.step(event).status == s.status,
        s.step(event).history == s.history,
{
}

/// A command that failed ends its chain: the status is the failure, and if a
/// command of the line is dispatched next, it belongs to a later group.
pub proof fn lemma_failure_ends_chain(s: ShellState)
    requires
        s.wf(),
        s.phase == Phase::Dispatching,
    ensures
        s.step(EventSpec::Done { success: false }).status == false,
        s.step(EventSpec::Done { success: false }).phase == Phase::Dispatching ==> {
            &&& s.step(EventSpec::Done { success: false }).groups == s.groups
            &&& s.step(EventSpec::Done { success: false }).group > s.group
        },
{
    lemma_seek(s.groups, s.group + 1, 0);
}

/// A command that succeeded hands on to the next command that has a token, in
/// its own chain if there is one left.
pub proof fn lemma_success_moves_on(s: ShellState)
    requires
        s.wf(),
        s.phase == Phase::Dispatching,
    ensures
        s.step(EventSpec::Done { success: true }).status == true,
        s.step(EventSpec::Done { success: true }).phase == Phase::Dispatching ==> {
            &&& s.step(EventSpec::Done { success: true }).groups == s.groups
            &&& first_from(
                s.groups,
                s.group,
                s.command + 1,
                s.step(EventSpec::Done { success: true }).group,
                s.step(EventSpec::Done { success: true }).command,
            )
        },
{
    lemma_seek(s.groups, s.group, s.command + 1);
}

/// The state after the actions that the machine asks for one after another,
/// from `s` on, have ended as `outcomes` say.
pub open spec fn run(s: ShellState, outcomes: Seq<bool>) -> ShellState
    decreases outcomes.len(),
{
    if outcomes.len() == 0 {
        s
    } else {
        run(s.step(EventSpec::Done { success: outcomes[0] }), outcomes.skip(1))
    }
}

/// While the commands of a line run, the machine never goes back: a command
/// that is dispatched later stands later in the line.
pub proof fn lemma_run_goes_forward(s: ShellState, outcomes: Seq<bool>)
    requires
        s.wf(),
        s.phase == Phase::Dispatching || s.phase == Phase::Prompting || s.phase == Phase::Saving
            || s.phase == Phase::Exited || s.phase is Failed,
    ensures
        run(s, outcomes).phase == Phase::Dispatching ==> {
            &&& s.phase == Phase::Dispatching
            &&& run(s, outcomes).groups == s.groups
            &&& !before(run(s, outcomes).group, run(s, outcomes).command, s.group, s.command)
        },
    decreases outcomes.len(),
{
    if outcomes.len() > 0 {
        let t = s.step(EventSpec::Done { success: outcomes[0] });
        lemma_step_wf(s, EventSpec::Done { success: outcomes[0] });
        if s.phase == Phase::Dispatching {
            lemma_seek(s.groups, s.group, s.command + 1);
            lemma_seek(s.groups, s.group + 1, 0);
        }
        lemma_run_goes_forward(t, outcomes.skip(1));
    }
}

/// After a command has failed, no later command of its chain is ever
/// dispatched, however the commands that follow it end.
pub proof fn lemma_rest_of_chain_never_runs(s: ShellState, outcomes: Seq<bool>)
    requires
        s.wf(),
        s.phase == Phase::Dispatching,
        outcomes.len() > 0,
        !outcomes[0],
    ensures
        run(s, outcomes).phase == Phase::Dispatching ==> {
            &&& run(s, outcomes).groups == s.groups
            &&& run(s, outcomes).group > s.group
        },
{
    let t = s.step(EventSpec::Done { success: false });
    lemma_failure_ends_chain(s);
    lemma_step_wf(s, EventSpec::Done { success: false });
    lemma_seek(s.groups, s.group + 1, 0);
    lemma_run_goes_forward(t, outcomes.skip(1));
}

/// A physical line that ends with a backslash completes no logical line, so
/// nothing is entered into the history: a further line is read at the empty
/// prompt. What that line completes, and what is entered, is the first line
/// without its backslash, followed by the second.
pub proof fn lemma_continued_line(s: ShellState, first: Seq<char>, second: Seq<char>)
    requires
        s.wf(),
        s.phase == Phase::Prompting,
        continues(first),
        !continues(first.drop_last() + second),
    ensures
        s.entered(EventSpec::Line(first)) is None,
        s.step(EventSpec::Line(first)).action() == (ActionSpec::Read {
            prompt: Prompt::Continuation,
        }),
        s.step(EventSpec::Line(first)).entered(EventSpec::Line(second)) == Some(
            first.drop_last() + second,
        ),
        s.step(EventSpec::Line(first)).step(EventSpec::Line(second)) == s.arrive(
            s.status,
            parse(first.drop_last() + second),
            seek(parse(first.drop_last() + second), 0, 0),
        ),
{
}

} // verus!
