use rush::error::{Failure, ProgramError};
use rush::launcher::Invocation;
use rush::prompt::Prompt;
use rush::shell::{action_for, Action, Event, Phase, Shell};
use rush::signals::{Disposition, Signal};
use rush::tokens::DependentCommand;
use rustyline::history::DefaultHistory;

const HISTORY: &str = "/home/me/.rush_history";

fn line(text: &str) -> Event {
    Event::Line(text.to_string())
}

fn done(success: bool) -> Event {
    Event::Done { success }
}

fn launch(program: &str, args: &[&str], background: bool) -> Action {
    Action::Launch {
        invocation: Invocation {
            program: program.to_string(),
            args: args.iter().map(|a| a.to_string()).collect(),
            background,
            signals: vec![
                (Signal::Interrupt, Disposition::Default),
                (Signal::Quit, Disposition::Default),
            ],
        },
    }
}

fn read(success: bool) -> Action {
    Action::Read { prompt: Prompt::Status { success } }
}

fn save() -> Action {
    Action::SaveHistory { path: HISTORY.to_string() }
}

fn lines(history: &DefaultHistory) -> Vec<String> {
    history.iter().cloned().collect()
}

/// A machine that has loaded its history and is about to read its first line.
fn ready(history: &mut DefaultHistory) -> Shell {
    let (shell, action) = Shell::new(Some("/home/me")).step(done(true), history);
    assert_eq!(action, read(true));
    shell
}

/// A fresh machine to which the line has been fed.
fn entered(text: &str) -> (Shell, Action, DefaultHistory) {
    let mut history = DefaultHistory::new();
    let (shell, action) = ready(&mut history).step(line(text), &mut history);
    (shell, action, history)
}

#[test]
fn starts_by_loading_the_history() {
    let mut history = DefaultHistory::new();
    let shell = Shell::new(Some("/home/me"));
    assert!(shell.last_exit_status());
    assert_eq!(shell.phase(), Phase::Loading);
    assert_eq!(shell.action(), Action::LoadHistory { path: HISTORY.to_string() });
    let (shell, action) = shell.step(done(true), &mut history);
    assert_eq!(shell.phase(), Phase::Prompting);
    assert_eq!(action, read(true));
}

#[test]
fn history_that_cannot_be_loaded_is_created() {
    let mut history = DefaultHistory::new();
    let (shell, action) = Shell::new(Some("/root")).step(done(false), &mut history);
    assert_eq!(shell.phase(), Phase::Creating);
    assert_eq!(
        action,
        Action::CreateHistory {
            path: "/root/.rush_history".to_string(),
            notice: "No previous history.".to_string(),
        }
    );
    let (shell, action) = shell.step(done(true), &mut history);
    assert_eq!(shell.phase(), Phase::Prompting);
    assert_eq!(action, read(true));
}

#[test]
fn history_that_cannot_be_created_ends_with_status_one() {
    let mut history = DefaultHistory::new();
    let (shell, _) = Shell::new(Some("/root")).step(done(false), &mut history);
    let (shell, action) = shell.step(done(false), &mut history);
    assert_eq!(shell.phase(), Phase::Failed { failure: Failure::History });
    assert_eq!(action, Action::Abort { error: ProgramError::new(Failure::History) });
    assert_eq!(action.exit_code(), Some(1));
}

#[test]
fn missing_home_ends_with_status_one() {
    let mut history = DefaultHistory::new();
    let shell = Shell::new(None);
    assert_eq!(shell.phase(), Phase::Failed { failure: Failure::Environment });
    let action = shell.action();
    assert_eq!(action.exit_code(), Some(1));
    assert_eq!(
        action,
        Action::Abort { error: ProgramError::Environment("HOME is not set".to_string()) }
    );
    let (shell, action) = shell.step(done(true), &mut history);
    assert_eq!(shell.phase(), Phase::Failed { failure: Failure::Environment });
    assert_eq!(action.exit_code(), Some(1));
}

#[test]
fn prompts_in_the_colour_of_success_at_first() {
    let mut history = DefaultHistory::new();
    let shell = ready(&mut history);
    assert!(shell.last_exit_status());
    assert_eq!(shell.phase(), Phase::Prompting);
    assert_eq!(shell.action(), read(true));
    assert!(lines(&history).is_empty());
}

#[test]
fn a_line_is_remembered_and_dispatched() {
    let (shell, action, mut history) = entered("ls -la /tmp");
    assert_eq!(lines(&history), vec!["ls -la /tmp".to_string()]);
    assert_eq!(shell.phase(), Phase::Dispatching);
    assert_eq!(action, launch("ls", &["-la", "/tmp"], false));
    let (shell, action) = shell.step(done(true), &mut history);
    assert_eq!(shell.phase(), Phase::Prompting);
    assert_eq!(action, read(true));
    assert!(shell.last_exit_status());
    assert_eq!(lines(&history), vec!["ls -la /tmp".to_string()]);
}

#[test]
fn lines_are_remembered_in_the_order_of_entry() {
    let mut history = DefaultHistory::new();
    let mut shell = ready(&mut history);
    for text in ["", "one", "two", "two", " three", "", "one"] {
        let (next, _) = shell.step(line(text), &mut history);
        let (next, _) = next.step(done(true), &mut history);
        shell = next;
    }
    assert_eq!(
        lines(&history),
        vec!["one".to_string(), "two".to_string(), " three".to_string(), "one".to_string()]
    );
}

#[test]
fn a_full_history_drops_its_oldest_line() {
    let mut history = DefaultHistory::new();
    let mut shell = ready(&mut history);
    for n in 0..101 {
        let (next, _) = shell.step(line(&format!("echo {}", n)), &mut history);
        let (next, _) = next.step(done(true), &mut history);
        shell = next;
    }
    let kept = lines(&history);
    assert_eq!(kept.len(), 100);
    assert_eq!(kept[0], "echo 1");
    assert_eq!(kept[99], "echo 100");
}

#[test]
fn failure_skips_the_rest_of_the_chain() {
    let (shell, action, mut history) = entered("false | true");
    assert_eq!(action, launch("false", &[], false));
    let (shell, action) = shell.step(done(false), &mut history);
    assert_eq!(action, read(false));
    assert!(!shell.last_exit_status());
    assert_eq!(shell.phase(), Phase::Prompting);
}

#[test]
fn success_goes_on_with_the_chain() {
    let (shell, action, mut history) = entered("true | echo hi | false | echo never");
    assert_eq!(action, launch("true", &[], false));
    let (shell, action) = shell.step(done(true), &mut history);
    assert_eq!(action, launch("echo", &["hi"], false));
    let (shell, action) = shell.step(done(true), &mut history);
    assert_eq!(action, launch("false", &[], false));
    let (shell, action) = shell.step(done(false), &mut history);
    assert_eq!(action, read(false));
    assert!(!shell.last_exit_status());
}

#[test]
fn the_next_group_runs_whatever_came_before() {
    let (shell, action, mut history) = entered("false | skipped ; echo next");
    assert_eq!(action, launch("false", &[], false));
    let (shell, action) = shell.step(done(false), &mut history);
    assert!(!shell.last_exit_status());
    assert_eq!(action, launch("echo", &["next"], false));
    let (shell, action) = shell.step(done(true), &mut history);
    assert!(shell.last_exit_status());
    assert_eq!(action, read(true));
}

#[test]
fn status_is_that_of_the_last_command_that_ran() {
    let (shell, _, mut history) = entered("true ; false");
    let (shell, _) = shell.step(done(true), &mut history);
    let (shell, action) = shell.step(done(false), &mut history);
    assert_eq!(action, read(false));
    let (shell, action) = shell.step(line(""), &mut history);
    assert_eq!(action, read(false));
    assert!(!shell.last_exit_status());
}

#[test]
fn cd_changes_the_directory() {
    let (shell, action, mut history) = entered("cd /nonexistent");
    assert_eq!(action, Action::ChangeDir { path: "/nonexistent".to_string() });
    let (shell, action) = shell.step(done(false), &mut history);
    assert!(!shell.last_exit_status());
    assert_eq!(action, read(false));
}

#[test]
fn cd_to_a_directory_that_exists_is_a_success() {
    let (shell, action, mut history) = entered("cd /tmp extra | pwd");
    assert_eq!(action, Action::ChangeDir { path: "/tmp".to_string() });
    let (shell, action) = shell.step(done(true), &mut history);
    assert!(shell.last_exit_status());
    assert_eq!(action, launch("pwd", &[], false));
}

#[test]
fn cd_without_directory_asks_for_the_empty_path() {
    let (_, action, _) = entered("cd");
    assert_eq!(action, Action::ChangeDir { path: String::new() });
}

#[test]
fn exit_saves_the_history_and_ends_with_status_zero() {
    let (shell, action, mut history) = entered("exit");
    assert_eq!(lines(&history), vec!["exit".to_string()]);
    assert_eq!(shell.phase(), Phase::Saving);
    assert_eq!(action, save());
    assert_eq!(action.exit_code(), None);
    let (shell, action) = shell.step(done(true), &mut history);
    assert_eq!(shell.phase(), Phase::Exited);
    assert_eq!(action, Action::Exit);
    assert_eq!(action.exit_code(), Some(0));
    let (shell, action) = shell.step(line("ls"), &mut history);
    assert_eq!(shell.phase(), Phase::Exited);
    assert_eq!(action, Action::Exit);
    assert_eq!(lines(&history), vec!["exit".to_string()]);
}

#[test]
fn exit_ignores_its_arguments_and_what_follows() {
    let (_, action, _) = entered("exit 3 now | ls ; pwd");
    assert_eq!(action, save());
    let (shell, action, mut history) = entered("true ; exit ; ls");
    assert_eq!(action, launch("true", &[], false));
    let (_, action) = shell.step(done(true), &mut history);
    assert_eq!(action, save());
}

#[test]
fn exit_behind_a_failure_in_its_chain_is_not_reached() {
    let (shell, action, mut history) = entered("false | exit");
    assert_eq!(action, launch("false", &[], false));
    let (_, action) = shell.step(done(false), &mut history);
    assert_eq!(action, read(false));
}

#[test]
fn history_that_cannot_be_saved_ends_with_status_one() {
    let (shell, _, mut history) = entered("exit");
    let (shell, action) = shell.step(done(false), &mut history);
    assert_eq!(shell.phase(), Phase::Failed { failure: Failure::History });
    assert_eq!(action.exit_code(), Some(1));
    match action {
        Action::Abort { error } => {
            assert!(matches!(error, ProgramError::History(_)));
            assert_eq!(error.message(), "Error processing the command history");
        }
        other => panic!("{:?}", other),
    }
}

#[test]
fn read_failure_ends_with_status_one() {
    let mut history = DefaultHistory::new();
    let (shell, action) = ready(&mut history).step(Event::ReadFailed, &mut history);
    assert_eq!(shell.phase(), Phase::Failed { failure: Failure::Readline });
    assert_eq!(action.exit_code(), Some(1));
    assert_eq!(
        action,
        Action::Abort { error: ProgramError::Readline("error during readline()".to_string()) }
    );
    match action {
        Action::Abort { error } => {
            assert_eq!(error.message(), "Error processing readline input from prompt")
        }
        other => panic!("{:?}", other),
    }
    let (shell, action) = shell.step(line("ls"), &mut history);
    assert_eq!(shell.phase(), Phase::Failed { failure: Failure::Readline });
    assert_eq!(action.exit_code(), Some(1));
    assert!(lines(&history).is_empty());
}

#[test]
fn read_failure_in_a_continuation_ends_with_status_one() {
    let (shell, action, mut history) = entered("echo \\");
    assert_eq!(action, Action::Read { prompt: Prompt::Continuation });
    let (shell, action) = shell.step(Event::ReadFailed, &mut history);
    assert_eq!(shell.phase(), Phase::Failed { failure: Failure::Readline });
    assert_eq!(action, Action::Abort { error: ProgramError::new(Failure::Readline) });
    assert!(lines(&history).is_empty());
}

#[test]
fn backslash_continues_the_line() {
    let (shell, action, mut history) = entered("echo a\\");
    assert_eq!(shell.phase(), Phase::Continuing);
    assert_eq!(action, Action::Read { prompt: Prompt::Continuation });
    assert!(lines(&history).is_empty());
    let (shell, action) = shell.step(line("b c"), &mut history);
    assert_eq!(shell.phase(), Phase::Dispatching);
    assert_eq!(action, launch("echo", &["ab", "c"], false));
    assert_eq!(lines(&history), vec!["echo ab c".to_string()]);
}

#[test]
fn continuation_may_span_many_lines() {
    let (shell, _, mut history) = entered("echo a \\");
    let (shell, action) = shell.step(line("b \\"), &mut history);
    assert_eq!(action, Action::Read { prompt: Prompt::Continuation });
    let (shell, action) = shell.step(line("\\"), &mut history);
    assert_eq!(action, Action::Read { prompt: Prompt::Continuation });
    assert!(lines(&history).is_empty());
    let (_, action) = shell.step(line("c"), &mut history);
    assert_eq!(action, launch("echo", &["a", "b", "c"], false));
    assert_eq!(lines(&history), vec!["echo a b c".to_string()]);
}

#[test]
fn backslash_uncovered_by_an_empty_line_continues_again() {
    let (shell, action, mut history) = entered("x\\\\");
    assert_eq!(action, Action::Read { prompt: Prompt::Continuation });
    let (shell, action) = shell.step(line(""), &mut history);
    assert_eq!(action, Action::Read { prompt: Prompt::Continuation });
    let (_, action) = shell.step(line("y"), &mut history);
    assert_eq!(action, launch("xy", &[], false));
    assert_eq!(lines(&history), vec!["xy".to_string()]);
}

#[test]
fn empty_line_runs_nothing_and_keeps_the_status() {
    let (shell, action, history) = entered("");
    assert_eq!(action, read(true));
    assert_eq!(shell.phase(), Phase::Prompting);
    assert!(lines(&history).is_empty());
    let (shell, action, history) = entered(" ;  | ; ");
    assert_eq!(action, read(true));
    assert!(shell.last_exit_status());
    assert_eq!(lines(&history), vec![" ;  | ; ".to_string()]);
}

#[test]
fn commands_without_tokens_are_passed_over() {
    let (shell, action, mut history) = entered(" ; | echo a | | echo b ;; echo c");
    assert_eq!(action, launch("echo", &["a"], false));
    let (shell, action) = shell.step(done(true), &mut history);
    assert_eq!(action, launch("echo", &["b"], false));
    let (shell, action) = shell.step(done(true), &mut history);
    assert_eq!(action, launch("echo", &["c"], false));
    let (_, action) = shell.step(done(true), &mut history);
    assert_eq!(action, read(true));
}

#[test]
fn background_command_is_launched_in_the_background() {
    let (_, action, _) = entered("sleep 5 &");
    assert_eq!(action, launch("sleep", &["5"], true));
    let (_, action, _) = entered("ls -la &");
    assert_eq!(action, launch("ls", &["-la"], true));
}

#[test]
fn double_ampersand_reaches_the_program_as_an_argument() {
    let (shell, action, mut history) = entered("false && true");
    assert_eq!(action, launch("false", &["&&", "true"], false));
    let (_, action) = shell.step(done(false), &mut history);
    assert_eq!(action, read(false));
}

#[test]
fn events_that_answer_nothing_are_ignored() {
    let mut history = DefaultHistory::new();
    let (shell, action) = ready(&mut history).step(done(false), &mut history);
    assert_eq!(action, read(true));
    assert!(shell.last_exit_status());
    let (shell, action) = shell.step(line("ls"), &mut history);
    assert_eq!(action, launch("ls", &[], false));
    let (shell, action) = shell.step(line("pwd"), &mut history);
    assert_eq!(action, launch("ls", &[], false));
    let (shell, action) = shell.step(Event::ReadFailed, &mut history);
    assert_eq!(action, launch("ls", &[], false));
    assert_eq!(shell.phase(), Phase::Dispatching);
    assert_eq!(lines(&history), vec!["ls".to_string()]);
    let loading = Shell::new(Some("/home/me"));
    let (loading, action) = loading.step(line("ls"), &mut history);
    assert_eq!(loading.phase(), Phase::Loading);
    assert_eq!(action, Action::LoadHistory { path: HISTORY.to_string() });
    assert_eq!(lines(&history), vec!["ls".to_string()]);
}

#[test]
fn step_hands_out_the_action_of_the_new_state() {
    let (shell, action, mut history) = entered("cd .. | ls");
    assert_eq!(action, shell.action());
    let (shell, action) = shell.step(done(true), &mut history);
    assert_eq!(action, shell.action());
}

#[test]
fn action_for_tells_builtins_from_programs() {
    let cd = DependentCommand { tokens: vec!["cd".to_string(), "/".to_string()], background: true };
    assert_eq!(action_for(&cd), Action::ChangeDir { path: "/".to_string() });
    let ls = DependentCommand { tokens: vec!["ls".to_string()], background: true };
    assert_eq!(action_for(&ls), launch("ls", &[], true));
    let cdx = DependentCommand { tokens: vec!["cdx".to_string(), "/".to_string()], background: false };
    assert_eq!(action_for(&cdx), launch("cdx", &["/"], false));
}
