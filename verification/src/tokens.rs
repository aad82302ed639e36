//! The tokenizer: from a line of input to its groups of commands.

use vstd::prelude::*;
use vstd::string::*;
use crate::grammar::{CommandSpec, command_of, is_marker, parse, parse_command, parse_chain};
use crate::scan::{Span, characters, cut, piece_spans, texts, views, word_spans};
use crate::split::{split, words};
use crate::text::{BACKGROUND_MARKER, CHAIN_DELIMITER, SEQUENCE_DELIMITER};

verus! {

/// One invocation of a program: the program's name, then its arguments, and
/// whether the shell is to wait for it. The trailing `&` of a background
/// command is not among the tokens.
#[derive(Clone, Debug, PartialEq, Eq)]
pub struct DependentCommand {
    pub tokens: Vec<String>,
    pub background: bool,
}

impl View for DependentCommand {
    type V = CommandSpec;

    open spec fn view(&self) -> CommandSpec {
        CommandSpec { tokens: views(self.tokens@), background: self.background }
    }
}

/// A chain: the commands that are set apart by `|`, in order. Each of them
/// runs only if the one before it succeeded.
#[derive(Clone, Debug, PartialEq, Eq)]
pub struct CommandChain {
    pub commands: Vec<DependentCommand>,
}

impl View for CommandChain {
    type V = Seq<CommandSpec>;

    open spec fn view(&self) -> Seq<CommandSpec> {
        command_views(self.commands@)
    }
}

/// A group: what stands between two `;`. It holds one chain, and that chain
/// runs whatever became of the groups before it.
#[derive(Clone, Debug, PartialEq, Eq)]
pub struct CommandGroup {
    pub chain: CommandChain,
}

impl View for CommandGroup {
    type V = Seq<CommandSpec>;

    open spec fn view(&self) -> Seq<CommandSpec> {
        self.chain@
    }
}

/// What the commands say, in order.
pub open spec fn command_views(commands: Seq<DependentCommand>) -> Seq<CommandSpec> {
    Seq::new(commands.len(), |k: int| commands[k]@)
}

/// What the groups say, in order.
pub open spec fn group_views(groups: Seq<CommandGroup>) -> Seq<Seq<CommandSpec>> {
    Seq::new(groups.len(), |g: int| groups[g]@)
}

/// Tells whether `word` is the background marker, a lone `&`.
pub fn is_background_marker(word: &str) -> (r: bool)
    ensures
        r == is_marker(word@),
{
    if word.unicode_len() == 1 {
        let c = word.get_char(0);
        proof {
            if c == BACKGROUND_MARKER {
                assert(word@ == seq![BACKGROUND_MARKER]);
            }
        }
        c == BACKGROUND_MARKER
    } else {
        false
    }
}

impl DependentCommand {
    /// The command spelled by `words`: a last word `&` is taken off and makes
    /// it a background command.
    pub fn from_words(words: Vec<String>) -> (command: DependentCommand)
        ensures
            command@ == command_of(views(words@)),
    {
        let mut tokens = words;
        let n = tokens.len();
        if n > 0 && is_background_marker(tokens[n - 1].as_str()) {
            let ghost before = views(tokens@);
            tokens.pop();
            proof {
                assert(views(tokens@) == before.drop_last());
            }
            DependentCommand { tokens, background: true }
        } else {
            DependentCommand { tokens, background: false }
        }
    }
}

/// The words of `s`: what stands between white space.
pub fn split_words(s: &str) -> (tokens: Vec<String>)
    ensures
        views(tokens@) == words(s@),
{
    let chars = characters(s);
    let whole = Span { start: 0, end: chars.len() };
    assert(whole.of(chars@) == s@);
    words_in(s, &chars, whole)
}

/// The words of the stretch `bounds` of `line`.
fn words_in(line: &str, chars: &Vec<char>, bounds: Span) -> (tokens: Vec<String>)
    requires
        chars@ == line@,
        bounds.start <= bounds.end <= chars.len(),
    ensures
        views(tokens@) == words(bounds.of(line@)),
{
    let spans = word_spans(chars, bounds);
    let mut tokens: Vec<String> = Vec::new();
    let mut k: usize = 0;
    while k < spans.len()
        invariant
            chars@ == line@,
            bounds.start <= bounds.end <= chars.len(),
            k <= spans.len(),
            tokens.len() == k,
            forall|j: int| 0 <= j < spans.len() ==> (#[trigger] spans[j]).within(bounds),
            forall|j: int| 0 <= j < k ==> (#[trigger] tokens[j])@ == spans[j].of(line@),
        decreases spans.len() - k,
    {
        tokens.push(cut(line, spans[k]));
        k += 1;
    }
    tokens
}

/// The command written in the stretch `bounds` of `line`.
fn command_in(line: &str, chars: &Vec<char>, bounds: Span) -> (command: DependentCommand)
    requires
        chars@ == line@,
        bounds.start <= bounds.end <= chars.len(),
    ensures
        command@ == parse_command(bounds.of(line@)),
{
    DependentCommand::from_words(words_in(line, chars, bounds))
}

/// The chain written in the stretch `bounds` of `line`.
fn chain_in(line: &str, chars: &Vec<char>, bounds: Span) -> (chain: CommandChain)
    requires
        chars@ == line@,
        bounds.start <= bounds.end <= chars.len(),
    ensures
        chain@ == parse_chain(bounds.of(line@)),
{
    let spans = piece_spans(chars, bounds, CHAIN_DELIMITER);
    let ghost pieces = split(bounds.of(line@), CHAIN_DELIMITER);
    let mut commands: Vec<DependentCommand> = Vec::new();
    let mut k: usize = 0;
    while k < spans.len()
        invariant
            chars@ == line@,
            bounds.start <= bounds.end <= chars.len(),
            k <= spans.len(),
            commands.len() == k,
            texts(spans@, chars@) == pieces,
            forall|j: int| 0 <= j < spans.len() ==> (#[trigger] spans[j]).within(bounds),
            forall|j: int| 0 <= j < k ==> (#[trigger] commands[j])@ == parse_command(pieces[j]),
        decreases spans.len() - k,
    {
        commands.push(command_in(line, chars, spans[k]));
        k += 1;
    }
    CommandChain { commands }
}

/// The groups of `line`, each with its commands, each command with its tokens.
///
/// Every line can be read. A line has a group for each stretch between two
/// `;`, and a group a command for each stretch between two `|`, also where
/// nothing but white space stands there: such a command has no tokens.
pub fn tokenize(line: &str) -> (groups: Vec<CommandGroup>)
    ensures
        group_views(groups@) == parse(line@),
{
    let chars = characters(line);
    let whole = Span { start: 0, end: chars.len() };
    assert(whole.of(chars@) == line@);
    let spans = piece_spans(&chars, whole, SEQUENCE_DELIMITER);
    let ghost pieces = split(line@, SEQUENCE_DELIMITER);
    let mut groups: Vec<CommandGroup> = Vec::new();
    let mut g: usize = 0;
    while g < spans.len()
        invariant
            chars@ == line@,
            whole.start == 0,
            whole.end == chars.len(),
            g <= spans.len(),
            groups.len() == g,
            texts(spans@, chars@) == pieces,
            forall|j: int| 0 <= j < spans.len() ==> (#[trigger] spans[j]).within(whole),
            forall|j: int| 0 <= j < g ==> (#[trigger] groups[j])@ == parse_chain(pieces[j]),
        decreases spans.len() - g,
    {
        groups.push(CommandGroup { chain: chain_in(line, &chars, spans[g]) });
        g += 1;
    }
    groups
}

} // verus!
