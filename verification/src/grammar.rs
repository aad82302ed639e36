//! The command grammar, as mathematics.
//!
//! A line is cut into groups at each `;`. A group is one chain, which is cut
//! into commands at each `|`. A command is cut into words at white space. If the last word of a
//! command is `&`, it is no argument: it marks the command as one to run in the
//! background. Nothing is quoted, escaped or expanded, and no other operator
//! exists: `&&` is a word like any other.

use vstd::prelude::*;
use crate::split::{
    all_free_of, all_words, free_of, is_word, join, lemma_join_free, lemma_split_concat,
    lemma_split_pieces, lemma_split_undelimited, lemma_words_are_words, lemma_words_join, split,
    words,
};
use crate::text::{BACKGROUND_MARKER, CHAIN_DELIMITER, SEQUENCE_DELIMITER};

verus! {

/// What a command says: the program with its arguments, and whether it is to
/// run in the background.
pub struct CommandSpec {
    pub tokens: Seq<Seq<char>>,
    pub background: bool,
}

impl CommandSpec {
    /// The words that the command was written with: its tokens, and the
    /// background marker if it had one.
    pub open spec fn spelled(self) -> Seq<Seq<char>> {
        if self.background {
            self.tokens.push(seq![BACKGROUND_MARKER])
        } else {
            self.tokens
        }
    }
}

/// The word that marks a background command.
pub open spec fn is_marker(w: Seq<char>) -> bool {
    w == seq![BACKGROUND_MARKER]
}

/// The words end with the background marker.
pub open spec fn ends_with_marker(ws: Seq<Seq<char>>) -> bool {
    ws.len() > 0 && is_marker(ws.last())
}

/// The command that runs `tokens` in the foreground.
pub open spec fn foreground(tokens: Seq<Seq<char>>) -> CommandSpec {
    CommandSpec { tokens, background: false }
}

/// The command that the words `ws` spell.
pub open spec fn command_of(ws: Seq<Seq<char>>) -> CommandSpec {
    if ends_with_marker(ws) {
        CommandSpec { tokens: ws.drop_last(), background: true }
    } else {
        CommandSpec { tokens: ws, background: false }
    }
}

/// The command written as `s`.
pub open spec fn parse_command(s: Seq<char>) -> CommandSpec {
    command_of(words(s))
}

/// The commands of the chain written as `s`.
pub open spec fn parse_chain(s: Seq<char>) -> Seq<CommandSpec> {
    split(s, CHAIN_DELIMITER).map_values(|piece: Seq<char>| parse_command(piece))
}

/// The groups of the line `s`, each with the commands of its chain.
pub open spec fn parse(s: Seq<char>) -> Seq<Seq<CommandSpec>> {
    split(s, SEQUENCE_DELIMITER).map_values(|piece: Seq<char>| parse_chain(piece))
}

/// What a token of a command is: a word that holds neither delimiter.
pub open spec fn is_token(w: Seq<char>) -> bool {
    is_word(w) && free_of(w, SEQUENCE_DELIMITER) && free_of(w, CHAIN_DELIMITER)
}

/// Every element is a token.
pub open spec fn all_tokens(ws: Seq<Seq<char>>) -> bool {
    forall|k: int| 0 <= k < ws.len() ==> is_token(#[trigger] ws[k])
}

/// The pieces of a text hold no character that the text does not hold.
pub proof fn lemma_pieces_stay_free(s: Seq<char>, d: char, other: char)
    requires
        free_of(s, other),
    ensures
        all_free_of(split(s, d), other),
    decreases s.len(),
{
    if s.len() > 0 {
        lemma_pieces_stay_free(s.drop_last(), d, other);
        lemma_split_pieces(s.drop_last(), d);
    }
}

/// The words of a text hold no character that the text does not hold.
pub proof fn lemma_words_stay_free(s: Seq<char>, other: char)
    requires
        free_of(s, other),
    ensures
        all_free_of(words(s), other),
    decreases s.len(),
{
    if s.len() > 0 {
        lemma_words_stay_free(s.drop_last(), other);
        lemma_words_are_words(s.drop_last());
    }
}

/// A line always has a group, a group always has a command, and the tokens of
/// every command are words without delimiter.
pub proof fn lemma_parse_shape(line: Seq<char>)
    ensures
        parse(line).len() >= 1,
        forall|g: int| 0 <= g < parse(line).len() ==> (#[trigger] parse(line)[g]).len() >= 1,
        forall|g: int, k: int|
            0 <= g < parse(line).len() && 0 <= k < parse(line)[g].len() ==> all_tokens(
                (#[trigger] parse(line)[g][k]).tokens,
            ),
{
    let groups = split(line, SEQUENCE_DELIMITER);
    lemma_split_pieces(line, SEQUENCE_DELIMITER);
    assert forall|g: int| 0 <= g < parse(line).len() implies (#[trigger] parse(line)[g]).len()
        >= 1 by {
        lemma_split_pieces(groups[g], CHAIN_DELIMITER);
    }
    assert forall|g: int, k: int|
        0 <= g < parse(line).len() && 0 <= k < parse(line)[g].len() implies all_tokens(
        (#[trigger] parse(line)[g][k]).tokens,
    ) by {
        let pieces = split(groups[g], CHAIN_DELIMITER);
        let piece = pieces[k];
        lemma_pieces_stay_free(groups[g], CHAIN_DELIMITER, SEQUENCE_DELIMITER);
        lemma_split_pieces(groups[g], CHAIN_DELIMITER);
        lemma_words_are_words(piece);
        lemma_words_stay_free(piece, SEQUENCE_DELIMITER);
        lemma_words_stay_free(piece, CHAIN_DELIMITER);
        let tokens = parse(line)[g][k].tokens;
        assert forall|j: int| 0 <= j < tokens.len() implies is_token(#[trigger] tokens[j]) by {}
    }
}

/// The groups of two lines with a `;` between them are the groups of the
/// first, followed by the groups of the second.
pub proof fn lemma_sequence(a: Seq<char>, b: Seq<char>)
    ensures
        parse(a.push(SEQUENCE_DELIMITER) + b) == parse(a) + parse(b),
{
    lemma_split_concat(a, b, SEQUENCE_DELIMITER);
}

/// The commands of two chains with a `|` between them are the commands of
/// the first, followed by the commands of the second.
pub proof fn lemma_chain(a: Seq<char>, b: Seq<char>)
    ensures
        parse_chain(a.push(CHAIN_DELIMITER) + b) == parse_chain(a) + parse_chain(b),
{
    lemma_split_concat(a, b, CHAIN_DELIMITER);
}

/// A line without `;` and without `|` is one group with one command, and that
/// command is spelled with the words of the line. Unless the last word is the
/// background marker, the tokens of the command are those words.
pub proof fn lemma_plain_line(line: Seq<char>)
    requires
        free_of(line, SEQUENCE_DELIMITER),
        free_of(line, CHAIN_DELIMITER),
    ensures
        parse(line) == seq![seq![parse_command(line)]],
        parse_command(line).spelled() == words(line),
        !ends_with_marker(words(line)) ==> parse_command(line) == foreground(words(line)),
{
    lemma_split_undelimited(line, SEQUENCE_DELIMITER);
    lemma_split_undelimited(line, CHAIN_DELIMITER);
    assert(parse_chain(line) == seq![parse_command(line)]);
}

/// Where the last word of a command is `&`, the command runs in the background
/// and its tokens are the words before the marker.
pub proof fn lemma_marker_stripped(s: Seq<char>)
    requires
        ends_with_marker(words(s)),
    ensures
        parse_command(s).background,
        parse_command(s).tokens == words(s).drop_last(),
{
}

/// Writing the tokens of a command out again, with one blank between them, and
/// reading that line gives the same tokens as one command in the foreground.
/// The tokens must not themselves end with the marker: that would be read as a
/// marker again.
pub proof fn lemma_tokens_read_back(tokens: Seq<Seq<char>>)
    requires
        all_tokens(tokens),
        !ends_with_marker(tokens),
    ensures
        parse(join(tokens, ' ')) == seq![seq![foreground(tokens)]],
{
    assert(all_free_of(tokens, SEQUENCE_DELIMITER));
    assert(all_free_of(tokens, CHAIN_DELIMITER));
    assert(all_words(tokens));
    lemma_join_free(tokens, ' ', SEQUENCE_DELIMITER);
    lemma_join_free(tokens, ' ', CHAIN_DELIMITER);
    lemma_plain_line(join(tokens, ' '));
    lemma_words_join(tokens);
}

/// Reading a line, writing the tokens of one of its commands out again and
/// reading that gives the same command in the foreground, whether or not the
/// command was marked for the background.
pub proof fn lemma_retokenize(line: Seq<char>, g: int, k: int)
    requires
        0 <= g < parse(line).len(),
        0 <= k < parse(line)[g].len(),
        !ends_with_marker(parse(line)[g][k].tokens),
    ensures
        parse(join(parse(line)[g][k].tokens, ' ')) == seq![
            seq![foreground(parse(line)[g][k].tokens)],
        ],
{
    lemma_parse_shape(line);
    lemma_tokens_read_back(parse(line)[g][k].tokens);
}

} // verus!
