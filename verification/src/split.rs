//! What it means to cut a text at a delimiter, and to cut it into words.
//!
//! The functions here are mathematical: they say which pieces a text has. The
//! lemmas show that cutting and joining undo one another, so that the pieces
//! of a text are determined by the text and nothing else.

use vstd::prelude::*;
use crate::text::is_space;

verus! {

/// The pieces of `s` that lie between the occurrences of `d`, in order. A text
/// with `n` occurrences of `d` has `n + 1` pieces, some of which may be empty.
pub open spec fn split(s: Seq<char>, d: char) -> Seq<Seq<char>>
    decreases s.len(),
{
    if s.len() == 0 {
        seq![Seq::empty()]
    } else {
        let before = split(s.drop_last(), d);
        if s.last() == d {
            before.push(Seq::empty())
        } else {
            before.drop_last().push(before.last().push(s.last()))
        }
    }
}

/// The pieces put together again, with `d` between each two neighbours.
pub open spec fn join(pieces: Seq<Seq<char>>, d: char) -> Seq<char>
    decreases pieces.len(),
{
    if pieces.len() == 0 {
        Seq::empty()
    } else if pieces.len() == 1 {
        pieces[0]
    } else {
        join(pieces.drop_last(), d).push(d) + pieces.last()
    }
}

/// No character of `s` is `d`.
pub open spec fn free_of(s: Seq<char>, d: char) -> bool {
    forall|i: int| 0 <= i < s.len() ==> s[i] != d
}

/// Every piece is free of `d`.
pub open spec fn all_free_of(pieces: Seq<Seq<char>>, d: char) -> bool {
    forall|k: int| 0 <= k < pieces.len() ==> free_of(#[trigger] pieces[k], d)
}

/// A word: at least one character, none of them white space.
pub open spec fn is_word(w: Seq<char>) -> bool {
    w.len() > 0 && forall|i: int| 0 <= i < w.len() ==> !is_space(#[trigger] w[i])
}

/// Every element is a word.
pub open spec fn all_words(ws: Seq<Seq<char>>) -> bool {
    forall|k: int| 0 <= k < ws.len() ==> is_word(#[trigger] ws[k])
}

/// The words of `s`: its maximal runs of characters that are not white space,
/// in order.
pub open spec fn words(s: Seq<char>) -> Seq<Seq<char>>
    decreases s.len(),
{
    if s.len() == 0 {
        Seq::empty()
    } else {
        let before = words(s.drop_last());
        if is_space(s.last()) {
            before
        } else if s.len() >= 2 && !is_space(s[s.len() - 2]) {
            before.drop_last().push(before.last().push(s.last()))
        } else {
            before.push(seq![s.last()])
        }
    }
}

/// A text has at least one piece, and no piece holds the delimiter.
pub proof fn lemma_split_pieces(s: Seq<char>, d: char)
    ensures
        split(s, d).len() >= 1,
        all_free_of(split(s, d), d),
    decreases s.len(),
{
    if s.len() > 0 {
        lemma_split_pieces(s.drop_last(), d);
    }
}

/// Joining the pieces of a text gives the text back.
pub proof fn lemma_join_split(s: Seq<char>, d: char)
    ensures
        join(split(s, d), d) == s,
    decreases s.len(),
{
    if s.len() > 0 {
        let init = s.drop_last();
        let before = split(init, d);
        lemma_split_pieces(init, d);
        lemma_join_split(init, d);
        if s.last() == d {
            assert(before.push(Seq::empty()).drop_last() == before);
        } else {
            let grown = before.last().push(s.last());
            assert(before.drop_last().push(grown).drop_last() == before.drop_last());
            if before.len() > 1 {
                let head = join(before.drop_last(), d).push(d);
                assert(head + grown == (head + before.last()).push(s.last()));
            }
        }
    }
}

/// Appending a text without delimiter lengthens the last piece and changes
/// nothing else.
pub proof fn lemma_split_append(a: Seq<char>, b: Seq<char>, d: char)
    requires
        free_of(b, d),
    ensures
        split(a + b, d) == split(a, d).drop_last().push(split(a, d).last() + b),
    decreases b.len(),
{
    lemma_split_pieces(a, d);
    if b.len() > 0 {
        let init = b.drop_last();
        lemma_split_append(a, init, d);
        assert((a + b).drop_last() == a + init);
        assert(split(a + init, d).last().push(b.last()) == split(a, d).last() + b);
    }
}

/// The pieces of two texts with a delimiter between them are the pieces of
/// the first, followed by the pieces of the second.
pub proof fn lemma_split_concat(a: Seq<char>, b: Seq<char>, d: char)
    ensures
        split(a.push(d) + b, d) == split(a, d) + split(b, d),
    decreases b.len(),
{
    if b.len() == 0 {
        assert(a.push(d).drop_last() == a);
    } else {
        let init = b.drop_last();
        lemma_split_concat(a, init, d);
        lemma_split_pieces(init, d);
        assert((a.push(d) + b).drop_last() == a.push(d) + init);
    }
}

/// A text without delimiter is its own single piece.
pub proof fn lemma_split_undelimited(s: Seq<char>, d: char)
    requires
        free_of(s, d),
    ensures
        split(s, d) == seq![s],
{
    lemma_split_append(Seq::empty(), s, d);
}

/// Cutting a joined text gives the pieces back, provided that there is at least
/// one piece and that no piece holds the delimiter.
pub proof fn lemma_split_join(pieces: Seq<Seq<char>>, d: char)
    requires
        pieces.len() >= 1,
        all_free_of(pieces, d),
    ensures
        split(join(pieces, d), d) == pieces,
    decreases pieces.len(),
{
    if pieces.len() == 1 {
        lemma_split_undelimited(pieces[0], d);
    } else {
        let init = pieces.drop_last();
        lemma_split_join(init, d);
        let head = join(init, d).push(d);
        assert(head.drop_last() == join(init, d));
        lemma_split_append(head, pieces.last(), d);
    }
}

/// A joined text holds a character other than the separator only where a piece
/// holds it.
pub proof fn lemma_join_free(pieces: Seq<Seq<char>>, separator: char, d: char)
    requires
        all_free_of(pieces, d),
        separator != d,
    ensures
        free_of(join(pieces, separator), d),
    decreases pieces.len(),
{
    if pieces.len() >= 2 {
        lemma_join_free(pieces.drop_last(), separator, d);
    }
}

/// The words of a text are words: none is empty, none holds white space.
pub proof fn lemma_words_are_words(s: Seq<char>)
    ensures
        all_words(words(s)),
        s.len() > 0 && !is_space(s.last()) ==> words(s).len() > 0,
    decreases s.len(),
{
    if s.len() > 0 {
        lemma_words_are_words(s.drop_last());
    }
}

/// Where no word is under way at the end of a text, the words of what is
/// appended follow the words of the text.
pub proof fn lemma_words_concat(a: Seq<char>, b: Seq<char>)
    requires
        a.len() == 0 || is_space(a.last()),
    ensures
        words(a + b) == words(a) + words(b),
    decreases b.len(),
{
    if b.len() > 0 {
        let init = b.drop_last();
        lemma_words_concat(a, init);
        lemma_words_are_words(init);
        assert((a + b).drop_last() == a + init);
    }
}

/// A word appended where no word is under way is one more word.
pub proof fn lemma_words_append(a: Seq<char>, w: Seq<char>)
    requires
        is_word(w),
        a.len() == 0 || is_space(a.last()),
    ensures
        words(a + w) == words(a).push(w),
    decreases w.len(),
{
    let init = w.drop_last();
    assert((a + w).drop_last() == a + init);
    if init.len() == 0 {
        assert(seq![w.last()] == w);
    } else {
        assert(is_word(init));
        lemma_words_append(a, init);
        assert(init.push(w.last()) == w);
    }
}

/// The words of a text made of words with one blank between neighbours are
/// those words.
pub proof fn lemma_words_join(ws: Seq<Seq<char>>)
    requires
        all_words(ws),
    ensures
        words(join(ws, ' ')) == ws,
    decreases ws.len(),
{
    if ws.len() == 1 {
        lemma_words_append(Seq::empty(), ws[0]);
    } else if ws.len() >= 2 {
        let init = ws.drop_last();
        lemma_words_join(init);
        let head = join(init, ' ').push(' ');
        assert(head.drop_last() == join(init, ' '));
        lemma_words_append(head, ws.last());
    }
}

} // verus!
