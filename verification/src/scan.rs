//! Finding the pieces and the words of a text, by position.

use vstd::prelude::*;
use vstd::string::*;
use crate::split::{split, words};
use crate::text::{is_space, is_whitespace};

verus! {

/// A stretch of a text: the characters from `start` up to, not including, `end`.
#[derive(Clone, Copy, Debug)]
pub struct Span {
    pub start: usize,
    pub end: usize,
}

impl Span {
    /// The stretch lies inside `bounds`, and is not turned round.
    pub open spec fn within(self, bounds: Span) -> bool {
        bounds.start <= self.start <= self.end <= bounds.end
    }

    /// The characters of `s` that the stretch covers.
    pub open spec fn of(self, s: Seq<char>) -> Seq<char> {
        s.subrange(self.start as int, self.end as int)
    }
}

/// The texts that the stretches cover, in order.
pub open spec fn texts(spans: Seq<Span>, s: Seq<char>) -> Seq<Seq<char>> {
    Seq::new(spans.len(), |k: int| spans[k].of(s))
}

/// The texts of the strings, in order.
pub open spec fn views(strings: Seq<String>) -> Seq<Seq<char>> {
    Seq::new(strings.len(), |k: int| strings[k]@)
}

/// The text of `s`, if there is one.
pub open spec fn optional_text(s: Option<&str>) -> Option<Seq<char>> {
    match s {
        Some(t) => Some(t@),
        None => None,
    }
}

/// The characters of `s`, one by one.
pub fn characters(s: &str) -> (chars: Vec<char>)
    ensures
        chars@ == s@,
{
    broadcast use vstd::string::group_string_axioms;

    let mut chars: Vec<char> = Vec::new();
    for c in it: s.chars()
        invariant
            it.seq() == s@,
            chars@ == s@.take(it.index()),
    {
        chars.push(c);
    }
    chars
}

/// Where the pieces of the stretch `bounds` lie, cut at each `delimiter`.
pub fn piece_spans(chars: &Vec<char>, bounds: Span, delimiter: char) -> (spans: Vec<Span>)
    requires
        bounds.start <= bounds.end <= chars.len(),
    ensures
        texts(spans@, chars@) == split(bounds.of(chars@), delimiter),
        forall|k: int| 0 <= k < spans.len() ==> (#[trigger] spans[k]).within(bounds),
{
    let mut spans: Vec<Span> = Vec::new();
    let mut begin: usize = bounds.start;
    let mut i: usize = bounds.start;
    proof {
        assert(chars@.subrange(bounds.start as int, bounds.start as int) == Seq::<char>::empty());
    }
    while i < bounds.end
        invariant
            bounds.start <= begin <= i <= bounds.end <= chars.len(),
            forall|k: int| 0 <= k < spans.len() ==> (#[trigger] spans[k]).within(bounds),
            texts(spans@, chars@).push(chars@.subrange(begin as int, i as int)) == split(
                chars@.subrange(bounds.start as int, i as int),
                delimiter,
            ),
        decreases bounds.end - i,
    {
        let ghost current = chars@.subrange(begin as int, i as int);
        let ghost seen = chars@.subrange(bounds.start as int, i as int + 1);
        proof {
            assert(seen.drop_last() == chars@.subrange(bounds.start as int, i as int));
        }
        if chars[i] == delimiter {
            spans.push(Span { start: begin, end: i });
            begin = i + 1;
            proof {
                assert(chars@.subrange(begin as int, i as int + 1) == Seq::<char>::empty());
            }
        } else {
            proof {
                assert(chars@.subrange(begin as int, i as int + 1) == current.push(chars[i as int]));
            }
        }
        i += 1;
    }
    spans.push(Span { start: begin, end: i });
    spans
}

/// Where the words of the stretch `bounds` lie.
pub fn word_spans(chars: &Vec<char>, bounds: Span) -> (spans: Vec<Span>)
    requires
        bounds.start <= bounds.end <= chars.len(),
    ensures
        texts(spans@, chars@) == words(bounds.of(chars@)),
        forall|k: int|
            0 <= k < spans.len() ==> (#[trigger] spans[k]).within(bounds) && spans[k].start
                < spans[k].end,
{
    let mut spans: Vec<Span> = Vec::new();
    let mut in_word: bool = false;
    let mut begin: usize = bounds.start;
    let mut i: usize = bounds.start;
    while i < bounds.end
        invariant
            bounds.start <= begin <= i <= bounds.end <= chars.len(),
            forall|k: int|
                0 <= k < spans.len() ==> (#[trigger] spans[k]).within(bounds) && spans[k].start
                    < spans[k].end,
            in_word ==> begin < i && !is_space(chars[i - 1]),
            in_word ==> texts(spans@, chars@).push(chars@.subrange(begin as int, i as int))
                == words(chars@.subrange(bounds.start as int, i as int)),
            !in_word ==> i == bounds.start || is_space(chars[i - 1]),
            !in_word ==> texts(spans@, chars@) == words(
                chars@.subrange(bounds.start as int, i as int),
            ),
        decreases bounds.end - i,
    {
        let ghost current = chars@.subrange(begin as int, i as int);
        let ghost seen = chars@.subrange(bounds.start as int, i as int + 1);
        proof {
            assert(seen.drop_last() == chars@.subrange(bounds.start as int, i as int));
        }
        if is_whitespace(chars[i]) {
            if in_word {
                spans.push(Span { start: begin, end: i });
                in_word = false;
            }
        } else if in_word {
            proof {
                assert(chars@.subrange(begin as int, i as int + 1) == current.push(chars[i as int]));
            }
        } else {
            begin = i;
            in_word = true;
            proof {
                assert(chars@.subrange(begin as int, i as int + 1) == seq![chars[i as int]]);
            }
        }
        i += 1;
    }
    if in_word {
        spans.push(Span { start: begin, end: i });
    }
    spans
}

/// Tells whether `a` and `b` are the same text.
pub fn same_text(a: &str, b: &str) -> (r: bool)
    ensures
        r == (a@ == b@),
{
    let left = characters(a);
    let right = characters(b);
    if left.len() != right.len() {
        return false;
    }
    let mut i: usize = 0;
    while i < left.len()
        invariant
            left@ == a@,
            right@ == b@,
            left.len() == right.len(),
            i <= left.len(),
            forall|j: int| 0 <= j < i ==> left[j] == right[j],
        decreases left.len() - i,
    {
        if left[i] != right[i] {
            return false;
        }
        i += 1;
    }
    assert(a@ =~= b@);
    true
}

/// The text that `span` covers, as a string of its own.
pub fn cut(line: &str, span: Span) -> (piece: String)
    requires
        span.start <= span.end <= line@.len(),
    ensures
        piece@ == span.of(line@),
{
    line.substring_char(span.start, span.end).to_owned()
}

} // verus!
