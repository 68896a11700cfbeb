//! Measures of text that the layout depends on.

use vstd::prelude::*;
use vstd::utf8::encode_utf8;

verus! {

/// How many bytes `text` takes in UTF-8: its length as the terminal layout
/// counts it.
pub open spec fn byte_len(text: Seq<char>) -> nat {
    encode_utf8(text).len()
}

/// The characters of each text of `list`.
pub open spec fn texts(list: Seq<String>) -> Seq<Seq<char>> {
    list.map_values(|text: String| text@)
}

/// How often `c` occurs in `text`.
pub open spec fn occurrences(text: Seq<char>, c: char) -> nat
    decreases text.len(),
{
    if text.len() == 0 {
        0
    } else {
        occurrences(text.drop_last(), c) + if text.last() == c {
            1nat
        } else {
            0nat
        }
    }
}

/// The number of line breaks in `text`.
pub open spec fn line_breaks(text: Seq<char>) -> nat {
    occurrences(text, '\n')
}

/// `c` occurs in `text` exactly when it is counted at least once, and it is
/// never counted more often than `text` is long.
pub proof fn lemma_occurrences(text: Seq<char>, c: char)
    ensures
        occurrences(text, c) <= text.len(),
        occurrences(text, c) > 0 <==> text.contains(c),
    decreases text.len(),
{
    if text.len() > 0 {
        let front = text.drop_last();
        lemma_occurrences(front, c);
        if text.last() == c {
            assert(text[text.len() - 1] == c);
        } else if text.contains(c) {
            let i = choose|i: int| 0 <= i < text.len() && text[i] == c;
            assert(front[i] == c);
        } else if front.contains(c) {
            let i = choose|i: int| 0 <= i < front.len() && front[i] == c;
            assert(text[i] == c);
        }
    }
}

/// A text has at most as many characters as bytes.
pub proof fn lemma_byte_len(text: Seq<char>)
    ensures
        text.len() <= byte_len(text),
    decreases text.len(),
{
    if text.len() > 0 {
        lemma_byte_len(text.drop_first());
    }
}

/// The length of `text` in bytes.
pub fn byte_length(text: &str) -> (n: usize)
    ensures
        n == byte_len(text@),
{
    text.as_bytes().len()
}

/// Counts how often `c` occurs in `text`.
pub fn count_char(text: &str, c: char) -> (n: usize)
    ensures
        n == occurrences(text@, c),
{
    let bytes = byte_length(text);
    proof {
        lemma_byte_len(text@);
    }
    let mut n: usize = 0;
    for x in it: text.chars()
        invariant
            it.seq() == text@,
            text@.len() <= bytes,
            n == occurrences(text@.take(it.index() as int), c),
            n <= it.index(),
    {
        proof {
            let k = it.index() as int;
            assert(text@.take(k + 1).drop_last() =~= text@.take(k));
            assert(text@.take(k + 1).last() == x);
        }
        if x == c {
            n = n + 1;
        }
    }
    proof {
        assert(text@.take(text@.len() as int) =~= text@);
    }
    n
}

/// Tells whether `c` occurs in `text`.
pub fn has_char(text: &str, c: char) -> (found: bool)
    ensures
        found == text@.contains(c),
{
    proof {
        lemma_occurrences(text@, c);
    }
    count_char(text, c) > 0
}

/// `text` followed by a line break.
pub fn with_line_break(text: &str) -> (line: String)
    ensures
        line@ == text@.push('\n'),
{
    let mut line = String::from_str(text);
    line.append("\n");
    proof {
        reveal_strlit("\n");
        assert(line@ =~= text@.push('\n'));
    }
    line
}

} // verus!
