//! The lines of a text.

use vstd::prelude::*;
use crate::text::{chars_of, push_range};

verus! {

/// The position of the first line feed of `text` at or after `from`, or the
/// length of `text` where there is none.
pub open spec fn line_end(text: Seq<char>, from: int) -> int
    decreases text.len() - from,
{
    if from < 0 || from >= text.len() || text[from] == '\n' {
        from
    } else {
        line_end(text, from + 1)
    }
}

/// `line_end` stops at the first line feed and not before.
pub proof fn lemma_line_end(text: Seq<char>, from: int)
    requires
        0 <= from <= text.len(),
    ensures
        from <= line_end(text, from) <= text.len(),
        line_end(text, from) < text.len() ==> text[line_end(text, from)] == '\n',
        forall|j: int| from <= j < line_end(text, from) ==> text[j] != '\n',
    decreases text.len() - from,
{
    if from < text.len() && text[from] != '\n' {
        lemma_line_end(text, from + 1);
    }
}

/// The line that starts at `from` and is ended at `end`: the characters
/// between the two, without the carriage return that stands directly before a
/// line feed.
pub open spec fn line_between(text: Seq<char>, from: int, end: int) -> Seq<char> {
    if from < end < text.len() && text[end - 1] == '\r' {
        text.subrange(from, end - 1)
    } else {
        text.subrange(from, end)
    }
}

/// The lines of `text` from position `from` on.
pub open spec fn lines_from(text: Seq<char>, from: int) -> Seq<Seq<char>>
    decreases text.len() + 1 - from,
{
    if from < 0 || from >= text.len() {
        Seq::empty()
    } else {
        let end = line_end(text, from);
        proof {
            lemma_line_end(text, from);
        }
        seq![line_between(text, from, end)] + lines_from(text, end + 1)
    }
}

/// The lines of `text`: it is cut at each line feed, a carriage return before
/// a line feed goes with it, and the last line needs no line feed.
pub open spec fn lines_of(text: Seq<char>) -> Seq<Seq<char>> {
    lines_from(text, 0)
}

/// The views of a list of strings, in the same order.
pub open spec fn lines_view(lines: Seq<String>) -> Seq<Seq<char>> {
    Seq::new(lines.len(), |i: int| lines[i]@)
}

/// Cuts `text` into its lines.
pub fn split_lines(text: &str) -> (lines: Vec<String>)
    ensures
        lines_view(lines@) == lines_of(text@),
{
    let chars = chars_of(text);
    let mut lines: Vec<String> = Vec::new();
    let mut from: usize = 0;
    assert(lines_view(lines@) + lines_from(chars@, 0) == lines_of(chars@));
    while from < chars.len()
        invariant
            from <= chars.len(),
            chars@ == text@,
            lines_view(lines@) + lines_from(chars@, from as int) == lines_of(chars@),
        decreases chars.len() - from,
    {
        let mut end: usize = from;
        while end < chars.len() && chars[end] != '\n'
            invariant
                from <= end <= chars.len(),
                line_end(chars@, end as int) == line_end(chars@, from as int),
            decreases chars.len() - end,
        {
            end += 1;
        }
        let stop = if from < end && end < chars.len() && chars[end - 1] == '\r' {
            end - 1
        } else {
            end
        };
        let mut line = String::new();
        push_range(&mut line, &chars, from, stop);
        let ghost before = lines_view(lines@);
        lines.push(line);
        assert(line@ == line_between(chars@, from as int, end as int));
        assert(lines_view(lines@) == before.push(line@));
        assert(before.push(line@) + lines_from(chars@, end + 1) == before + lines_from(
            chars@,
            from as int,
        ));
        if end == chars.len() {
            assert(lines_view(lines@) + Seq::<Seq<char>>::empty() == lines_view(lines@));
            return lines;
        }
        from = end + 1;
    }
    lines
}

} // verus!
