//! Character-level helpers shared by the prompt compiler and the web rules.

use vstd::prelude::*;
use vstd::std_specs::iter::IteratorSpec;
use vstd::string::StrSliceExecFns;

verus! {

/// `String::push` of the standard library: the character is appended at the
/// end and nothing else changes.
pub assume_specification[ String::push ](s: &mut String, ch: char)
    ensures
        final(s)@ == old(s)@.push(ch),
;

/// The characters of a string slice, in order.
pub fn chars_of(s: &str) -> (out: Vec<char>)
    ensures
        out@ == s@,
{
    broadcast use vstd::string::group_string_axioms;

    let mut out: Vec<char> = Vec::new();
    for c in it: s.chars()
        invariant
            it.seq() == s@,
            out@ == it.seq().take(it.index() as int),
    {
        out.push(c);
    }
    out
}

/// Appends `chars[from..to]` to `target`.
pub fn push_range(target: &mut String, chars: &Vec<char>, from: usize, to: usize)
    requires
        from <= to <= chars.len(),
    ensures
        final(target)@ == old(target)@ + chars@.subrange(from as int, to as int),
{
    let mut i: usize = from;
    while i < to
        invariant
            from <= i <= to <= chars.len(),
            target@ == old(target)@ + chars@.subrange(from as int, i as int),
        decreases to - i,
    {
        target.push(chars[i]);
        i += 1;
        assert(chars@.subrange(from as int, i as int) == chars@.subrange(
            from as int,
            i as int - 1,
        ).push(chars@[i as int - 1]));
    }
}

/// A string holding exactly the given characters.
pub fn string_of(chars: &Vec<char>) -> (out: String)
    ensures
        out@ == chars@,
{
    let mut out = String::new();
    push_range(&mut out, chars, 0, chars.len());
    assert(chars@.subrange(0, chars.len() as int) == chars@);
    out
}

/// Whether the characters of `text` from position `from` on spell `word`.
pub fn tail_is(text: &Vec<char>, from: usize, word: &str) -> (same: bool)
    requires
        from <= text.len(),
    ensures
        same == (text@.skip(from as int) == word@),
{
    let n = word.unicode_len();
    if text.len() - from != n {
        return false;
    }
    let mut i: usize = 0;
    while i < n
        invariant
            n == word@.len(),
            text.len() - from == n,
            i <= n,
            forall|j: int| 0 <= j < i ==> text@[from + j] == word@[j],
        decreases n - i,
    {
        if text[from + i] != word.get_char(i) {
            assert(text@.skip(from as int)[i as int] != word@[i as int]);
            return false;
        }
        i += 1;
    }
    assert(text@.skip(from as int) =~= word@);
    true
}

} // verus!
