//! Placeholder bindings and the substitution of markers by their values.
//!
//! Substitution is one pass over the text from left to right. What a value
//! holds is never looked at again, so a value that spells a marker stays as
//! it is.

use vstd::prelude::*;
use crate::text::{chars_of, string_of};

verus! {

/// The mathematical content of a [`PlaceholderBinding`].
pub struct BindingView {
    pub marker: Seq<char>,
    pub value: Seq<char>,
}

/// A marker that may occur in a template, and the text that takes its place.
#[derive(Clone, Debug)]
pub struct PlaceholderBinding {
    marker: Vec<char>,
    value: Vec<char>,
}

impl View for PlaceholderBinding {
    type V = BindingView;

    closed spec fn view(&self) -> BindingView {
        BindingView { marker: self.marker@, value: self.value@ }
    }
}

impl PlaceholderBinding {
    /// Binds `marker` to `value`.
    pub fn new(marker: &str, value: &str) -> (binding: Self)
        ensures
            binding@.marker == marker@,
            binding@.value == value@,
    {
        PlaceholderBinding { marker: chars_of(marker), value: chars_of(value) }
    }

    /// The literal text that is looked for.
    pub fn marker(&self) -> (out: String)
        ensures
            out@ == self@.marker,
    {
        string_of(&self.marker)
    }

    /// The text that replaces the marker.
    pub fn value(&self) -> (out: String)
        ensures
            out@ == self@.value,
    {
        string_of(&self.value)
    }
}

/// The views of a list of bindings, in the same order.
pub open spec fn bindings_view(bindings: Seq<PlaceholderBinding>) -> Seq<BindingView> {
    Seq::new(bindings.len(), |i: int| bindings[i]@)
}

/// A binding applies at the front of `text` when its marker is not empty and
/// `text` starts with it.
pub open spec fn applies(binding: BindingView, text: Seq<char>) -> bool {
    binding.marker.len() > 0 && binding.marker.is_prefix_of(text)
}

/// The first binding at or after position `from` that applies at the front of
/// `text`.
pub open spec fn first_applicable(text: Seq<char>, bindings: Seq<BindingView>, from: int) -> Option<
    int,
>
    decreases bindings.len() - from,
{
    if from < 0 || from >= bindings.len() {
        None
    } else if applies(bindings[from], text) {
        Some(from)
    } else {
        first_applicable(text, bindings, from + 1)
    }
}

/// What `first_applicable` finds is a binding that applies.
pub proof fn lemma_first_applicable(text: Seq<char>, bindings: Seq<BindingView>, from: int)
    ensures
        match first_applicable(text, bindings, from) {
            Some(k) => from <= k < bindings.len() && applies(bindings[k], text) && forall|j: int|
                from <= j < k ==> !applies(#[trigger] bindings[j], text),
            None => forall|j: int|
                0 <= from <= j < bindings.len() ==> !applies(#[trigger] bindings[j], text),
        },
    decreases bindings.len() - from,
{
    if 0 <= from < bindings.len() && !applies(bindings[from], text) {
        lemma_first_applicable(text, bindings, from + 1);
    }
}

/// `text` after one pass from left to right: where a binding applies, its
/// value stands in place of its marker (the first such binding, in the order
/// given), and the scan goes on behind the marker; a value is never scanned.
pub open spec fn substitute(text: Seq<char>, bindings: Seq<BindingView>) -> Seq<char>
    decreases text.len(),
{
    if text.len() == 0 {
        Seq::empty()
    } else {
        match first_applicable(text, bindings, 0) {
            Some(k) => {
                proof {
                    lemma_first_applicable(text, bindings, 0);
                }
                bindings[k].value + substitute(
                    text.skip(bindings[k].marker.len() as int),
                    bindings,
                )
            },
            None => seq![text[0]] + substitute(text.skip(1), bindings),
        }
    }
}


/// Whether `binding` applies to `text` from position `at` on.
fn applies_at(text: &Vec<char>, at: usize, binding: &PlaceholderBinding) -> (hit: bool)
    requires
        at <= text.len(),
    ensures
        hit == applies(binding@, text@.skip(at as int)),
{
    let m = binding.marker.len();
    if m == 0 || m > text.len() - at {
        return false;
    }
    let ghost rest = text@.skip(at as int);
    let mut j: usize = 0;
    while j < m
        invariant
            m == binding.marker.len(),
            at + m <= text.len(),
            j <= m,
            rest == text@.skip(at as int),
            forall|k: int| 0 <= k < j ==> text@[at + k] == binding.marker@[k],
        decreases m - j,
    {
        if text[at + j] != binding.marker[j] {
            assert(rest.subrange(0, m as int)[j as int] != binding.marker@[j as int]);
            return false;
        }
        j += 1;
    }
    assert(binding.marker@ =~= rest.subrange(0, m as int));
    true
}

/// The first binding that applies to `text` from position `at` on.
fn find_applicable(text: &Vec<char>, at: usize, bindings: &Vec<PlaceholderBinding>) -> (found:
    Option<usize>)
    requires
        at <= text.len(),
    ensures
        match found {
            Some(k) => first_applicable(text@.skip(at as int), bindings_view(bindings@), 0)
                == Some(k as int) && k < bindings.len(),
            None => first_applicable(text@.skip(at as int), bindings_view(bindings@), 0)
                is None,
        },
{
    let ghost rest = text@.skip(at as int);
    let ghost views = bindings_view(bindings@);
    let mut k: usize = 0;
    while k < bindings.len()
        invariant
            at <= text.len(),
            k <= bindings.len(),
            rest == text@.skip(at as int),
            views == bindings_view(bindings@),
            first_applicable(rest, views, k as int) == first_applicable(rest, views, 0),
        decreases bindings.len() - k,
    {
        if applies_at(text, at, &bindings[k]) {
            return Some(k);
        }
        k += 1;
    }
    None
}

/// Replaces, in one pass over `text`, each marker by the value bound to it.
pub fn substitute_chars(text: &Vec<char>, bindings: &Vec<PlaceholderBinding>) -> (out: Vec<char>)
    ensures
        out@ == substitute(text@, bindings_view(bindings@)),
{
    let ghost views = bindings_view(bindings@);
    let mut out: Vec<char> = Vec::new();
    let mut i: usize = 0;
    assert(text@.skip(0) == text@);
    assert(out@ + substitute(text@, views) == substitute(text@, views));
    while i < text.len()
        invariant
            i <= text.len(),
            views == bindings_view(bindings@),
            out@ + substitute(text@.skip(i as int), views) == substitute(text@, views),
        decreases text.len() - i,
    {
        let ghost rest = text@.skip(i as int);
        match find_applicable(text, i, bindings) {
            Some(k) => {
                proof {
                    lemma_first_applicable(rest, views, 0);
                }
                let binding = &bindings[k];
                let m = binding.marker.len();
                let ghost before = out@;
                let mut j: usize = 0;
                while j < binding.value.len()
                    invariant
                        j <= binding.value.len(),
                        out@ == before + binding.value@.take(j as int),
                    decreases binding.value.len() - j,
                {
                    out.push(binding.value[j]);
                    j += 1;
                }
                assert(binding.value@.take(j as int) == binding.value@);
                assert(rest.skip(m as int) == text@.skip(i + m));
                assert(out@ + substitute(text@.skip(i + m), views) == before + substitute(
                    rest,
                    views,
                ));
                i += m;
            },
            None => {
                let ghost before = out@;
                out.push(text[i]);
                assert(rest.skip(1) == text@.skip(i + 1));
                assert(out@ + substitute(text@.skip(i + 1), views) == before + substitute(
                    rest,
                    views,
                ));
                i += 1;
            },
        }
    }
    assert(text@.skip(i as int).len() == 0);
    assert(out@ + Seq::<char>::empty() == out@);
    out
}

/// Replaces, in one pass over `text`, each marker by the value bound to it.
pub fn substitute_text(text: &str, bindings: &Vec<PlaceholderBinding>) -> (out: String)
    ensures
        out@ == substitute(text@, bindings_view(bindings@)),
{
    let chars = chars_of(text);
    let replaced = substitute_chars(&chars, bindings);
    string_of(&replaced)
}


/// Whether some binding applies somewhere in `text` before position `end`.
pub open spec fn marker_starts_before(
    text: Seq<char>,
    bindings: Seq<BindingView>,
    end: int,
) -> bool {
    exists|p: int, k: int|
        0 <= p < end && p < text.len() && 0 <= k < bindings.len() && applies(
            #[trigger] bindings[k],
            #[trigger] text.skip(p),
        )
}

/// A text in which no marker occurs is left as it is.
pub proof fn lemma_substitute_untouched(text: Seq<char>, bindings: Seq<BindingView>)
    requires
        !marker_starts_before(text, bindings, text.len() as int),
    ensures
        substitute(text, bindings) == text,
    decreases text.len(),
{
    if text.len() > 0 {
        let rest = text.skip(1);
        lemma_first_applicable(text, bindings, 0);
        assert(text.skip(0) == text);
        assert(first_applicable(text, bindings, 0) is None) by {
            if first_applicable(text, bindings, 0) is Some {
                let k = first_applicable(text, bindings, 0)->Some_0;
                assert(applies(bindings[k], text.skip(0)));
            }
        }
        assert(!marker_starts_before(rest, bindings, rest.len() as int)) by {
            if marker_starts_before(rest, bindings, rest.len() as int) {
                let (p, k) = choose|p: int, k: int|
                    0 <= p < rest.len() && p < rest.len() && 0 <= k < bindings.len() && applies(
                        #[trigger] bindings[k],
                        #[trigger] rest.skip(p),
                    );
                assert(rest.skip(p) == text.skip(p + 1));
                assert(applies(bindings[k], text.skip(p + 1)));
            }
        }
        lemma_substitute_untouched(rest, bindings);
        assert(seq![text[0]] + rest == text);
    }
}

/// Where a marker stands in a text and no marker starts before it, the text
/// before it is kept, the value bound to it takes its place, and what follows
/// it is substituted on its own: `before + marker + after` becomes
/// `before + value + substitute(after)`. Among several bindings that apply at
/// that place, the first in the order given is the one that counts.
pub proof fn lemma_substitute_marker(
    before: Seq<char>,
    after: Seq<char>,
    bindings: Seq<BindingView>,
    which: int,
)
    requires
        0 <= which < bindings.len(),
        bindings[which].marker.len() > 0,
        !marker_starts_before(
            before + bindings[which].marker + after,
            bindings,
            before.len() as int,
        ),
        forall|j: int|
            0 <= j < which ==> !applies(#[trigger] bindings[j], bindings[which].marker + after),
    ensures
        substitute(before + bindings[which].marker + after, bindings) == before
            + bindings[which].value + substitute(after, bindings),
    decreases before.len(),
{
    let marker = bindings[which].marker;
    let text = before + marker + after;
    lemma_first_applicable(text, bindings, 0);
    assert(text.skip(0) == text);
    if before.len() == 0 {
        assert(text == marker + after);
        assert(marker == text.subrange(0, marker.len() as int));
        assert(applies(bindings[which], text));
        assert(first_applicable(text, bindings, 0) == Some(which));
        assert(text.skip(marker.len() as int) == after);
        assert(before + bindings[which].value + substitute(after, bindings)
            == bindings[which].value + substitute(after, bindings));
    } else {
        assert(first_applicable(text, bindings, 0) is None) by {
            if first_applicable(text, bindings, 0) is Some {
                let k = first_applicable(text, bindings, 0)->Some_0;
                assert(applies(bindings[k], text.skip(0)));
            }
        }
        let shorter = before.skip(1);
        let rest = shorter + marker + after;
        assert(text.skip(1) == rest);
        assert(!marker_starts_before(rest, bindings, shorter.len() as int)) by {
            if marker_starts_before(rest, bindings, shorter.len() as int) {
                let (p, k) = choose|p: int, k: int|
                    0 <= p < shorter.len() && p < rest.len() && 0 <= k < bindings.len() && applies(
                        #[trigger] bindings[k],
                        #[trigger] rest.skip(p),
                    );
                assert(rest.skip(p) == text.skip(p + 1));
                assert(applies(bindings[k], text.skip(p + 1)));
            }
        }
        lemma_substitute_marker(shorter, after, bindings, which);
        assert(seq![text[0]] + (shorter + bindings[which].value + substitute(after, bindings))
            == before + bindings[which].value + substitute(after, bindings));
    }
}


} // verus!
