//! When a value counts: it must show something besides white space.

use vstd::prelude::*;
use vstd::std_specs::iter::IteratorSpec;

verus! {

/// White space as HTML knows it: space, tab, line feed, form feed and
/// carriage return.
pub open spec fn is_space(c: char) -> bool {
    c == ' ' || c == '\t' || c == '\n' || c == '\x0C' || c == '\r'
}

/// A text that is empty or holds white space only.
pub open spec fn is_blank(text: Seq<char>) -> bool {
    forall|i: int| 0 <= i < text.len() ==> is_space(#[trigger] text[i])
}

/// Tells whether a character is white space.
pub fn space(c: char) -> (yes: bool)
    ensures
        yes == is_space(c),
{
    c == ' ' || c == '\t' || c == '\n' || c == '\x0C' || c == '\r'
}

/// Tells whether a text is empty or holds white space only.
pub fn blank(text: &str) -> (yes: bool)
    ensures
        yes == is_blank(text@),
{
    let mut rest = text.chars();
    let ghost mut seen: int = 0;
    loop
        invariant
            0 <= seen <= text@.len(),
            rest.obeys_prophetic_iter_laws(),
            rest.remaining() == text@.skip(seen),
            forall|i: int| 0 <= i < seen ==> is_space(#[trigger] text@[i]),
        decreases text@.len() - seen,
    {
        match rest.next() {
            Some(c) => {
                assert(c == text@[seen]);
                if !space(c) {
                    return false;
                }
                proof {
                    assert(text@.skip(seen).drop_first() == text@.skip(seen + 1));
                    seen = seen + 1;
                }
            },
            None => {
                return true;
            },
        }
    }
}

/// A reading counts where there is one and it is not blank.
pub open spec fn is_hit(reading: Option<Seq<char>>) -> bool {
    reading matches Some(value) && !is_blank(value)
}

/// Tells whether a reading counts.
pub fn hit(reading: &Option<String>) -> (yes: bool)
    ensures
        yes == is_hit(reading.deep_view()),
{
    match reading {
        Some(value) => !blank(value.as_str()),
        None => false,
    }
}

} // verus!
