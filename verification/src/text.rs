//! Searching text.

use vstd::prelude::*;
use vstd::std_specs::iter::IteratorSpec;

verus! {

/// Tells whether a character occurs in a text.
pub fn contains_char(s: &str, needle: char) -> (found: bool)
    ensures
        found == s@.contains(needle),
{
    broadcast use vstd::string::group_string_axioms;

    let mut chars = s.chars();
    let ghost mut seen: int = 0;
    loop
        invariant
            0 <= seen <= s@.len(),
            chars.obeys_prophetic_iter_laws(),
            chars.remaining() == s@.skip(seen),
            forall|j: int| 0 <= j < seen ==> s@[j] != needle,
        decreases s@.len() - seen,
    {
        let ghost before = chars;
        match chars.next() {
            Some(c) => {
                assert(before.remaining().len() > 0);
                assert(c == s@[seen]);
                if c == needle {
                    return true;
                }
                proof {
                    assert(s@.skip(seen).drop_first() =~= s@.skip(seen + 1));
                    seen = seen + 1;
                }
            },
            None => {
                assert(before.remaining().len() == 0);
                assert(seen == s@.len());
                return false;
            },
        }
    }
}

} // verus!
