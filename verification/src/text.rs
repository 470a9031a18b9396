//! Comparison of texts.

use vstd::prelude::*;
use vstd::std_specs::iter::IteratorSpec;

verus! {

/// Whether two texts hold the same characters.
pub fn same_text(left: &str, right: &str) -> (same: bool)
    ensures
        same == (left@ == right@),
{
    let mut others = right.chars();
    let ghost mut at: int = 0;
    for c in it: left.chars()
        invariant
            at == it.index(),
            it.seq() == left@,
            others.remaining() == right@.skip(at),
            others.obeys_prophetic_iter_laws(),
            at <= right@.len(),
            forall|before: int| 0 <= before < at ==> left@[before] == right@[before],
    {
        match others.next() {
            Some(d) => {
                if c != d {
                    return false;
                }
            },
            None => {
                return false;
            },
        }
        proof {
            at = at + 1;
        }
    }
    let rest = others.next();
    proof {
        if rest is None {
            assert(left@ =~= right@);
        }
    }
    rest.is_none()
}

} // verus!
