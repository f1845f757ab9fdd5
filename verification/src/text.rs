//! Comparing texts.

use vstd::prelude::*;

verus! {

/// Whether text `a` equals text `b`, character by character.
pub(crate) fn same_text(a: &str, b: &str) -> (same: bool)
    ensures
        same == (a@ == b@),
{
    a.to_owned() == b.to_owned()
}

} // verus!
