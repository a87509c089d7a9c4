//! Choosing between two string slices that live equally long.

use vstd::prelude::*;

verus! {

/// The longer of two string slices by their length in bytes; `b` when
/// neither is longer.
pub fn longest<'a>(a: &'a str, b: &'a str) -> (longer: &'a str)
    ensures
        longer == (if a.len() > b.len() {
            a
        } else {
            b
        }),
{
    if a.len() > b.len() {
        a
    } else {
        b
    }
}

} // verus!
