//! Reborrows of a mutable reference, and what they are allowed to do.

use vstd::prelude::*;

verus! {

/// Writes through a mutable reborrow of a mutable reference while the outer
/// reference stays unused, and returns the value that ends up in the
/// variable.
pub fn basic_borrows() -> (data: i32)
    ensures
        data == 12,
{
    let mut data: i32 = 10;
    let ref1 = &mut data;
    let ref2 = &mut *ref1;

    *ref2 += 2;
    data
}

fn opaque_read(val: &i32, seen: &mut Vec<i32>)
    ensures
        final(seen)@ == old(seen)@.push(*val),
{
    seen.push(*val);
}

/// Reads a value through several shared reborrows of one mutable reference,
/// in mixed order, then writes through the mutable reference once the shared
/// ones are no longer used, and reads the value directly. Returns what each
/// read saw, in order.
pub fn testing_safe_shared_ref() -> (seen: Vec<i32>)
    ensures
        seen@ == seq![10i32, 10, 10, 10, 10, 11],
{
    let mut seen = Vec::new();
    let mut data: i32 = 10;
    let mref1 = &mut data;
    let sref2 = &mref1;
    let sref3 = sref2;
    let sref4 = &*sref2;

    // Random hash of shared reference reads
    opaque_read(sref3, &mut seen);
    opaque_read(sref2, &mut seen);
    opaque_read(sref4, &mut seen);
    opaque_read(sref2, &mut seen);
    opaque_read(sref3, &mut seen);

    *mref1 += 1;

    opaque_read(&data, &mut seen);
    seen
}

} // verus!
