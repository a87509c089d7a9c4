//! Contracts for standard-library functions that `vstd` leaves unspecified.

use std::sync::Arc;
use vstd::prelude::*;

verus! {

/// `core::mem::replace` moves `src` into `dest` and hands back the value that
/// `dest` held before; nothing is dropped or cloned.
pub assume_specification<T>[ core::mem::replace::<T> ](dest: &mut T, src: T) -> (res: T)
    ensures
        *final(dest) == src,
        res == *old(dest),
;

/// `Arc::clone` yields another pointer to the same allocation, so the clone
/// points at the very value the source points at.
#[verifier::external_body]
pub(crate) fn arc_clone<T>(this: &Arc<T>) -> (res: Arc<T>)
    ensures
        res == *this,
{
    Arc::clone(this)
}

/// `Arc::try_unwrap` hands the pointee out when this is the only strong
/// reference to it, and hands the same `Arc` back otherwise. Which of the two
/// happens depends on who else holds the allocation, so nothing is claimed
/// about that.
#[verifier::external_body]
pub(crate) fn arc_try_unwrap<T>(this: Arc<T>) -> (res: Result<T, Arc<T>>)
    ensures
        match res {
            Ok(inner) => inner == *this,
            Err(same) => same == this,
        },
{
    Arc::try_unwrap(this)
}

} // verus!
