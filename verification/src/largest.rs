//! The largest element of a slice, found with a single scan.

use core::cmp::Ordering;
use vstd::std_specs::cmp::PartialOrdSpec;
use vstd::prelude::*;

verus! {

/// Whether `a` compares as strictly greater than `b`.
pub open spec fn exceeds<T: PartialOrd>(a: T, b: T) -> bool {
    a.partial_cmp_spec(&b) == Some(Ordering::Greater)
}

/// The position that a scan from the left settles on: it starts at the first
/// element and moves on to a later element only when that one compares as
/// strictly greater than the element it stands on. Among equals the earliest
/// wins, and an element that is not comparable with the current one is passed
/// over.
pub open spec fn largest_at<T: PartialOrd>(list: Seq<T>) -> int
    decreases list.len(),
{
    if list.len() <= 1 {
        0
    } else {
        let before = largest_at(list.drop_last());
        if exceeds(list.last(), list[before]) {
            list.len() - 1
        } else {
            before
        }
    }
}

/// The scan settles on a position inside the list.
pub proof fn lemma_largest_at_in_range<T: PartialOrd>(list: Seq<T>)
    requires
        list.len() > 0,
    ensures
        0 <= largest_at(list) < list.len(),
    decreases list.len(),
{
    if list.len() > 1 {
        lemma_largest_at_in_range(list.drop_last());
    }
}

/// The comparison treats the elements of `list` as a weak order: nothing
/// exceeds what exceeds it, and "does not exceed" carries over from one pair
/// to the next. Every total order is one.
pub open spec fn weakly_ordered<T: PartialOrd>(list: Seq<T>) -> bool {
    &&& forall|i: int, j: int|
        0 <= i < list.len() && 0 <= j < list.len() && #[trigger] exceeds(list[i], list[j])
            ==> !exceeds(list[j], list[i])
    &&& forall|i: int, j: int, k: int|
        0 <= i < list.len() && 0 <= j < list.len() && 0 <= k < list.len() && !#[trigger] exceeds(
            list[i],
            list[j],
        ) && !#[trigger] exceeds(list[j], list[k]) ==> !exceeds(list[i], list[k])
}

/// In a weak order no element exceeds the one that the scan settles on.
pub proof fn lemma_largest_unexceeded<T: PartialOrd>(list: Seq<T>, other: int)
    requires
        weakly_ordered(list),
        0 <= other < list.len(),
    ensures
        !exceeds(list[other], list[largest_at(list)]),
    decreases list.len(),
{
    if list.len() > 1 {
        let front = list.drop_last();
        let before = largest_at(front);
        let last = list.len() - 1;
        lemma_largest_at_in_range(front);
        assert(weakly_ordered(front)) by {
            assert forall|i: int| 0 <= i < front.len() implies front[i] == list[i] by {}
        }
        if other < last {
            lemma_largest_unexceeded(front, other);
            assert(front[other] == list[other]);
        }
        assert(front[before] == list[before]);
        if exceeds(list[last], list[before]) {
            // Nothing exceeds what exceeds it, so the element left behind
            // does not exceed the new one, and neither does anything that
            // did not exceed the element left behind.
            assert(!exceeds(list[before], list[last]));
        }
    }
    if exceeds(list[other], list[other]) {
        // An element would have to exceed what exceeds it.
    }
}

/// The first `count` elements of `list`.
pub open spec fn scanned<T>(list: Seq<T>, count: usize) -> Seq<T> {
    list.take(count as int)
}

/// Cloning `T` yields an equal value.
pub open spec fn clones_exactly<T: Clone>() -> bool {
    forall|a: T, b: T| #[trigger] cloned(a, b) ==> a == b
}

/// The largest element of `list` by value.
pub fn largest<T: PartialOrd + Copy>(list: &[T]) -> (found: T)
    requires
        list@.len() > 0,
    ensures
        list@.contains(found),
        T::obeys_partial_cmp_spec() ==> found == list@[largest_at(list@)],
{
    let mut largest = list[0];
    let mut at: usize = 1;
    while at < list.len()
        invariant
            1 <= at <= list@.len(),
            list@.contains(largest),
            T::obeys_partial_cmp_spec() ==> largest == list@[largest_at(scanned(list@, at))],
        decreases list@.len() - at,
    {
        let ghost before = at;
        let item = list[at];
        if item > largest {
            largest = item;
        }
        at = at + 1;
        proof {
            assert(scanned(list@, at).drop_last() =~= scanned(list@, before));
            lemma_largest_at_in_range(scanned(list@, before));
        }
    }
    assert(scanned(list@, at) =~= list@);
    largest
}

/// The largest element of `list` by reference.
pub fn largest_ref<T: PartialOrd>(list: &[T]) -> (found: &T)
    requires
        list@.len() > 0,
    ensures
        list@.contains(*found),
        T::obeys_partial_cmp_spec() ==> *found == list@[largest_at(list@)],
{
    let mut largest = &list[0];
    let mut at: usize = 1;
    while at < list.len()
        invariant
            1 <= at <= list@.len(),
            list@.contains(*largest),
            T::obeys_partial_cmp_spec() ==> *largest == list@[largest_at(scanned(list@, at))],
        decreases list@.len() - at,
    {
        let ghost before = at;
        let item = &list[at];
        if *item > *largest {
            largest = item;
        }
        at = at + 1;
        proof {
            assert(scanned(list@, at).drop_last() =~= scanned(list@, before));
            lemma_largest_at_in_range(scanned(list@, before));
        }
    }
    assert(scanned(list@, at) =~= list@);
    largest
}

/// A clone of the largest element of `list`. The scan compares against the
/// clones it has made, so what it settles on is pinned down only for types
/// whose clones equal what they were cloned from.
pub fn largest_clone<T: PartialOrd + Clone>(list: &[T]) -> (found: T)
    requires
        list@.len() > 0,
    ensures
        exists|i: int| 0 <= i < list@.len() && cloned(#[trigger] list@[i], found),
        T::obeys_partial_cmp_spec() && clones_exactly::<T>() ==> found == list@[largest_at(
            list@,
        )],
{
    let mut largest = list[0].clone();
    let mut at: usize = 1;
    assert(cloned(list@[0], largest));
    while at < list.len()
        invariant
            1 <= at <= list@.len(),
            exists|i: int| 0 <= i < list@.len() && cloned(#[trigger] list@[i], largest),
            T::obeys_partial_cmp_spec() && clones_exactly::<T>() ==> largest == list@[largest_at(
                scanned(list@, at),
            )],
        decreases list@.len() - at,
    {
        let ghost before = at;
        let item = &list[at];
        if *item > largest {
            largest = item.clone();
            assert(cloned(*item, largest));
        }
        at = at + 1;
        proof {
            assert(scanned(list@, at).drop_last() =~= scanned(list@, before));
            lemma_largest_at_in_range(scanned(list@, before));
        }
    }
    assert(scanned(list@, at) =~= list@);
    largest
}

} // verus!
