//! Code that works for many types: the largest item of a list, and a
//! point whose coordinates may differ in type.

use core::cmp::Ordering;
use vstd::std_specs::cmp::PartialOrdSpec;
use vstd::prelude::*;

verus! {

/// Whether comparisons of `T` in running code are the comparisons that
/// contracts speak of.
pub open spec fn ordered<T: PartialOrd>() -> bool {
    T::obeys_partial_cmp_spec()
}

/// Whether `a` is greater than `b`.
pub open spec fn exceeds<T: PartialOrd>(a: T, b: T) -> bool {
    a.partial_cmp_spec(&b) == Some(Ordering::Greater)
}

/// The largest item of `list`: the first item, replaced in turn by each
/// later item that is greater than the largest before it. Of items that
/// are equal, or that cannot be compared, the earliest stays.
pub open spec fn largest_of<T: PartialOrd>(list: Seq<T>) -> T
    decreases list.len(),
{
    if list.len() <= 1 {
        list[0]
    } else {
        let best = largest_of(list.drop_last());
        if exceeds(list.last(), best) {
            list.last()
        } else {
            best
        }
    }
}

/// The largest item of a list that has one.
pub fn largest<T: PartialOrd>(list: &[T]) -> (best: &T)
    requires
        list@.len() > 0,
    ensures
        list@.contains(*best),
        ordered::<T>() ==> *best == largest_of(list@),
{
    let mut best = &list[0];
    let mut i: usize = 1;
    assert(list@.take(1).len() == 1);
    while i < list.len()
        invariant
            1 <= i <= list@.len(),
            list@.contains(*best),
            ordered::<T>() ==> *best == largest_of(list@.take(i as int)),
        decreases list@.len() - i,
    {
        let item = &list[i];
        assert(list@.take(i + 1).drop_last() =~= list@.take(i as int));
        if *item > *best {
            best = item;
        }
        i += 1;
    }
    assert(list@.take(i as int) =~= list@);
    best
}

/// Of whole numbers, the largest item is one that no item exceeds.
pub proof fn law_largest_is_the_maximum(list: Seq<i32>)
    requires
        list.len() > 0,
    ensures
        list.contains(largest_of(list)),
        forall|k: int| 0 <= k < list.len() ==> list[k] <= largest_of(list),
    decreases list.len(),
{
    if list.len() > 1 {
        law_largest_is_the_maximum(list.drop_last());
        let best = largest_of(list.drop_last());
        let k = choose|k: int| 0 <= k < list.drop_last().len() && list.drop_last()[k] == best;
        assert(list[k] == best);
        assert forall|j: int| 0 <= j < list.len() implies list[j] <= largest_of(list) by {
            if j < list.len() - 1 {
                assert(list.drop_last()[j] == list[j]);
            }
        }
        assert(list[list.len() - 1] == list.last());
    } else {
        assert(list[0] == largest_of(list));
    }
}

/// A point whose two coordinates may differ in type.
pub struct Point<T, U> {
    pub x: T,
    pub y: U,
}

impl<T, U> Point<T, U> {
    /// The first coordinate.
    pub fn x(&self) -> (x: &T)
        ensures
            *x == self.x,
    {
        &self.x
    }
}

} // verus!
