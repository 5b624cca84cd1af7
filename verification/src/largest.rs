//! The largest element of a slice, over any partially ordered type.
//!
//! For a type whose comparison operators follow its specified partial
//! order, the scan below settles on [`running_largest`]: the first element,
//! replaced whenever a later element compares strictly greater. On a total
//! order that is the maximum; on a genuinely partial one it is exactly what
//! the left-to-right scan gives, which is all that can be said.

use core::cmp::Ordering;
use vstd::prelude::*;
use vstd::std_specs::cmp::PartialOrdSpec;

verus! {

/// The value a left-to-right scan of `s` settles on: the first element,
/// replaced whenever a later element compares strictly greater.
pub open spec fn running_largest<T: PartialOrd>(s: Seq<T>) -> T
    recommends
        s.len() > 0,
    decreases s.len(),
{
    if s.len() <= 1 {
        s[0]
    } else {
        let prev = running_largest(s.drop_last());
        if s.last().partial_cmp_spec(&prev) == Some(Ordering::Greater) {
            s.last()
        } else {
            prev
        }
    }
}

/// The largest element of a non-empty slice of copyable values: an element
/// no later element of the scan displaced. For a type whose comparisons
/// obey its specified order, this is exactly [`running_largest`].
pub fn largest<T: PartialOrd + Copy>(list: &[T]) -> (r: T)
    requires
        list@.len() > 0,
    ensures
        list@.contains(r),
        T::obeys_partial_cmp_spec() ==> r == running_largest(list@),
{
    let mut largest = list[0];
    let mut i: usize = 1;
    while i < list.len()
        invariant
            1 <= i <= list@.len(),
            exists|k: int| 0 <= k < i && largest == list@[k],
            T::obeys_partial_cmp_spec() ==> largest == running_largest(list@.take(i as int)),
        decreases list@.len() - i,
    {
        let ghost prefix = list@.take(i as int);
        let item = list[i];
        if item > largest {
            largest = item;
        }
        i = i + 1;
        proof {
            assert(list@.take(i as int).drop_last() =~= prefix);
        }
    }
    proof {
        assert(list@.take(list@.len() as int) =~= list@);
        let k = choose|k: int| 0 <= k < list@.len() && largest == list@[k];
        assert(list@[k] == largest);
    }
    largest
}

/// The largest element of a non-empty slice, returned by reference: no
/// copy and no clone, any partially ordered element type.
pub fn largest_ref<'a, T: PartialOrd>(list: &'a [T]) -> (r: &'a T)
    requires
        list@.len() > 0,
    ensures
        list@.contains(*r),
        T::obeys_partial_cmp_spec() ==> *r == running_largest(list@),
{
    let mut largest: &T = &list[0];
    let mut i: usize = 1;
    while i < list.len()
        invariant
            1 <= i <= list@.len(),
            exists|k: int| 0 <= k < i && *largest == list@[k],
            T::obeys_partial_cmp_spec() ==> *largest == running_largest(list@.take(i as int)),
        decreases list@.len() - i,
    {
        let ghost prefix = list@.take(i as int);
        let item = &list[i];
        if *item > *largest {
            largest = item;
        }
        i = i + 1;
        proof {
            assert(list@.take(i as int).drop_last() =~= prefix);
        }
    }
    proof {
        assert(list@.take(list@.len() as int) =~= list@);
        let k = choose|k: int| 0 <= k < list@.len() && *largest == list@[k];
        assert(list@[k] == *largest);
    }
    largest
}

} // verus!
