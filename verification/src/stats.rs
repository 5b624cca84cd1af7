//! The mode of a list of numbers.

use vstd::prelude::*;

verus! {

/// How many times `x` occurs in `s`.
pub open spec fn count_of(s: Seq<i32>, x: i32) -> nat
    decreases s.len(),
{
    if s.len() == 0 {
        0
    } else {
        count_of(s.drop_last(), x) + if s.last() == x {
            1nat
        } else {
            0nat
        }
    }
}

/// An element of a sequence occurs in it at least once.
proof fn lemma_count_element_positive(s: Seq<i32>, k: int)
    requires
        0 <= k < s.len(),
    ensures
        count_of(s, s[k]) >= 1,
    decreases s.len(),
{
    if k < s.len() - 1 {
        lemma_count_element_positive(s.drop_last(), k);
    }
}

/// Counting never exceeds the number of elements looked at.
proof fn lemma_count_at_most_len(s: Seq<i32>, x: i32)
    ensures
        count_of(s, x) <= s.len(),
    decreases s.len(),
{
    if s.len() > 0 {
        lemma_count_at_most_len(s.drop_last(), x);
    }
}

/// How many times `x` occurs among `nums`.
fn count(nums: &Vec<i32>, x: i32) -> (c: usize)
    ensures
        c == count_of(nums@, x),
{
    let mut c: usize = 0;
    let mut i: usize = 0;
    while i < nums.len()
        invariant
            i <= nums@.len(),
            c == count_of(nums@.take(i as int), x),
        decreases nums@.len() - i,
    {
        let ghost prefix = nums@.take(i as int);
        proof {
            lemma_count_at_most_len(prefix, x);
        }
        if nums[i] == x {
            c = c + 1;
        }
        i = i + 1;
        proof {
            assert(nums@.take(i as int).drop_last() =~= prefix);
        }
    }
    proof {
        assert(nums@.take(nums@.len() as int) =~= nums@);
    }
    c
}

/// The mode: a value occurring in `nums` at least as often as any other,
/// or zero for an empty list.
pub fn calc_mode(nums: &Vec<i32>) -> (m: i32)
    ensures
        nums@.len() == 0 ==> m == 0,
        nums@.len() > 0 ==> nums@.contains(m),
        forall|k: int| 0 <= k < nums@.len() ==> count_of(nums@, nums@[k]) <= count_of(nums@, m),
{
    let mut max_key: i32 = 0;
    let mut max_val: usize = 0;
    let mut i: usize = 0;
    while i < nums.len()
        invariant
            i <= nums@.len(),
            i == 0 ==> max_key == 0 && max_val == 0,
            i > 0 ==> nums@.contains(max_key) && max_val == count_of(nums@, max_key) && max_val
                >= 1,
            forall|k: int| 0 <= k < i ==> count_of(nums@, nums@[k]) <= max_val,
        decreases nums@.len() - i,
    {
        let c = count(nums, nums[i]);
        proof {
            lemma_count_element_positive(nums@, i as int);
        }
        if c > max_val {
            max_val = c;
            max_key = nums[i];
        }
        i = i + 1;
    }
    max_key
}

} // verus!
