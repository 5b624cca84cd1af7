//! The smallest free identifier, found by counting upwards.

use vstd::prelude::*;
use vstd::assert_by_contradiction;
use vstd::set_lib::lemma_int_range;
use vstd::set_lib::lemma_len_subset;
use vstd::set_lib::set_int_range;

verus! {

/// Whether `id` occurs among `ids`.
fn contains_id(ids: &[usize], id: usize) -> (b: bool)
    ensures
        b == ids@.contains(id),
{
    let mut k: usize = 0;
    while k < ids.len()
        invariant
            k <= ids@.len(),
            forall|j: int| 0 <= j < k ==> ids@[j] != id,
        decreases ids@.len() - k,
    {
        if ids[k] == id {
            return true;
        }
        k = k + 1;
    }
    false
}

/// Among the identifiers `0 ..= n`, at least one is missing from a list of
/// `n` identifiers: there are `n + 1` of those and only `n` slots.
pub proof fn lemma_some_id_free(ids: Seq<usize>)
    requires
        ids.len() < usize::MAX,
    ensures
        exists|j: usize| j <= ids.len() && !ids.contains(j),
{
    broadcast use vstd::seq_lib::seq_to_set_is_finite;

    let n = ids.len() as int;
    let t = ids.map_values(|v: usize| v as int);
    assert_by_contradiction!(exists|j: usize| j <= ids.len() && !ids.contains(j), {
        assert forall|x: int| set_int_range(0, n + 1).contains(x) implies t.to_set().contains(
            x,
        ) by {
            let ju = x as usize;
            assert(ju <= ids.len() && ids.contains(ju));
            let k = choose|k: int| 0 <= k < ids.len() && ids[k] == ju;
            assert(t[k] == x);
            assert(t.contains(x));
        }
        lemma_int_range(0, n + 1);
        t.lemma_cardinality_of_set();
        lemma_len_subset(set_int_range(0, n + 1), t.to_set());
    });
}

/// The smallest identifier that does not occur among `ids`, found by
/// trying each identifier from zero upwards.
pub fn next_id(ids: &[usize]) -> (id: usize)
    requires
        ids@.len() < usize::MAX,
    ensures
        !ids@.contains(id),
        forall|j: usize| j < id ==> ids@.contains(j),
{
    let mut id: usize = 0;
    while contains_id(ids, id)
        invariant
            ids@.len() < usize::MAX,
            id <= ids@.len(),
            forall|j: usize| j < id ==> ids@.contains(j),
        decreases ids@.len() - id,
    {
        proof {
            if id == ids@.len() {
                lemma_some_id_free(ids@);
                let jf = choose|j: usize| j <= ids@.len() && !ids@.contains(j);
                // Every identifier below `id` is taken, and so is `id`
                // itself here, which covers all of `0 ..= ids.len()` and
                // leaves the free identifier nowhere to be.
                assert(jf < id ==> ids@.contains(jf));
                assert(false);
            }
        }
        id = id + 1;
    }
    id
}

} // verus!
