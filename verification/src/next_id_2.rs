//! The smallest free identifier, found with a marking pass instead of
//! trying candidates one by one: mark every identifier that occurs, then
//! take the first unmarked one.

use vstd::prelude::*;
use vstd::seq_lib::lemma_seq_contains_after_push;

verus! {

/// The smallest identifier that does not occur among `ids`. One pass marks
/// each identifier small enough to matter; the first unmarked slot is the
/// answer — identifiers above `ids.len()` cannot beat it, since there are
/// too few ids to cover every slot below.
pub fn next_id(ids: &[usize]) -> (id: usize)
    requires
        ids@.len() < usize::MAX,
    ensures
        !ids@.contains(id),
        forall|j: usize| j < id ==> ids@.contains(j),
{
    broadcast use lemma_seq_contains_after_push;

    let n = ids.len();
    let mut marks: Vec<bool> = Vec::new();
    while marks.len() < n + 1
        invariant
            n < usize::MAX,
            marks@.len() <= n + 1,
            forall|j: int| 0 <= j < marks@.len() ==> !marks@[j],
        decreases n + 1 - marks@.len(),
    {
        marks.push(false);
    }
    let mut k: usize = 0;
    while k < n
        invariant
            n < usize::MAX,
            n == ids@.len(),
            k <= n,
            marks@.len() == n + 1,
            forall|j: int|
                0 <= j < marks@.len() ==> marks@[j] == ids@.take(k as int).contains(j as usize),
        decreases n - k,
    {
        let ghost prefix = ids@.take(k as int);
        let v = ids[k];
        if v <= n {
            marks.set(v, true);
        }
        k = k + 1;
        proof {
            assert(ids@.take(k as int) =~= prefix.push(v));
            assert forall|j: int| 0 <= j < marks@.len() implies marks@[j] == ids@.take(
                k as int,
            ).contains(j as usize) by {
                lemma_seq_contains_after_push(prefix, v, j as usize);
            }
        }
    }
    proof {
        assert(ids@.take(n as int) =~= ids@);
    }
    let mut id: usize = 0;
    while id < marks.len() && marks[id]
        invariant
            n < usize::MAX,
            n == ids@.len(),
            marks@.len() == n + 1,
            forall|j: int| 0 <= j < marks@.len() ==> marks@[j] == ids@.contains(j as usize),
            id <= marks@.len(),
            forall|j: usize| j < id ==> ids@.contains(j),
        decreases marks@.len() - id,
    {
        id = id + 1;
    }
    proof {
        if id == marks@.len() {
            // Every slot `0 ..= n` would be covered by only `n`
            // identifiers; the free one promised below has nowhere to be.
            crate::next_id_1::lemma_some_id_free(ids@);
            let jf = choose|j: usize| j <= ids@.len() && !ids@.contains(j);
            assert(jf < id ==> ids@.contains(jf));
            assert(false);
        }
    }
    id
}

} // verus!
