//! Detecting a candidate named twice in a ballot's signature set.

use vstd::prelude::*;
use crate::entities::{AccountId, BlindSignature};

verus! {

/// The candidate ids of a signature set, in the order given.
pub open spec fn candidate_ids(set: Seq<(AccountId, BlindSignature)>) -> Seq<AccountId> {
    set.map_values(|e: (AccountId, BlindSignature)| e.0)
}

pub open spec fn is_sorted(s: Seq<u64>) -> bool {
    forall|i: int, j: int| 0 <= i <= j < s.len() ==> s[i] <= s[j]
}

/// Relies on `slice::sort_unstable`: the same ids come back, in ascending order.
#[verifier::external_body]
fn sort_ascending(ids: &mut Vec<u64>)
    ensures
        final(ids)@.to_multiset() == old(ids)@.to_multiset(),
        is_sorted(final(ids)@),
{
    ids.sort_unstable();
}

/// Two sequences that hold the same elements with the same multiplicities either
/// both repeat an element or neither does.
proof fn lemma_same_multiset_same_repeats(a: Seq<u64>, b: Seq<u64>)
    requires
        a.to_multiset() == b.to_multiset(),
    ensures
        a.no_duplicates() <==> b.no_duplicates(),
{
    if a.no_duplicates() {
        a.lemma_multiset_has_no_duplicates();
        b.lemma_multiset_has_no_duplicates_conv();
    }
    if b.no_duplicates() {
        b.lemma_multiset_has_no_duplicates();
        a.lemma_multiset_has_no_duplicates_conv();
    }
}

/// Whether some candidate appears more than once in the set. The ids are
/// sorted, then walked from the largest down, each compared with its neighbour:
/// in sorted order a repeated id always sits next to itself.
pub fn repeats_candidate(set: &Vec<(AccountId, BlindSignature)>) -> (r: bool)
    ensures
        r == !candidate_ids(set@).no_duplicates(),
{
    let mut ids: Vec<u64> = Vec::new();
    let mut i: usize = 0;
    while i < set.len()
        invariant
            i <= set.len(),
            ids@ == candidate_ids(set@).subrange(0, i as int),
        decreases set.len() - i,
    {
        ids.push(set[i].0);
        i = i + 1;
        assert(ids@ =~= candidate_ids(set@).subrange(0, i as int));
    }
    assert(ids@ =~= candidate_ids(set@));
    let ghost given = ids@;
    sort_ascending(&mut ids);
    proof {
        lemma_same_multiset_same_repeats(given, ids@);
    }
    repeats_adjacent(&ids)
}

/// Whether a sorted sequence repeats an element, found by comparing neighbours
/// from the largest element down.
fn repeats_adjacent(ids: &Vec<u64>) -> (r: bool)
    requires
        is_sorted(ids@),
    ensures
        r == !ids@.no_duplicates(),
{
    let mut k: usize = ids.len();
    while k > 1
        invariant
            k <= ids.len(),
            is_sorted(ids@),
            forall|j: int| k - 1 <= j < ids.len() - 1 ==> #[trigger] ids@[j] != ids@[j + 1],
        decreases k,
    {
        if ids[k - 2] == ids[k - 1] {
            assert(ids@[k - 2] == ids@[k - 1]);
            return true;
        }
        k = k - 1;
    }
    assert forall|a: int, b: int| 0 <= a < ids.len() && 0 <= b < ids.len() && a != b implies ids@[a]
        != ids@[b] by {
        if a < b {
            assert(ids@[a] != ids@[a + 1]);
            assert(ids@[a + 1] <= ids@[b]);
        } else {
            assert(ids@[b] != ids@[b + 1]);
            assert(ids@[b + 1] <= ids@[a]);
        }
    }
    false
}

} // verus!
