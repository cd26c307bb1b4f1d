//! The total of the weights held in a map from voter to weight.

use vstd::prelude::*;

verus! {

/// The sum of all values of a finite map of weights (0 for an infinite map).
pub open spec fn weight_sum(m: Map<u64, u128>) -> int
    decreases m.dom().len(),
{
    if m.dom().finite() && m.dom().len() > 0 {
        let k = m.dom().choose();
        m[k] + weight_sum(m.remove(k))
    } else {
        0
    }
}

/// A sum saturated at `u128::MAX`, as `u128::saturating_add` accumulates it.
pub open spec fn capped(total: int) -> int {
    if total > u128::MAX { u128::MAX as int } else { total }
}

/// Any key of the map can be taken out first: the sum does not depend on
/// which element `choose` picks.
pub proof fn lemma_weight_sum_remove(m: Map<u64, u128>, k: u64)
    requires
        m.dom().finite(),
        m.contains_key(k),
    ensures
        weight_sum(m) == m[k] + weight_sum(m.remove(k)),
    decreases m.dom().len(),
{
    let c = m.dom().choose();
    if c != k {
        lemma_weight_sum_remove(m.remove(c), k);
        lemma_weight_sum_remove(m.remove(k), c);
        assert(m.remove(c).remove(k) =~= m.remove(k).remove(c));
    }
}

/// Adding a fresh key adds its weight to the sum.
pub proof fn lemma_weight_sum_insert(m: Map<u64, u128>, k: u64, w: u128)
    requires
        m.dom().finite(),
        !m.contains_key(k),
    ensures
        weight_sum(m.insert(k, w)) == weight_sum(m) + w,
{
    lemma_weight_sum_remove(m.insert(k, w), k);
    assert(m.insert(k, w).remove(k) =~= m);
}

/// Weights are never negative, so neither is their sum.
pub proof fn lemma_weight_sum_nonneg(m: Map<u64, u128>)
    ensures
        weight_sum(m) >= 0,
    decreases m.dom().len(),
{
    if m.dom().finite() && m.dom().len() > 0 {
        let k = m.dom().choose();
        lemma_weight_sum_nonneg(m.remove(k));
    }
}

/// The empty map sums to zero.
pub proof fn lemma_weight_sum_empty()
    ensures
        weight_sum(Map::<u64, u128>::empty()) == 0,
{
    assert(Map::<u64, u128>::empty().dom() =~= Set::empty());
}

} // verus!
