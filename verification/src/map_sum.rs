//! The sum of the amounts held in a finite map from accounts to amounts.

use vstd::prelude::*;
use crate::account::AccountId;

verus! {

/// The sum of all values of `m`; 0 where the domain is not finite.
pub closed spec fn map_sum(m: Map<AccountId, i128>) -> int
    decreases m.dom().len(),
{
    if m.dom().finite() && m.dom().len() > 0 {
        let k = m.dom().choose();
        m[k] + map_sum(m.remove(k))
    } else {
        0
    }
}

/// The empty map sums to 0.
pub proof fn lemma_map_sum_empty()
    ensures
        map_sum(Map::<AccountId, i128>::empty()) == 0,
{
    assert(Map::<AccountId, i128>::empty().dom() =~= Set::empty());
}

/// Any key of a finite map may be taken out first: the sum is its value
/// plus the sum of the rest.
pub proof fn lemma_map_sum_remove(m: Map<AccountId, i128>, k: AccountId)
    requires
        m.dom().finite(),
        m.dom().contains(k),
    ensures
        map_sum(m) == m[k] + map_sum(m.remove(k)),
    decreases m.dom().len(),
{
    let c = m.dom().choose();
    assert(m.dom().len() > 0);
    if c != k {
        assert(m.dom().contains(c));
        lemma_map_sum_remove(m.remove(c), k);
        lemma_map_sum_remove(m.remove(k), c);
        assert(m.remove(c).remove(k) =~= m.remove(k).remove(c));
    }
}

/// Setting key `k` to `v` changes the sum by `v` minus what `k` held (0 if absent).
pub proof fn lemma_map_sum_insert(m: Map<AccountId, i128>, k: AccountId, v: i128)
    requires
        m.dom().finite(),
    ensures
        m.insert(k, v).dom().finite(),
        map_sum(m.insert(k, v)) == map_sum(m) - (if m.dom().contains(k) { m[k] as int } else { 0 }) + v,
{
    let m2 = m.insert(k, v);
    lemma_map_sum_remove(m2, k);
    if m.dom().contains(k) {
        lemma_map_sum_remove(m, k);
        assert(m2.remove(k) =~= m.remove(k));
    } else {
        assert(m2.remove(k) =~= m);
    }
}

/// A finite map whose values are all non-negative sums to a non-negative number.
pub proof fn lemma_map_sum_non_negative(m: Map<AccountId, i128>)
    requires
        m.dom().finite(),
        forall|a: AccountId| #[trigger] m.contains_key(a) ==> m[a] >= 0,
    ensures
        map_sum(m) >= 0,
    decreases m.dom().len(),
{
    if m.dom().len() > 0 {
        let k = m.dom().choose();
        lemma_map_sum_remove(m, k);
        lemma_map_sum_non_negative(m.remove(k));
    } else {
        assert(m.dom() =~= Set::empty());
        assert(m =~= Map::empty());
        lemma_map_sum_empty();
    }
}

} // verus!
