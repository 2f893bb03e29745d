//! What holds of the sum of a ledger when one balance changes.

use crate::model::sum_balances;
use vstd::prelude::*;

verus! {

/// The sum is any one balance plus the sum of the others.
pub proof fn lemma_sum_remove(m: Map<Seq<u8>, u64>, k: Seq<u8>)
    requires
        m.dom().finite(),
        m.dom().contains(k),
    ensures
        sum_balances(m) == m[k] + sum_balances(m.remove(k)),
    decreases m.dom().len(),
{
    let c = m.dom().choose();
    assert(m.dom().len() != 0) by {
        if m.dom().len() == 0 {
            assert(m.dom() =~= Set::empty());
        }
    }
    if c != k {
        assert(m.dom().contains(c));
        lemma_sum_remove(m.remove(c), k);
        lemma_sum_remove(m.remove(k), c);
        assert(m.remove(c).remove(k) =~= m.remove(k).remove(c));
    }
}

/// Writing a balance changes the sum by what the balance changes by.
pub proof fn lemma_sum_insert(m: Map<Seq<u8>, u64>, k: Seq<u8>, v: u64)
    requires
        m.dom().finite(),
    ensures
        sum_balances(m.insert(k, v)) == sum_balances(m) + v - (if m.dom().contains(k) {
            m[k] as int
        } else {
            0
        }),
{
    let after = m.insert(k, v);
    lemma_sum_remove(after, k);
    assert(after.remove(k) =~= m.remove(k));
    if m.dom().contains(k) {
        lemma_sum_remove(m, k);
    } else {
        assert(m.remove(k) =~= m);
    }
}

/// No balance is more than the sum.
pub proof fn lemma_sum_bounds(m: Map<Seq<u8>, u64>, k: Seq<u8>)
    requires
        m.dom().finite(),
        m.dom().contains(k),
    ensures
        m[k] <= sum_balances(m),
{
    lemma_sum_remove(m, k);
}

} // verus!
