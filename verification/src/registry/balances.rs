//! The sum of all balances, read from the ledger entry by entry.

use super::Registry;
use crate::framing::read_word;
use crate::ledger::lemma_sum_remove;
use crate::model::sum_balances;
use crate::store::{bytes_lt, key_views, table_contents, table_get, table_keys};
use vstd::prelude::*;

verus! {

/// Of two keys in ascending order the first is not the second.
proof fn lemma_ascending_differ(a: Seq<u8>, b: Seq<u8>)
    requires
        bytes_lt(a, b),
    ensures
        a != b,
{
}

impl Registry {
    /// The sum of all balances.
    pub fn get_total_governance_tokens(&self) -> (r: u64)
        requires
            self.wf(),
        ensures
            r == self@.total_balance(),
    {
        let keys = table_keys(&self.balances);
        let ghost m = self@.balances;
        let ghost kv = key_views(keys@);
        let mut total: u64 = 0;
        let mut i: usize = 0;
        proof {
            assert(kv.take(0).to_set() =~= Set::<Seq<u8>>::empty());
            assert(m.remove_keys(kv.take(0).to_set()) =~= m);
        }
        while i < keys.len()
            invariant
                self.wf(),
                m == self@.balances,
                kv == key_views(keys@),
                i <= keys@.len(),
                kv.to_set() == table_contents(self.balances).dom(),
                forall|a: int, b: int| 0 <= a < b < kv.len() ==> bytes_lt(kv[a], kv[b]),
                total + sum_balances(m.remove_keys(kv.take(i as int).to_set())) == sum_balances(m),
            decreases keys@.len() - i,
        {
            let ghost k = kv[i as int];
            let ghost done = kv.take(i as int).to_set();
            let ghost rest = m.remove_keys(done);
            proof {
                assert(kv.to_set().contains(k)) by {
                    assert(kv.contains(kv[i as int]));
                }
                assert(!done.contains(k)) by {
                    if done.contains(k) {
                        let seen = kv.take(i as int);
                        let j = choose|j: int| 0 <= j < seen.len() && seen[j] == k;
                        lemma_ascending_differ(kv[j], kv[i as int]);
                    }
                }
                assert(rest.dom().finite()) by {
                    assert(rest.dom() =~= m.dom().difference(done));
                }
                lemma_sum_remove(rest, k);
                assert(kv.take(i + 1) =~= kv.take(i as int).push(k));
                assert(kv.take(i + 1).to_set() =~= done.insert(k)) by {
                    assert forall|x: Seq<u8>| done.insert(k).contains(x) implies kv.take(
                        i + 1,
                    ).to_set().contains(x) by {
                        if x == k {
                            assert(kv.take(i + 1)[i as int] == k);
                        } else {
                            let seen = kv.take(i as int);
                            let j = choose|j: int| 0 <= j < seen.len() && seen[j] == x;
                            assert(kv.take(i + 1)[j] == x);
                        }
                    }
                    let next = kv.take(i + 1);
                    assert forall|x: Seq<u8>| next.to_set().contains(x) implies done.insert(
                        k,
                    ).contains(x) by {
                        let j = choose|j: int| 0 <= j < next.len() && next[j] == x;
                        if j < i {
                            assert(kv.take(i as int)[j] == x);
                            assert(kv.take(i as int).contains(x));
                        }
                    }
                }
                assert(m.remove_keys(done.insert(k)) =~= rest.remove(k));
            }
            let balance = match table_get(&self.balances, &keys[i]) {
                Some(bytes) => match read_word(&bytes) {
                    Some(x) => x,
                    None => {
                        proof {
                            assert(false);
                        }
                        0
                    },
                },
                None => {
                    proof {
                        assert(false);
                    }
                    0
                },
            };
            assert(balance == rest[k]);
            total = total + balance;
            i += 1;
        }
        proof {
            assert(kv.take(kv.len() as int) =~= kv);
            assert(m.remove_keys(kv.to_set()) =~= Map::<Seq<u8>, u64>::empty());
        }
        total
    }
}

} // verus!
