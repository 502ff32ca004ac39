//! The share ledger: a store from account identifier to share balance, with
//! an absent account implicitly holding zero.
//!
//! `set` keeps the keys distinct and reports exactly how the sum of all
//! balances moves, which is what lets the vault maintain its invariant that
//! the total supply equals the sum of balances.

use vstd::prelude::*;
use crate::AccountId;
use crate::Balance;
use crate::store::keys_distinct;
use crate::store::lemma_lookup_absent;
use crate::store::lemma_lookup_at_index;
use crate::store::lemma_lookup_push_other;
use crate::store::lemma_lookup_push_same;
use crate::store::lemma_lookup_update_other;
use crate::store::lemma_sum_push;
use crate::store::lemma_sum_update;
use crate::store::lookup;
use crate::store::sum_values;

verus! {

/// The per-account share balances.
pub struct Balances {
    pub entries: Vec<(AccountId, Balance)>,
}

impl Balances {
    /// Each account has at most one entry.
    pub open spec fn wf(self) -> bool {
        keys_distinct(self.entries@)
    }

    /// The balance of `a`; an account without an entry holds zero.
    pub open spec fn spec_get(self, a: AccountId) -> Balance {
        lookup(self.entries@, a)
    }

    /// The sum of all balances.
    pub open spec fn total(self) -> int {
        sum_values(self.entries@)
    }

    /// An empty ledger: every account holds zero.
    pub fn empty() -> (r: Balances)
        ensures
            r.wf(),
            forall|a: AccountId| r.spec_get(a) == 0,
            r.total() == 0,
    {
        Balances { entries: Vec::new() }
    }

    /// The index of the entry for `a`, if one exists.
    fn find(&self, a: AccountId) -> (r: Option<usize>)
        ensures
            match r {
                Some(i) => i < self.entries@.len() && self.entries@[i as int].0 == a,
                None => forall|j: int|
                    0 <= j < self.entries@.len() ==> (#[trigger] self.entries@[j]).0 != a,
            },
    {
        let n = self.entries.len();
        let mut idx: usize = 0;
        while idx < n
            invariant
                n == self.entries@.len(),
                idx <= n,
                forall|j: int| 0 <= j < idx ==> (#[trigger] self.entries@[j]).0 != a,
            decreases n - idx,
        {
            let e = self.entries[idx];
            if e.0 == a {
                return Some(idx);
            }
            idx = idx + 1;
        }
        None
    }

    /// Reads the balance of `a`, defaulting to zero when `a` has no entry.
    pub fn get(&self, a: AccountId) -> (r: Balance)
        requires
            self.wf(),
        ensures
            r == self.spec_get(a),
    {
        let found = self.find(a);
        match found {
            Some(i) => {
                proof {
                    lemma_lookup_at_index(self.entries@, i as int);
                }
                self.entries[i].1
            },
            None => {
                proof {
                    lemma_lookup_absent(self.entries@, a);
                }
                0
            },
        }
    }

    /// Stores `v` as the balance of `a`, overwriting any earlier entry.
    pub fn set(&mut self, a: AccountId, v: Balance)
        requires
            old(self).wf(),
        ensures
            final(self).wf(),
            final(self).spec_get(a) == v,
            forall|b: AccountId| b != a ==> final(self).spec_get(b) == old(self).spec_get(b),
            final(self).total() == old(self).total() - old(self).spec_get(a) + v,
    {
        let ghost s0 = self.entries@;
        let found = self.find(a);
        match found {
            Some(i) => {
                proof {
                    lemma_lookup_at_index(s0, i as int);
                    lemma_sum_update(s0, i as int, (a, v));
                }
                self.entries.set(i, (a, v));
                proof {
                    let t = self.entries@;
                    assert forall|p: int, q: int| 0 <= p < q < t.len() implies (#[trigger] t[p]).0
                        != (#[trigger] t[q]).0 by {
                        assert(s0[p].0 != s0[q].0);
                    }
                    lemma_lookup_at_index(t, i as int);
                    assert forall|b: AccountId| b != a implies lookup(t, b) == lookup(s0, b) by {
                        lemma_lookup_update_other(s0, i as int, a, v, b);
                    }
                }
            },
            None => {
                proof {
                    lemma_lookup_absent(s0, a);
                    lemma_sum_push(s0, (a, v));
                    lemma_lookup_push_same(s0, a, v);
                }
                self.entries.push((a, v));
                proof {
                    let t = self.entries@;
                    assert forall|p: int, q: int| 0 <= p < q < t.len() implies (#[trigger] t[p]).0
                        != (#[trigger] t[q]).0 by {
                        if q < s0.len() {
                            assert(s0[p].0 != s0[q].0);
                        }
                    }
                    assert forall|b: AccountId| b != a implies lookup(t, b) == lookup(s0, b) by {
                        lemma_lookup_push_other(s0, a, v, b);
                    }
                }
            },
        }
    }
}

} // verus!
