//! The allowance table: a store from an (owner, spender) pair to the amount
//! the spender may still move on the owner's behalf, with an absent pair
//! implicitly allowing zero.

use vstd::prelude::*;
use crate::AccountId;
use crate::Balance;
use crate::store::keys_distinct;
use crate::store::lemma_lookup_absent;
use crate::store::lemma_lookup_at_index;
use crate::store::lemma_lookup_push_other;
use crate::store::lemma_lookup_push_same;
use crate::store::lemma_lookup_update_other;
use crate::store::lookup;

verus! {

/// The per-(owner, spender) approvals.
pub struct Allowances {
    pub entries: Vec<((AccountId, AccountId), Balance)>,
}

impl Allowances {
    /// Each (owner, spender) pair has at most one entry.
    pub open spec fn wf(self) -> bool {
        keys_distinct(self.entries@)
    }

    /// The allowance granted by `owner` to `spender`; a pair without an
    /// entry allows zero.
    pub open spec fn spec_get(self, owner: AccountId, spender: AccountId) -> Balance {
        lookup(self.entries@, (owner, spender))
    }

    /// An empty table: no approval has been granted.
    pub fn empty() -> (r: Allowances)
        ensures
            r.wf(),
            forall|o: AccountId, s: AccountId| r.spec_get(o, s) == 0,
    {
        Allowances { entries: Vec::new() }
    }

    /// The index of the entry for the pair, if one exists.
    fn find(&self, owner: AccountId, spender: AccountId) -> (r: Option<usize>)
        ensures
            match r {
                Some(i) => i < self.entries@.len() && self.entries@[i as int].0 == (owner,
                spender),
                None => forall|j: int|
                    0 <= j < self.entries@.len() ==> (#[trigger] self.entries@[j]).0 != (owner,
                    spender),
            },
    {
        let n = self.entries.len();
        let mut idx: usize = 0;
        while idx < n
            invariant
                n == self.entries@.len(),
                idx <= n,
                forall|j: int|
                    0 <= j < idx ==> (#[trigger] self.entries@[j]).0 != (owner, spender),
            decreases n - idx,
        {
            let e = self.entries[idx];
            if e.0.0 == owner && e.0.1 == spender {
                return Some(idx);
            }
            idx = idx + 1;
        }
        None
    }

    /// Reads the allowance for the pair, defaulting to zero when it has no
    /// entry.
    pub fn get(&self, owner: AccountId, spender: AccountId) -> (r: Balance)
        requires
            self.wf(),
        ensures
            r == self.spec_get(owner, spender),
    {
        let found = self.find(owner, spender);
        match found {
            Some(i) => {
                proof {
                    lemma_lookup_at_index(self.entries@, i as int);
                }
                self.entries[i].1
            },
            None => {
                proof {
                    lemma_lookup_absent(self.entries@, (owner, spender));
                }
                0
            },
        }
    }

    /// Stores `v` as the allowance for the pair, overwriting any earlier
    /// entry.
    pub fn set(&mut self, owner: AccountId, spender: AccountId, v: Balance)
        requires
            old(self).wf(),
        ensures
            final(self).wf(),
            final(self).spec_get(owner, spender) == v,
            forall|o: AccountId, s: AccountId|
                !(o == owner && s == spender) ==> final(self).spec_get(o, s) == old(
                self).spec_get(o, s),
    {
        let ghost s0 = self.entries@;
        let found = self.find(owner, spender);
        match found {
            Some(i) => {
                proof {
                    lemma_lookup_at_index(s0, i as int);
                }
                self.entries.set(i, ((owner, spender), v));
                proof {
                    let t = self.entries@;
                    assert forall|p: int, q: int| 0 <= p < q < t.len() implies (#[trigger] t[p]).0
                        != (#[trigger] t[q]).0 by {
                        assert(s0[p].0 != s0[q].0);
                    }
                    lemma_lookup_at_index(t, i as int);
                    assert forall|o: AccountId, s: AccountId| !(o == owner && s
                        == spender) implies lookup(t, (o, s)) == lookup(s0, (o, s)) by {
                        lemma_lookup_update_other(s0, i as int, (owner, spender), v, (o, s));
                    }
                }
            },
            None => {
                proof {
                    lemma_lookup_absent(s0, (owner, spender));
                    lemma_lookup_push_same(s0, (owner, spender), v);
                }
                self.entries.push(((owner, spender), v));
                proof {
                    let t = self.entries@;
                    assert forall|p: int, q: int| 0 <= p < q < t.len() implies (#[trigger] t[p]).0
                        != (#[trigger] t[q]).0 by {
                        if q < s0.len() {
                            assert(s0[p].0 != s0[q].0);
                        }
                    }
                    assert forall|o: AccountId, s: AccountId| !(o == owner && s
                        == spender) implies lookup(t, (o, s)) == lookup(s0, (o, s)) by {
                        lemma_lookup_push_other(s0, (owner, spender), v, (o, s));
                    }
                }
            },
        }
    }
}

} // verus!
