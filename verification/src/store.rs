//! The mathematical model shared by the vault's two associative stores: a
//! sequence of key/amount entries with pairwise-distinct keys, looked up with
//! an explicit default of zero on a miss.
//!
//! The lemmas here relate `lookup` and `sum_values` to the sequence
//! operations the stores use (`update` of one entry, `push` of a fresh one),
//! so that the stores can state pointwise contracts and the ledger can keep
//! its total-supply accounting exact.

use vstd::prelude::*;
use crate::Balance;

verus! {

/// No two entries carry the same key.
pub open spec fn keys_distinct<K>(s: Seq<(K, Balance)>) -> bool {
    forall|i: int, j: int|
        0 <= i < j < s.len() ==> (#[trigger] s[i]).0 != (#[trigger] s[j]).0
}

/// The amount stored under `k`, or zero if no entry carries `k`.
pub open spec fn lookup<K>(s: Seq<(K, Balance)>, k: K) -> Balance
    decreases s.len(),
{
    if s.len() == 0 {
        0
    } else if s[0].0 == k {
        s[0].1
    } else {
        lookup(s.drop_first(), k)
    }
}

/// The sum of all stored amounts.
pub open spec fn sum_values<K>(s: Seq<(K, Balance)>) -> int
    decreases s.len(),
{
    if s.len() == 0 {
        0
    } else {
        s[0].1 + sum_values(s.drop_first())
    }
}

/// A sum of unsigned amounts is never negative.
pub proof fn lemma_sum_nonneg<K>(s: Seq<(K, Balance)>)
    ensures
        sum_values(s) >= 0,
    decreases s.len(),
{
    if s.len() > 0 {
        lemma_sum_nonneg(s.drop_first());
    }
}

/// No single stored amount exceeds the sum of all of them.
pub proof fn lemma_lookup_le_sum<K>(s: Seq<(K, Balance)>, k: K)
    ensures
        lookup(s, k) <= sum_values(s),
    decreases s.len(),
{
    if s.len() > 0 {
        lemma_sum_nonneg(s.drop_first());
        lemma_lookup_le_sum(s.drop_first(), k);
    }
}

/// With distinct keys, looking up the key of entry `i` finds exactly that
/// entry's amount.
pub proof fn lemma_lookup_at_index<K>(s: Seq<(K, Balance)>, i: int)
    requires
        keys_distinct(s),
        0 <= i < s.len(),
    ensures
        lookup(s, s[i].0) == s[i].1,
    decreases s.len(),
{
    if i > 0 {
        assert(s[0].0 != s[i].0);
        assert(keys_distinct(s.drop_first()));
        lemma_lookup_at_index(s.drop_first(), i - 1);
    }
}

/// Looking up a key that no entry carries yields the zero default.
pub proof fn lemma_lookup_absent<K>(s: Seq<(K, Balance)>, k: K)
    requires
        forall|j: int| 0 <= j < s.len() ==> (#[trigger] s[j]).0 != k,
    ensures
        lookup(s, k) == 0,
    decreases s.len(),
{
    if s.len() > 0 {
        lemma_lookup_absent(s.drop_first(), k);
    }
}

/// Overwriting the amount of entry `i` leaves every other key's lookup
/// unchanged.
pub proof fn lemma_lookup_update_other<K>(s: Seq<(K, Balance)>, i: int, k: K, v: Balance, b: K)
    requires
        0 <= i < s.len(),
        s[i].0 == k,
        b != k,
    ensures
        lookup(s.update(i, (k, v)), b) == lookup(s, b),
    decreases s.len(),
{
    let t = s.update(i, (k, v));
    if i == 0 {
        assert(t.drop_first() =~= s.drop_first());
    } else {
        if s[0].0 != b {
            assert(t.drop_first() =~= s.drop_first().update(i - 1, (k, v)));
            lemma_lookup_update_other(s.drop_first(), i - 1, k, v, b);
        }
    }
}

/// Overwriting the amount of entry `i` changes the sum by exactly the
/// difference between the new amount and the old one.
pub proof fn lemma_sum_update<K>(s: Seq<(K, Balance)>, i: int, x: (K, Balance))
    requires
        0 <= i < s.len(),
    ensures
        sum_values(s.update(i, x)) == sum_values(s) - s[i].1 + x.1,
    decreases s.len(),
{
    let t = s.update(i, x);
    if i == 0 {
        assert(t.drop_first() =~= s.drop_first());
    } else {
        assert(t.drop_first() =~= s.drop_first().update(i - 1, x));
        lemma_sum_update(s.drop_first(), i - 1, x);
    }
}

/// Appending an entry under a fresh key makes that key's lookup find the new
/// amount.
pub proof fn lemma_lookup_push_same<K>(s: Seq<(K, Balance)>, k: K, v: Balance)
    requires
        forall|j: int| 0 <= j < s.len() ==> (#[trigger] s[j]).0 != k,
    ensures
        lookup(s.push((k, v)), k) == v,
    decreases s.len(),
{
    let t = s.push((k, v));
    if s.len() == 0 {
        assert(t[0] == (k, v));
    } else {
        assert(t.drop_first() =~= s.drop_first().push((k, v)));
        lemma_lookup_push_same(s.drop_first(), k, v);
    }
}

/// Appending an entry leaves every other key's lookup unchanged.
pub proof fn lemma_lookup_push_other<K>(s: Seq<(K, Balance)>, k: K, v: Balance, b: K)
    requires
        b != k,
    ensures
        lookup(s.push((k, v)), b) == lookup(s, b),
    decreases s.len(),
{
    let t = s.push((k, v));
    if s.len() == 0 {
        assert(t.len() == 1);
        assert(t[0] == (k, v));
        assert(t.drop_first() =~= Seq::<(K, Balance)>::empty());
        assert(lookup(t, b) == lookup(t.drop_first(), b));
        assert(lookup(s, b) == 0);
    } else {
        assert(t.len() == s.len() + 1);
        assert(t[0] == s[0]);
        if s[0].0 != b {
            assert(t.drop_first() =~= s.drop_first().push((k, v)));
            lemma_lookup_push_other(s.drop_first(), k, v, b);
            assert(lookup(t, b) == lookup(t.drop_first(), b));
            assert(lookup(s, b) == lookup(s.drop_first(), b));
        } else {
            assert(lookup(t, b) == s[0].1);
            assert(lookup(s, b) == s[0].1);
        }
    }
}

/// Appending an entry adds its amount to the sum.
pub proof fn lemma_sum_push<K>(s: Seq<(K, Balance)>, x: (K, Balance))
    ensures
        sum_values(s.push(x)) == sum_values(s) + x.1,
    decreases s.len(),
{
    let t = s.push(x);
    if s.len() == 0 {
        assert(t.len() == 1);
        assert(t[0] == x);
        assert(t.drop_first() =~= Seq::<(K, Balance)>::empty());
        assert(sum_values(t.drop_first()) == 0);
        assert(sum_values(t) == x.1 + sum_values(t.drop_first()));
        assert(sum_values(s) == 0);
    } else {
        assert(t.len() == s.len() + 1);
        assert(t[0] == s[0]);
        assert(t.drop_first() =~= s.drop_first().push(x));
        lemma_sum_push(s.drop_first(), x);
        assert(sum_values(t) == s[0].1 + sum_values(t.drop_first()));
        assert(sum_values(t.drop_first()) == sum_values(s.drop_first()) + x.1);
    }
}

} // verus!
