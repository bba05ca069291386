//! Summation over finite balance maps, and the packed key for allowance pairs.
//!
//! `map_sum` gives the mathematical sum of all values of a finite
//! `Map<u64, u128>`; the ledger's conservation invariant pins that sum to the
//! total supply. The lemmas here say how the sum moves under `insert` and
//! `remove`, and that any single entry is bounded by the whole sum.
use vstd::prelude::*;

verus! {

/// The sum of all values of `m`, as a mathematical integer.
/// Zero when the domain is empty (or not finite, a case the ledger never has).
pub open spec fn map_sum(m: Map<u64, u128>) -> int
    decreases m.dom().len(),
        when m.dom().finite()
{
    if m.dom().finite() && m.dom().len() > 0 {
        let k = m.dom().choose();
        m[k] + map_sum(m.remove(k))
    } else {
        0
    }
}

/// Splitting off any one entry: the sum is that entry plus the sum of the rest.
pub proof fn lemma_map_sum_remove(m: Map<u64, u128>, k: u64)
    requires
        m.dom().finite(),
        m.dom().contains(k),
    ensures
        map_sum(m) == m[k] + map_sum(m.remove(k)),
    decreases m.dom().len(),
{
    let c = m.dom().choose();
    assert(m.dom().len() > 0) by {
        if m.dom().len() == 0 {
            assert(m.dom() =~= Set::<u64>::empty());
        }
    }
    assert(m.dom().contains(c));
    if c == k {
        assert(map_sum(m) == m[k] + map_sum(m.remove(k)));
    } else {
        let mc = m.remove(c);
        assert(map_sum(m) == m[c] + map_sum(mc));
        lemma_map_sum_remove(mc, k);
        lemma_map_sum_remove(m.remove(k), c);
        assert(mc.remove(k) =~= m.remove(k).remove(c));
        assert(mc[k] == m[k]);
        assert(m.remove(k)[c] == m[c]);
    }
}

/// The sum is never negative: every entry is an unsigned amount.
pub proof fn lemma_map_sum_nonneg(m: Map<u64, u128>)
    requires
        m.dom().finite(),
    ensures
        map_sum(m) >= 0,
    decreases m.dom().len(),
{
    if m.dom().len() > 0 {
        let c = m.dom().choose();
        assert(m.dom().contains(c));
        lemma_map_sum_nonneg(m.remove(c));
    }
}

/// No single balance exceeds the sum of all balances.
pub proof fn lemma_map_sum_bound(m: Map<u64, u128>, k: u64)
    requires
        m.dom().finite(),
        m.dom().contains(k),
    ensures
        m[k] <= map_sum(m),
{
    lemma_map_sum_remove(m, k);
    lemma_map_sum_nonneg(m.remove(k));
}

/// How the sum moves under `insert`: the new value replaces whatever the key
/// contributed before (zero for a fresh key).
pub proof fn lemma_map_sum_insert(m: Map<u64, u128>, k: u64, v: u128)
    requires
        m.dom().finite(),
    ensures
        map_sum(m.insert(k, v)) == map_sum(m) + v - (if m.dom().contains(k) {
            m[k] as int
        } else {
            0
        }),
{
    let mi = m.insert(k, v);
    lemma_map_sum_remove(mi, k);
    if m.dom().contains(k) {
        lemma_map_sum_remove(m, k);
        assert(mi.remove(k) =~= m.remove(k));
    } else {
        assert(mi.remove(k) =~= m);
    }
}

/// The sum of the empty map is zero.
pub proof fn lemma_map_sum_empty()
    ensures
        map_sum(Map::<u64, u128>::empty()) == 0,
{
    assert(Map::<u64, u128>::empty().dom().len() == 0);
}

/// An (owner, spender) account pair packed into one allowance-table key:
/// the owner in the high 64 bits, the spender in the low 64 bits.
pub open spec fn pair_key(owner: u64, spender: u64) -> u128 {
    ((owner as u128) << 64) | (spender as u128)
}

/// Distinct (owner, spender) pairs pack to distinct keys, so an allowance
/// write for one pair never touches another pair's entry.
pub proof fn lemma_pair_key_injective(o1: u64, s1: u64, o2: u64, s2: u64)
    requires
        pair_key(o1, s1) == pair_key(o2, s2),
    ensures
        o1 == o2,
        s1 == s2,
{
    assert((((o1 as u128) << 64) | (s1 as u128)) == (((o2 as u128) << 64) | (s2 as u128))
        ==> o1 == o2 && s1 == s2) by (bit_vector);
}

/// Computes the packed allowance-table key for an (owner, spender) pair.
pub fn pair_key_exec(owner: u64, spender: u64) -> (r: u128)
    ensures
        r == pair_key(owner, spender),
{
    ((owner as u128) << 64) | (spender as u128)
}

} // verus!
