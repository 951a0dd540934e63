//! Maps and sets keyed by pairs of 64-bit identifiers.
//!
//! Module state is keyed by `(token, account)`, `(token, identity)` or
//! `(token, country)`. A pair is packed into one `u128` key so that the
//! standard `HashMap` (whose behaviour vstd specifies for integer keys)
//! can hold it.

use std::collections::HashMap;
use vstd::prelude::*;

verus! {

broadcast use vstd::std_specs::hash::group_hash_axioms;

/// The packed `u128` key of the pair `(a, b)`.
pub open spec fn pair_key(a: u64, b: u64) -> int {
    a as int * 0x1_0000_0000_0000_0000 + b as int
}

/// Distinct pairs have distinct packed keys.
pub proof fn lemma_pair_key_injective(a1: u64, b1: u64, a2: u64, b2: u64)
    ensures
        pair_key(a1, b1) == pair_key(a2, b2) <==> (a1 == a2 && b1 == b2),
        0 <= pair_key(a1, b1) <= u128::MAX,
{
}

fn pack(a: u64, b: u64) -> (k: u128)
    ensures
        k as int == pair_key(a, b),
{
    (a as u128) * 0x1_0000_0000_0000_0000u128 + (b as u128)
}

/// A finite map from pairs of identifiers to values.
pub struct PairMap<V> {
    inner: HashMap<u128, V>,
}

impl<V> PairMap<V> {
    /// The contents, as a map from pairs.
    pub closed spec fn view(&self) -> Map<(u64, u64), V> {
        Map::new(
            |k: (u64, u64)| self.inner@.contains_key(pair_key(k.0, k.1) as u128),
            |k: (u64, u64)| self.inner@[pair_key(k.0, k.1) as u128],
        )
    }

    /// An empty map.
    pub fn new() -> (m: Self)
        ensures
            m.view() == Map::<(u64, u64), V>::empty(),
    {
        let m = PairMap { inner: HashMap::new() };
        assert(m.view() =~= Map::<(u64, u64), V>::empty());
        m
    }

    /// The value stored under `(a, b)`, if any.
    pub fn get(&self, a: u64, b: u64) -> (r: Option<&V>)
        ensures
            match r {
                Some(v) => self.view().contains_key((a, b)) && *v == self.view()[(a, b)],
                None => !self.view().contains_key((a, b)),
            },
    {
        let k = pack(a, b);
        self.inner.get(&k)
    }

    /// Stores `v` under `(a, b)`, replacing any previous value.
    pub fn insert(&mut self, a: u64, b: u64, v: V)
        ensures
            final(self).view() == old(self).view().insert((a, b), v),
    {
        let k = pack(a, b);
        self.inner.insert(k, v);
        proof {
            assert forall|p: (u64, u64)| #![auto]
                (pair_key(p.0, p.1) as u128 == k) <==> (p == (a, b)) by {
                lemma_pair_key_injective(p.0, p.1, a, b);
            }
        }
        assert(self.view() =~= old(self).view().insert((a, b), v));
    }

    /// Removes the value stored under `(a, b)` and returns it.
    pub fn remove(&mut self, a: u64, b: u64) -> (r: Option<V>)
        ensures
            final(self).view() == old(self).view().remove((a, b)),
            match r {
                Some(v) => old(self).view().contains_key((a, b)) && v == old(self).view()[(a, b)],
                None => !old(self).view().contains_key((a, b)),
            },
    {
        let k = pack(a, b);
        let r = self.inner.remove(&k);
        proof {
            assert forall|p: (u64, u64)| #![auto]
                (pair_key(p.0, p.1) as u128 == k) <==> (p == (a, b)) by {
                lemma_pair_key_injective(p.0, p.1, a, b);
            }
        }
        assert(self.view() =~= old(self).view().remove((a, b)));
        r
    }
}

/// The pairs `(a, b)` for each `b` listed in `bs`.
pub open spec fn listed(a: u64, bs: Seq<u64>) -> Set<(u64, u64)> {
    Set::new(|k: (u64, u64)| k.0 == a && bs.contains(k.1))
}

/// Listing one more `b` adds one pair.
pub proof fn lemma_listed_push(a: u64, bs: Seq<u64>, n: int)
    requires
        0 <= n < bs.len(),
    ensures
        listed(a, bs.take(n + 1)) == listed(a, bs.take(n)).insert((a, bs[n])),
{
    assert forall|k: (u64, u64)| #[trigger] listed(a, bs.take(n + 1)).contains(k) <==> listed(
        a,
        bs.take(n),
    ).insert((a, bs[n])).contains(k) by {
        if bs.take(n + 1).contains(k.1) {
            let j = choose|j: int| 0 <= j < n + 1 && #[trigger] bs.take(n + 1)[j] == k.1;
            if j < n {
                assert(bs.take(n)[j] == k.1);
            }
        }
        if bs.take(n).contains(k.1) {
            let j = choose|j: int| 0 <= j < n && #[trigger] bs.take(n)[j] == k.1;
            assert(bs.take(n + 1)[j] == k.1);
        }
        if k == (a, bs[n]) {
            assert(bs.take(n + 1)[n] == bs[n]);
        }
    }
    assert(listed(a, bs.take(n + 1)) =~= listed(a, bs.take(n)).insert((a, bs[n])));
}

/// A finite set of pairs of identifiers.
pub struct PairSet {
    inner: PairMap<()>,
}

impl PairSet {
    /// The contents.
    pub closed spec fn view(&self) -> Set<(u64, u64)> {
        self.inner.view().dom()
    }

    /// An empty set.
    pub fn new() -> (s: Self)
        ensures
            s.view() == Set::<(u64, u64)>::empty(),
    {
        let s = PairSet { inner: PairMap::new() };
        assert(s.view() =~= Set::<(u64, u64)>::empty());
        s
    }

    /// Whether `(a, b)` is in the set.
    pub fn contains(&self, a: u64, b: u64) -> (r: bool)
        ensures
            r == self.view().contains((a, b)),
    {
        self.inner.get(a, b).is_some()
    }

    /// Adds `(a, b)`.
    pub fn insert(&mut self, a: u64, b: u64)
        ensures
            final(self).view() == old(self).view().insert((a, b)),
    {
        self.inner.insert(a, b, ());
        assert(self.view() =~= old(self).view().insert((a, b)));
    }

    /// Removes `(a, b)`.
    pub fn remove(&mut self, a: u64, b: u64)
        ensures
            final(self).view() == old(self).view().remove((a, b)),
    {
        self.inner.remove(a, b);
        assert(self.view() =~= old(self).view().remove((a, b)));
    }
}

} // verus!
