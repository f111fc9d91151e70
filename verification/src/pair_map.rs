//! A hash map keyed by a pair of 64-bit identifiers.
//!
//! The two halves of a key are packed into one 128-bit integer, the first in the
//! upper half, so that the table hashes a plain integer. The packing is
//! injective, and the map is specified as a `Map` over the pairs.

use vstd::prelude::*;
use std::collections::HashMap;
use crate::model::listed_pairs;

verus! {

/// The packed form of the pair `(first, second)`.
pub open spec fn pair_key(first: u64, second: u64) -> u128 {
    (first * 0x1_0000_0000_0000_0000 + second) as u128
}

/// Different pairs have different packed forms.
pub proof fn lemma_pair_key_injective(a: (u64, u64), b: (u64, u64))
    ensures
        pair_key(a.0, a.1) == pair_key(b.0, b.1) <==> a == b,
{
}

/// Packs the pair `(first, second)`.
fn pack(first: u64, second: u64) -> (key: u128)
    ensures
        key == pair_key(first, second),
{
    let high: u128 = first as u128;
    let low: u128 = second as u128;
    high * 0x1_0000_0000_0000_0000u128 + low
}

/// A map from pairs of 64-bit identifiers to values.
pub struct PairMap<V> {
    entries: HashMap<u128, V>,
}

impl<V> View for PairMap<V> {
    type V = Map<(u64, u64), V>;

    closed spec fn view(&self) -> Map<(u64, u64), V> {
        Map::new(
            |pair: (u64, u64)| self.entries@.contains_key(pair_key(pair.0, pair.1)),
            |pair: (u64, u64)| self.entries@[pair_key(pair.0, pair.1)],
        )
    }
}

impl<V> PairMap<V> {
    /// A map without entries.
    pub fn new() -> (map: PairMap<V>)
        ensures
            map@ == Map::<(u64, u64), V>::empty(),
    {
        let map = PairMap { entries: HashMap::new() };
        assert(map@ =~= Map::<(u64, u64), V>::empty());
        map
    }

    /// The map that `entries` lists. Where a pair is listed twice, the later
    /// entry counts.
    pub fn from_entries(entries: &Vec<(u64, u64, V)>) -> (map: PairMap<V>) where V: Copy
        ensures
            map@ == listed_pairs(entries@),
    {
        let mut map = PairMap::new();
        let mut i: usize = 0;
        while i < entries.len()
            invariant
                i <= entries.len(),
                map@ == listed_pairs(entries@.take(i as int)),
            decreases entries.len() - i,
        {
            let (first, second, value) = entries[i];
            map.insert(first, second, value);
            assert(entries@.take(i + 1).drop_last() =~= entries@.take(i as int));
            i += 1;
        }
        assert(entries@.take(entries@.len() as int) =~= entries@);
        map
    }

    /// The value stored under `(first, second)`, if there is one.
    pub fn get(&self, first: u64, second: u64) -> (value: Option<&V>)
        ensures
            match value {
                Some(v) => self@.contains_key((first, second)) && self@[(first, second)] == *v,
                None => !self@.contains_key((first, second)),
            },
    {
        let key = pack(first, second);
        self.entries.get(&key)
    }

    /// Stores `value` under `(first, second)`, in place of what was there.
    pub fn insert(&mut self, first: u64, second: u64, value: V)
        ensures
            final(self)@ == old(self)@.insert((first, second), value),
    {
        let key = pack(first, second);
        self.entries.insert(key, value);
        proof {
            assert forall|pair: (u64, u64)| #[trigger]
                pair_key(pair.0, pair.1) == key <==> pair == (first, second) by {
                lemma_pair_key_injective(pair, (first, second));
            }
            assert(self@ =~= old(self)@.insert((first, second), value));
        }
    }
}

} // verus!
