//! The collections of the ledger and the counter that names them.

use vstd::prelude::*;
use std::collections::HashMap;
use crate::model::{counted, listed_owners, listing};
use crate::types::{AccountId, CollectionId, Next};

verus! {

/// The collections that exist, each with its owner, and the identifier that
/// the next one will get.
pub struct CollectionRegistry {
    next_id: CollectionId,
    owners: HashMap<CollectionId, AccountId>,
}

/// The identifiers below `n`.
spec fn ids_below(n: CollectionId) -> Set<CollectionId> {
    Set::new(|id: CollectionId| id < n)
}

/// There are `n` identifiers below `n`.
proof fn lemma_ids_below(n: CollectionId)
    ensures
        ids_below(n).finite(),
        ids_below(n).len() == n,
    decreases n,
{
    if n == 0 {
        assert(ids_below(n) =~= Set::empty());
    } else {
        let m = (n - 1) as CollectionId;
        lemma_ids_below(m);
        assert(ids_below(n) =~= ids_below(m).insert(m));
    }
}

impl CollectionRegistry {
    /// The collections are those that the counter has passed: the counter
    /// named each of them, in turn and from zero.
    #[verifier::type_invariant]
    pub closed spec fn below_counter(self) -> bool {
        counted(self.next_id, self.owners@)
    }

    /// What holds of every registry: its collections are exactly the
    /// identifiers below the counter.
    pub proof fn lemma_below_counter(self)
        requires
            self.below_counter(),
        ensures
            counted(self.counter(), self.owners()),
    {
    }

    /// The identifier that the next collection will get.
    pub closed spec fn counter(&self) -> CollectionId {
        self.next_id
    }

    /// The owner of each collection.
    pub closed spec fn owners(&self) -> Map<CollectionId, AccountId> {
        self.owners@
    }

    /// A registry without collections, whose counter stands at zero.
    pub fn new() -> (registry: CollectionRegistry)
        ensures
            registry.counter() == 0,
            registry.owners() == Map::<CollectionId, AccountId>::empty(),
    {
        CollectionRegistry { next_id: 0, owners: HashMap::new() }
    }

    /// The registry that a host has on record: the counter and the collections
    /// with their owners. Where a collection is listed twice, the later entry
    /// counts. There is such a registry exactly if the collections listed are
    /// those with the identifiers below the counter.
    pub fn restore(next_id: CollectionId, entries: &Vec<(CollectionId, AccountId)>) -> (r: Option<
        CollectionRegistry,
    >)
        ensures
            r is Some <==> counted(next_id, listed_owners(entries@)),
            r matches Some(registry) ==> registry.counter() == next_id && registry.owners()
                == listed_owners(entries@),
    {
        let mut owners: HashMap<CollectionId, AccountId> = HashMap::new();
        let mut below = true;
        let mut i: usize = 0;
        while i < entries.len()
            invariant
                i <= entries.len(),
                below <==> owners@.dom().subset_of(ids_below(next_id)),
                owners@ == listed_owners(entries@.take(i as int)),
            decreases entries.len() - i,
        {
            let (id, owner) = entries[i];
            let ghost before = owners@;
            owners.insert(id, owner);
            proof {
                assert(entries@.take(i + 1).drop_last() =~= entries@.take(i as int));
                if before.dom().subset_of(ids_below(next_id)) && id < next_id {
                    assert(owners@.dom().subset_of(ids_below(next_id)));
                } else if id >= next_id {
                    assert(owners@.dom().contains(id) && !ids_below(next_id).contains(id));
                } else {
                    let other = choose|other: CollectionId|
                        before.dom().contains(other) && !ids_below(next_id).contains(other);
                    assert(owners@.dom().contains(other));
                }
            }
            below = below && id < next_id;
            i += 1;
        }
        proof {
            assert(entries@.take(entries@.len() as int) =~= entries@);
            lemma_ids_below(next_id);
            if below {
                vstd::set_lib::lemma_len_subset(owners@.dom(), ids_below(next_id));
                if owners@.dom().len() == next_id {
                    vstd::set_lib::lemma_subset_equality(owners@.dom(), ids_below(next_id));
                }
            }
            if counted(next_id, owners@) {
                assert(owners@.dom() =~= ids_below(next_id));
            }
            if owners@.dom() == ids_below(next_id) {
                assert forall|id: CollectionId| #[trigger]
                    owners@.contains_key(id) <==> id < next_id by {
                    assert(ids_below(next_id).contains(id) <==> id < next_id);
                }
            }
        }
        if !below || owners.len() as u64 != next_id {
            return None;
        }
        Some(CollectionRegistry { next_id, owners })
    }

    /// The identifier that the next collection will get.
    pub fn next_id(&self) -> (id: CollectionId)
        ensures
            id == self.counter(),
    {
        self.next_id
    }

    /// Creates a collection owned by `owner` and returns its identifier: the
    /// value of the counter, which no collection had before. The counter moves
    /// on by one.
    pub fn create(&mut self, owner: AccountId) -> (id: CollectionId)
        requires
            old(self).counter().has_next(),
        ensures
            id == old(self).counter(),
            !old(self).owners().contains_key(id),
            final(self).counter() == id.spec_next(),
            final(self).owners() == old(self).owners().insert(id, owner),
    {
        proof {
            use_type_invariant(&*self);
        }
        // The registry is taken apart and put together again, so that it is
        // never seen with its counter moved and the collection not yet in.
        let mut taken = CollectionRegistry::new();
        core::mem::swap(self, &mut taken);
        let CollectionRegistry { next_id: id, mut owners } = taken;
        owners.insert(id, owner);
        *self = CollectionRegistry { next_id: id.next(), owners };
        id
    }

    /// The owner of collection `id`, if the collection exists.
    pub fn owner_of(&self, id: CollectionId) -> (owner: Option<AccountId>)
        ensures
            owner == if self.owners().contains_key(id) {
                Some(self.owners()[id])
            } else {
                None
            },
    {
        match self.owners.get(&id) {
            Some(owner) => Some(*owner),
            None => None,
        }
    }

    /// All collections with their owners, by increasing identifier: the
    /// collection `i` at position `i`.
    pub fn all(&self) -> (list: Vec<(CollectionId, AccountId)>)
        ensures
            list@ == listing(self.counter(), self.owners()),
    {
        proof {
            use_type_invariant(self);
        }
        let mut list: Vec<(CollectionId, AccountId)> = Vec::new();
        let mut id: CollectionId = 0;
        while id < self.next_id
            invariant
                id <= self.next_id,
                counted(self.next_id, self.owners@),
                list@ == listing(id, self.owners@),
            decreases self.next_id - id,
        {
            if let Some(owner) = self.owners.get(&id) {
                list.push((id, *owner));
            }
            id = id + 1;
            assert(list@ =~= listing(id, self.owners@));
        }
        list
    }
}

} // verus!
