//! The balance entries of the ledger.

use vstd::prelude::*;
use crate::model;
use crate::model::{listed_pairs, BalanceMap};
use crate::pair_map::PairMap;
use crate::types::{AccountId, Amount, CollectionId, Error};

verus! {

/// What each account holds of each collection.
pub struct BalanceLedger {
    entries: PairMap<Amount>,
}

impl View for BalanceLedger {
    type V = BalanceMap;

    closed spec fn view(&self) -> BalanceMap {
        self.entries@
    }
}

impl BalanceLedger {
    /// A ledger in which nobody holds anything.
    pub fn new() -> (ledger: BalanceLedger)
        ensures
            ledger@ == BalanceMap::empty(),
    {
        BalanceLedger { entries: PairMap::new() }
    }

    /// The ledger that `entries` lists, each an identifier, an account and what
    /// the account holds. Where a holding is listed twice, the later entry
    /// counts.
    pub fn restore(entries: &Vec<(CollectionId, AccountId, Amount)>) -> (ledger: BalanceLedger)
        ensures
            ledger@ == listed_pairs(entries@),
    {
        BalanceLedger { entries: PairMap::from_entries(entries) }
    }

    /// The entry of `account` in collection `id`, if there is one.
    pub fn entry(&self, id: CollectionId, account: AccountId) -> (held: Option<Amount>)
        ensures
            held == if self@.contains_key((id, account)) {
                Some(self@[(id, account)])
            } else {
                None
            },
    {
        match self.entries.get(id, account) {
            Some(amount) => Some(*amount),
            None => None,
        }
    }

    /// What `account` holds of collection `id`. An absent entry reads as zero.
    pub fn get(&self, id: CollectionId, account: AccountId) -> (held: Amount)
        ensures
            held == if self@.contains_key((id, account)) {
                self@[(id, account)]
            } else {
                0
            },
    {
        match self.entries.get(id, account) {
            Some(amount) => *amount,
            None => 0,
        }
    }

    /// Takes `amount` from what `account` holds of collection `id`.
    ///
    /// Fails with `CollectionDoesNotExist` if the account has no entry for the
    /// collection, and with `InsufficientBalance` if the entry is smaller than
    /// `amount`. A debit that fails changes nothing.
    pub fn debit(&mut self, id: CollectionId, account: AccountId, amount: Amount) -> (r: Result<
        (),
        Error,
    >)
        ensures
            match model::debit(old(self)@, id, account, amount) {
                Ok(after) => r is Ok && final(self)@ == after,
                Err(error) => r == Err::<(), Error>(error) && final(self)@ == old(self)@,
            },
    {
        let held = match self.entries.get(id, account) {
            Some(amount) => *amount,
            None => {
                return Err(Error::CollectionDoesNotExist);
            },
        };
        if held < amount {
            return Err(Error::InsufficientBalance);
        }
        self.entries.insert(id, account, held - amount);
        Ok(())
    }

    /// Sets what `account` holds of collection `id` to `amount`, whatever it
    /// held before.
    pub fn credit(&mut self, id: CollectionId, account: AccountId, amount: Amount)
        ensures
            final(self)@ == model::credit(old(self)@, id, account, amount),
    {
        self.entries.insert(id, account, amount);
    }
}

} // verus!
