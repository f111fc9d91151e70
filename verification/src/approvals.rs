//! The operator approvals of the ledger.

use vstd::prelude::*;
use crate::model::{listed_pairs, ApprovalMap};
use crate::pair_map::PairMap;
use crate::types::{AccountId, Error};

verus! {

/// Which operators each account lets move its tokens.
pub struct ApprovalStore {
    entries: PairMap<bool>,
}

impl View for ApprovalStore {
    type V = ApprovalMap;

    closed spec fn view(&self) -> ApprovalMap {
        self.entries@
    }
}

impl ApprovalStore {
    /// A store in which nobody approved anybody.
    pub fn new() -> (store: ApprovalStore)
        ensures
            store@ == ApprovalMap::empty(),
    {
        ApprovalStore { entries: PairMap::new() }
    }

    /// The store that `entries` lists, each an owner, an operator and whether
    /// the owner approves the operator. Where a pair is listed twice, the later
    /// entry counts.
    pub fn restore(entries: &Vec<(AccountId, AccountId, bool)>) -> (store: ApprovalStore)
        ensures
            store@ == listed_pairs(entries@),
    {
        ApprovalStore { entries: PairMap::from_entries(entries) }
    }

    /// Records that `owner` approves `operator`, or no longer does.
    ///
    /// Fails with `InvalidOperator` exactly when `owner` names itself, and then
    /// changes nothing.
    pub fn set_approval(&mut self, owner: AccountId, operator: AccountId, approved: bool) -> (r:
        Result<(), Error>)
        ensures
            owner == operator ==> r == Err::<(), Error>(Error::InvalidOperator) && final(self)@
                == old(self)@,
            owner != operator ==> r is Ok && final(self)@ == old(self)@.insert(
                (owner, operator),
                approved,
            ),
    {
        if owner == operator {
            return Err(Error::InvalidOperator);
        }
        self.entries.insert(owner, operator, approved);
        Ok(())
    }

    /// Whether `owner` approves `operator`. An absent entry reads as `false`.
    pub fn is_approved(&self, owner: AccountId, operator: AccountId) -> (approved: bool)
        ensures
            approved == (self@.contains_key((owner, operator)) && self@[(owner, operator)]),
    {
        match self.entries.get(owner, operator) {
            Some(approved) => *approved,
            None => false,
        }
    }
}

} // verus!
