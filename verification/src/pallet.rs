//! The ledger and its operations.
//!
//! Every operation that changes the ledger takes the origin of the request,
//! checks what the caller may do, applies the change and returns the event for
//! the host to publish. An operation that is refused returns the reason and
//! publishes nothing.

use vstd::prelude::*;
use crate::approvals::ApprovalStore;
use crate::balances::BalanceLedger;
use crate::model::{LedgerState, Outcome};
use crate::origin::{ensure_root, ensure_signed, Origin};
use crate::registry::CollectionRegistry;
use crate::transfer::apply_batch;
use crate::types::{result_view, AccountId, Amount, CollectionId, Error, Event, Next};

verus! {

/// The multi-token ledger: the collections, the operator approvals and the
/// balances.
pub struct Pallet {
    registry: CollectionRegistry,
    approvals: ApprovalStore,
    balances: BalanceLedger,
}

impl View for Pallet {
    type V = LedgerState;

    closed spec fn view(&self) -> LedgerState {
        LedgerState {
            next_collection_id: self.registry.counter(),
            collections: self.registry.owners(),
            balances: self.balances@,
            operator_approvals: self.approvals@,
        }
    }
}

impl Pallet {
    /// A ledger without collections, approvals or balances.
    pub fn new() -> (ledger: Pallet)
        ensures
            ledger@ == LedgerState::empty(),
    {
        Pallet {
            registry: CollectionRegistry::new(),
            approvals: ApprovalStore::new(),
            balances: BalanceLedger::new(),
        }
    }

    /// The ledger that a host has on record: the counter of collection
    /// identifiers and the entries of the three relations. Where an entry is
    /// listed twice, the later one counts. There is such a ledger exactly if
    /// the collections listed are those with the identifiers below the
    /// counter; otherwise `None` is returned.
    pub fn restore(
        next_collection_id: CollectionId,
        collections: &Vec<(CollectionId, AccountId)>,
        balances: &Vec<(CollectionId, AccountId, Amount)>,
        approvals: &Vec<(AccountId, AccountId, bool)>,
    ) -> (r: Option<Pallet>)
        ensures
            r is Some <==> LedgerState::restored(
                next_collection_id,
                collections@,
                balances@,
                approvals@,
            ).wf(),
            r matches Some(ledger) ==> ledger@ == LedgerState::restored(
                next_collection_id,
                collections@,
                balances@,
                approvals@,
            ),
    {
        let registry = match CollectionRegistry::restore(next_collection_id, collections) {
            Some(registry) => registry,
            None => {
                return None;
            },
        };
        Some(
            Pallet {
                registry,
                approvals: ApprovalStore::restore(approvals),
                balances: BalanceLedger::restore(balances),
            },
        )
    }

    /// Grants `operator` the right to move the signer's tokens, or revokes it,
    /// according to `approved`. No account can name itself.
    pub fn set_approval_for_all(&mut self, origin: Origin, operator: AccountId, approved: bool) -> (r:
        Result<Event, Error>)
        ensures
            (Outcome { state: final(self)@, result: result_view(r) })
                == old(self)@.set_approval_for_all(origin, operator, approved),
            final(self)@.wf(),
    {
        proof {
            use_type_invariant(&self.registry);
            self.registry.lemma_below_counter();
        }
        let owner = match ensure_signed(origin) {
            Ok(owner) => owner,
            Err(error) => {
                return Err(error);
            },
        };
        match self.approvals.set_approval(owner, operator, approved) {
            Ok(()) => Ok(Event::ApprovalForAll { account: owner, operator, approved }),
            Err(error) => Err(error),
        }
    }

    /// Moves `amount` of collection `id` from `from` to `to`. Only `from`
    /// itself may ask for it.
    pub fn safe_transfer_from(
        &mut self,
        origin: Origin,
        from: AccountId,
        to: AccountId,
        id: CollectionId,
        amount: Amount,
    ) -> (r: Result<Event, Error>)
        ensures
            (Outcome { state: final(self)@, result: result_view(r) })
                == old(self)@.safe_transfer_from(origin, from, to, id, amount),
            final(self)@.wf(),
    {
        proof {
            use_type_invariant(&self.registry);
            self.registry.lemma_below_counter();
        }
        let sender = match ensure_signed(origin) {
            Ok(sender) => sender,
            Err(error) => {
                return Err(error);
            },
        };
        if from != sender {
            return Err(Error::InsufficientApprovalForAll);
        }
        let ids = vec![id];
        let amounts = vec![amount];
        assert(ids@ =~= seq![id] && amounts@ =~= seq![amount]);
        self.update(sender, Some(from), Some(to), ids, amounts)
    }

    /// Moves a batch from `from` to `to`: for each position, the amount at that
    /// position of the collection at that position. The signer must be `from`
    /// or an operator that `from` approved.
    pub fn safe_batch_transfer_from(
        &mut self,
        origin: Origin,
        from: AccountId,
        to: AccountId,
        ids: Vec<CollectionId>,
        amounts: Vec<Amount>,
    ) -> (r: Result<Event, Error>)
        ensures
            (Outcome { state: final(self)@, result: result_view(r) })
                == old(self)@.safe_batch_transfer_from(origin, from, to, ids@, amounts@),
            final(self)@.wf(),
    {
        proof {
            use_type_invariant(&self.registry);
            self.registry.lemma_below_counter();
        }
        let sender = match ensure_signed(origin) {
            Ok(sender) => sender,
            Err(error) => {
                return Err(error);
            },
        };
        if from != sender && !self.is_approved_for_all(&from, &sender) {
            return Err(Error::InsufficientApprovalForAll);
        }
        self.update(sender, Some(from), Some(to), ids, amounts)
    }

    /// Mints `amount` new tokens of collection `id` to `to`. Only the account
    /// that created the collection may.
    pub fn mint(&mut self, origin: Origin, to: AccountId, id: CollectionId, amount: Amount) -> (r:
        Result<Event, Error>)
        ensures
            (Outcome { state: final(self)@, result: result_view(r) }) == old(self)@.mint(
                origin,
                to,
                id,
                amount,
            ),
            final(self)@.wf(),
    {
        proof {
            use_type_invariant(&self.registry);
            self.registry.lemma_below_counter();
        }
        let sender = match ensure_signed(origin) {
            Ok(sender) => sender,
            Err(error) => {
                return Err(error);
            },
        };
        let owner = match self.registry.owner_of(id) {
            Some(owner) => owner,
            None => {
                return Err(Error::CollectionDoesNotExist);
            },
        };
        if owner != sender {
            return Err(Error::InvalidOwner);
        }
        let ids = vec![id];
        let amounts = vec![amount];
        assert(ids@ =~= seq![id] && amounts@ =~= seq![amount]);
        self.update(sender, None, Some(to), ids, amounts)
    }

    /// Mints a batch to `to`. The request must carry elevated authority; who
    /// owns the collections plays no part.
    pub fn mint_batch(
        &mut self,
        origin: Origin,
        to: AccountId,
        ids: Vec<CollectionId>,
        amounts: Vec<Amount>,
    ) -> (r: Result<Event, Error>)
        ensures
            (Outcome { state: final(self)@, result: result_view(r) }) == old(self)@.mint_batch(
                origin,
                to,
                ids@,
                amounts@,
            ),
            final(self)@.wf(),
    {
        proof {
            use_type_invariant(&self.registry);
            self.registry.lemma_below_counter();
        }
        match ensure_root(origin) {
            Ok(()) => {},
            Err(error) => {
                return Err(error);
            },
        }
        let sender = match ensure_signed(origin) {
            Ok(sender) => sender,
            Err(error) => {
                return Err(error);
            },
        };
        self.update(sender, None, Some(to), ids, amounts)
    }

    /// Burns `amount` of what the signer holds of collection `id`.
    pub fn burn(&mut self, origin: Origin, id: CollectionId, amount: Amount) -> (r: Result<
        Event,
        Error,
    >)
        ensures
            (Outcome { state: final(self)@, result: result_view(r) }) == old(self)@.burn(
                origin,
                id,
                amount,
            ),
            final(self)@.wf(),
    {
        proof {
            use_type_invariant(&self.registry);
            self.registry.lemma_below_counter();
        }
        let sender = match ensure_signed(origin) {
            Ok(sender) => sender,
            Err(error) => {
                return Err(error);
            },
        };
        let ids = vec![id];
        let amounts = vec![amount];
        assert(ids@ =~= seq![id] && amounts@ =~= seq![amount]);
        self.update(sender, Some(sender), None, ids, amounts)
    }

    /// Burns a batch of what the signer holds.
    pub fn burn_batch(&mut self, origin: Origin, ids: Vec<CollectionId>, amounts: Vec<Amount>) -> (r:
        Result<Event, Error>)
        ensures
            (Outcome { state: final(self)@, result: result_view(r) }) == old(self)@.burn_batch(
                origin,
                ids@,
                amounts@,
            ),
            final(self)@.wf(),
    {
        proof {
            use_type_invariant(&self.registry);
            self.registry.lemma_below_counter();
        }
        let sender = match ensure_signed(origin) {
            Ok(sender) => sender,
            Err(error) => {
                return Err(error);
            },
        };
        self.update(sender, Some(sender), None, ids, amounts)
    }

    /// Creates a collection owned by the signer. Its identifier is the value
    /// of the counter, which then moves on by one.
    pub fn create(&mut self, origin: Origin) -> (r: Result<Event, Error>)
        requires
            old(self)@.next_collection_id.has_next(),
        ensures
            (Outcome { state: final(self)@, result: result_view(r) }) == old(self)@.create(origin),
            !old(self)@.collections.contains_key(old(self)@.next_collection_id),
            final(self)@.wf(),
    {
        proof {
            use_type_invariant(&self.registry);
            self.registry.lemma_below_counter();
        }
        let sender = match ensure_signed(origin) {
            Ok(sender) => sender,
            Err(error) => {
                return Err(error);
            },
        };
        let id = self.registry.create(sender);
        proof {
            use_type_invariant(&self.registry);
            self.registry.lemma_below_counter();
        }
        Ok(Event::CollectionCreated { id, owner: sender })
    }

    /// Applies a batch on behalf of `operator`, whoever that is: the callers
    /// above have settled what `operator` may do. Only the balances change.
    fn update(
        &mut self,
        operator: AccountId,
        from: Option<AccountId>,
        to: Option<AccountId>,
        ids: Vec<CollectionId>,
        amounts: Vec<Amount>,
    ) -> (r: Result<Event, Error>)
        ensures
            (Outcome { state: final(self)@, result: result_view(r) }) == old(self)@.update(
                operator,
                from,
                to,
                ids@,
                amounts@,
            ),
            final(self)@.wf(),
    {
        proof {
            use_type_invariant(&self.registry);
            self.registry.lemma_below_counter();
        }
        apply_batch(&mut self.balances, operator, from, to, ids, amounts)
    }

    /// What `account` holds of collection `id`. An account that was never
    /// credited holds zero.
    pub fn balance_of(&self, account: &AccountId, id: &CollectionId) -> (held: Amount)
        ensures
            held == self@.balance_of(*account, *id),
    {
        self.balances.get(*id, *account)
    }

    /// What each account holds of the collection at the same position, or
    /// `None` if the two vectors differ in length.
    pub fn balance_of_batch(&self, accounts: &Vec<AccountId>, ids: &Vec<CollectionId>) -> (r:
        Option<Vec<Amount>>)
        ensures
            match r {
                Some(held) => Some(held@) == self@.balance_of_batch(accounts@, ids@),
                None => self@.balance_of_batch(accounts@, ids@) is None,
            },
    {
        let len = accounts.len();
        if len != ids.len() {
            return None;
        }
        let mut held: Vec<Amount> = Vec::with_capacity(len);
        let mut i: usize = 0;
        while i < len
            invariant
                i <= len,
                len == accounts.len(),
                len == ids.len(),
                held@.len() == i,
                forall|k: int|
                    0 <= k < i ==> #[trigger] held@[k] == self@.balance_of(accounts@[k], ids@[k]),
            decreases len - i,
        {
            held.push(self.balance_of(&accounts[i], &ids[i]));
            i += 1;
        }
        assert(Some(held@) =~= self@.balance_of_batch(accounts@, ids@));
        Some(held)
    }

    /// Whether `operator` may move the tokens of `account`.
    pub fn is_approved_for_all(&self, account: &AccountId, operator: &AccountId) -> (approved: bool)
        ensures
            approved == self@.is_approved_for_all(*account, *operator),
    {
        self.approvals.is_approved(*account, *operator)
    }

    /// All collections with their owners, by increasing identifier: the
    /// collection `i` at position `i`.
    pub fn all_collections(&self) -> (list: Vec<(CollectionId, AccountId)>)
        ensures
            list@ == self@.all_collections(),
    {
        self.registry.all()
    }

    /// The identifier that the next collection will get. The collections that
    /// exist are those with the identifiers below it.
    pub fn next_collection_id(&self) -> (id: CollectionId)
        ensures
            id == self@.next_collection_id,
            self@.wf(),
    {
        proof {
            use_type_invariant(&self.registry);
            self.registry.lemma_below_counter();
        }
        self.registry.next_id()
    }

    /// The owner of collection `id`, if the collection exists.
    pub fn collections(&self, id: CollectionId) -> (owner: Option<AccountId>)
        ensures
            owner == self@.owner_of(id),
    {
        self.registry.owner_of(id)
    }

    /// The balance entry of `account` in collection `id`, if there is one.
    pub fn balances(&self, id: CollectionId, account: AccountId) -> (held: Option<Amount>)
        ensures
            held == if self@.balances.contains_key((id, account)) {
                Some(self@.balances[(id, account)])
            } else {
                None
            },
    {
        self.balances.entry(id, account)
    }

    /// Whether `owner` approved `operator`.
    pub fn operator_approvals(&self, owner: AccountId, operator: AccountId) -> (approved: bool)
        ensures
            approved == self@.is_approved_for_all(owner, operator),
    {
        self.approvals.is_approved(owner, operator)
    }
}

} // verus!
