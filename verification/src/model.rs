//! The ledger as a mathematical state machine.
//!
//! A [`LedgerState`] holds the counter of collection identifiers and the three
//! relations of the ledger. Every operation is a function from a state and its
//! arguments to an [`Outcome`]: the state that follows and what the caller is
//! told. The executable ledger is specified against these functions.

use vstd::prelude::*;
use crate::types::{AccountId, Amount, CollectionId, Error, EventView, Next};
use crate::origin::Origin;

verus! {

/// The balance entries: which account holds how much of which collection.
pub type BalanceMap = Map<(CollectionId, AccountId), Amount>;

/// The operator approvals, keyed by owner and operator.
pub type ApprovalMap = Map<(AccountId, AccountId), bool>;

/// The balance entries after a debit of `amount` from what `account` holds of
/// `id`. An account without an entry cannot be debited, whatever the amount.
pub open spec fn debit(
    balances: BalanceMap,
    id: CollectionId,
    account: AccountId,
    amount: Amount,
) -> Result<BalanceMap, Error> {
    if !balances.contains_key((id, account)) {
        Err(Error::CollectionDoesNotExist)
    } else if balances[(id, account)] < amount {
        Err(Error::InsufficientBalance)
    } else {
        Ok(balances.insert((id, account), (balances[(id, account)] - amount) as Amount))
    }
}

/// The balance entries after a credit: the entry of `account` in `id` is set to
/// `amount`, whatever it held before.
pub open spec fn credit(
    balances: BalanceMap,
    id: CollectionId,
    account: AccountId,
    amount: Amount,
) -> BalanceMap {
    balances.insert((id, account), amount)
}

/// One step of a batch: debit `from`, if there is one, then credit `to`, if
/// there is one.
pub open spec fn apply_one(
    balances: BalanceMap,
    from: Option<AccountId>,
    to: Option<AccountId>,
    id: CollectionId,
    amount: Amount,
) -> Result<BalanceMap, Error> {
    let debited = match from {
        Some(account) => debit(balances, id, account, amount),
        None => Ok(balances),
    };
    match (debited, to) {
        (Ok(rest), Some(account)) => Ok(credit(rest, id, account, amount)),
        _ => debited,
    }
}

/// Where a batch stands: the balance entries reached, and the error that
/// stopped it, if one did.
pub struct BatchOutcome {
    pub balances: BalanceMap,
    pub error: Option<Error>,
}

/// The first `n` steps of a batch, taken in order. The batch stops at the first
/// step that fails; what the steps before it wrote stays written.
pub open spec fn apply_prefix(
    balances: BalanceMap,
    from: Option<AccountId>,
    to: Option<AccountId>,
    ids: Seq<CollectionId>,
    amounts: Seq<Amount>,
    n: nat,
) -> BatchOutcome
    decreases n,
{
    if n == 0 {
        BatchOutcome { balances, error: None }
    } else {
        let before = apply_prefix(balances, from, to, ids, amounts, (n - 1) as nat);
        if before.error is Some {
            before
        } else {
            match apply_one(before.balances, from, to, ids[n - 1], amounts[n - 1]) {
                Ok(after) => BatchOutcome { balances: after, error: None },
                Err(error) => BatchOutcome { balances: before.balances, error: Some(error) },
            }
        }
    }
}

/// A whole batch of as many steps as there are identifiers.
pub open spec fn apply_batch(
    balances: BalanceMap,
    from: Option<AccountId>,
    to: Option<AccountId>,
    ids: Seq<CollectionId>,
    amounts: Seq<Amount>,
) -> BatchOutcome {
    apply_prefix(balances, from, to, ids, amounts, ids.len())
}

/// The event that describes a batch: the single shape for exactly one
/// identifier, the batch shape for any other number, none included.
pub open spec fn transfer_event(
    operator: AccountId,
    from: Option<AccountId>,
    to: Option<AccountId>,
    ids: Seq<CollectionId>,
    amounts: Seq<Amount>,
) -> EventView {
    if ids.len() == 1 {
        EventView::TransferSingle { operator, from, to, id: ids[0], value: amounts[0] }
    } else {
        EventView::TransferBatch { operator, from, to, ids, values: amounts }
    }
}

/// The owners that a list of collections records. Where an identifier is
/// listed twice, the later entry counts.
pub open spec fn listed_owners(entries: Seq<(CollectionId, AccountId)>) -> Map<
    CollectionId,
    AccountId,
>
    decreases entries.len(),
{
    if entries.len() == 0 {
        Map::empty()
    } else {
        listed_owners(entries.drop_last()).insert(entries.last().0, entries.last().1)
    }
}

/// Whether the collections that `owners` holds are those that `counter` has
/// passed: the identifiers below it, each named by the counter in its turn.
pub open spec fn counted(counter: CollectionId, owners: Map<CollectionId, AccountId>) -> bool {
    forall|id: CollectionId| #[trigger] owners.contains_key(id) <==> id < counter
}

/// The collections with the identifiers below `counter`, each with its owner,
/// by increasing identifier.
pub open spec fn listing(counter: CollectionId, owners: Map<CollectionId, AccountId>) -> Seq<
    (CollectionId, AccountId),
> {
    Seq::new(counter as nat, |i: int| (i as CollectionId, owners[i as CollectionId]))
}

/// The relation that a list of entries records, each entry a pair of
/// identifiers with its value. Where a pair is listed twice, the later entry
/// counts.
pub open spec fn listed_pairs<V>(entries: Seq<(u64, u64, V)>) -> Map<(u64, u64), V>
    decreases entries.len(),
{
    if entries.len() == 0 {
        Map::empty()
    } else {
        listed_pairs(entries.drop_last()).insert(
            (entries.last().0, entries.last().1),
            entries.last().2,
        )
    }
}

/// The state of the ledger.
pub struct LedgerState {
    /// The identifier that the next collection will get.
    pub next_collection_id: CollectionId,
    /// The owner of each collection.
    pub collections: Map<CollectionId, AccountId>,
    /// The balance entries. An absent entry reads as zero.
    pub balances: BalanceMap,
    /// The operator approvals. An absent entry reads as not approved.
    pub operator_approvals: ApprovalMap,
}

/// What an operation leaves behind: the state that follows, and the event to
/// publish or the reason for the refusal.
pub struct Outcome {
    pub state: LedgerState,
    pub result: Result<EventView, Error>,
}

impl LedgerState {
    /// The ledger before anything happened.
    pub open spec fn empty() -> LedgerState {
        LedgerState {
            next_collection_id: 0,
            collections: Map::empty(),
            balances: Map::empty(),
            operator_approvals: Map::empty(),
        }
    }

    /// The ledger that a host has on record: the counter and the entries of the
    /// three relations.
    pub open spec fn restored(
        next_collection_id: CollectionId,
        collections: Seq<(CollectionId, AccountId)>,
        balances: Seq<(CollectionId, AccountId, Amount)>,
        approvals: Seq<(AccountId, AccountId, bool)>,
    ) -> LedgerState {
        LedgerState {
            next_collection_id,
            collections: listed_owners(collections),
            balances: listed_pairs(balances),
            operator_approvals: listed_pairs(approvals),
        }
    }

    /// The collections that exist are those that the counter has passed: the
    /// counter named each of them, in turn and from zero.
    pub open spec fn wf(self) -> bool {
        counted(self.next_collection_id, self.collections)
    }

    /// All collections with their owners, by increasing identifier.
    pub open spec fn all_collections(self) -> Seq<(CollectionId, AccountId)> {
        listing(self.next_collection_id, self.collections)
    }

    /// The owner of a collection, if the collection exists.
    pub open spec fn owner_of(self, id: CollectionId) -> Option<AccountId> {
        if self.collections.contains_key(id) {
            Some(self.collections[id])
        } else {
            None
        }
    }

    /// What `account` holds of collection `id`.
    pub open spec fn balance_of(self, account: AccountId, id: CollectionId) -> Amount {
        if self.balances.contains_key((id, account)) {
            self.balances[(id, account)]
        } else {
            0
        }
    }

    /// What each account holds of the collection at the same position, or
    /// `None` if the two sequences differ in length.
    pub open spec fn balance_of_batch(
        self,
        accounts: Seq<AccountId>,
        ids: Seq<CollectionId>,
    ) -> Option<Seq<Amount>> {
        if accounts.len() != ids.len() {
            None
        } else {
            Some(Seq::new(ids.len(), |i: int| self.balance_of(accounts[i], ids[i])))
        }
    }

    /// Whether `operator` may move the tokens of `account`.
    pub open spec fn is_approved_for_all(self, account: AccountId, operator: AccountId) -> bool {
        self.operator_approvals.contains_key((account, operator))
            && self.operator_approvals[(account, operator)]
    }

    /// This state, with the error that refused the operation.
    pub open spec fn refuse(self, error: Error) -> Outcome {
        Outcome { state: self, result: Err(error) }
    }

    /// Applies a batch of debits and credits on behalf of `operator`.
    pub open spec fn update(
        self,
        operator: AccountId,
        from: Option<AccountId>,
        to: Option<AccountId>,
        ids: Seq<CollectionId>,
        amounts: Seq<Amount>,
    ) -> Outcome {
        if ids.len() != amounts.len() {
            self.refuse(Error::InvalidArrayLength)
        } else {
            let batch = apply_batch(self.balances, from, to, ids, amounts);
            Outcome {
                state: LedgerState { balances: batch.balances, ..self },
                result: match batch.error {
                    Some(error) => Err(error),
                    None => Ok(transfer_event(operator, from, to, ids, amounts)),
                },
            }
        }
    }

    /// Creates a collection owned by the signer.
    pub open spec fn create(self, origin: Origin) -> Outcome {
        match origin.signer {
            None => self.refuse(Error::Unauthenticated),
            Some(sender) => Outcome {
                state: LedgerState {
                    next_collection_id: self.next_collection_id.spec_next(),
                    collections: self.collections.insert(self.next_collection_id, sender),
                    ..self
                },
                result: Ok(
                    EventView::CollectionCreated { id: self.next_collection_id, owner: sender },
                ),
            },
        }
    }

    /// Grants `operator` the right to move the signer's tokens, or revokes it.
    pub open spec fn set_approval_for_all(
        self,
        origin: Origin,
        operator: AccountId,
        approved: bool,
    ) -> Outcome {
        match origin.signer {
            None => self.refuse(Error::Unauthenticated),
            Some(owner) => if owner == operator {
                self.refuse(Error::InvalidOperator)
            } else {
                Outcome {
                    state: LedgerState {
                        operator_approvals: self.operator_approvals.insert(
                            (owner, operator),
                            approved,
                        ),
                        ..self
                    },
                    result: Ok(EventView::ApprovalForAll { account: owner, operator, approved }),
                }
            },
        }
    }

    /// Moves `amount` of collection `id` from the signer's own holding to `to`.
    pub open spec fn safe_transfer_from(
        self,
        origin: Origin,
        from: AccountId,
        to: AccountId,
        id: CollectionId,
        amount: Amount,
    ) -> Outcome {
        match origin.signer {
            None => self.refuse(Error::Unauthenticated),
            Some(sender) => if from != sender {
                self.refuse(Error::InsufficientApprovalForAll)
            } else {
                self.update(sender, Some(from), Some(to), seq![id], seq![amount])
            },
        }
    }

    /// Moves a batch from `from` to `to`. The signer is `from` or an operator
    /// that `from` approved.
    pub open spec fn safe_batch_transfer_from(
        self,
        origin: Origin,
        from: AccountId,
        to: AccountId,
        ids: Seq<CollectionId>,
        amounts: Seq<Amount>,
    ) -> Outcome {
        match origin.signer {
            None => self.refuse(Error::Unauthenticated),
            Some(sender) => if from != sender && !self.is_approved_for_all(from, sender) {
                self.refuse(Error::InsufficientApprovalForAll)
            } else {
                self.update(sender, Some(from), Some(to), ids, amounts)
            },
        }
    }

    /// Mints `amount` of collection `id` to `to`. Only the owner of the
    /// collection may.
    pub open spec fn mint(
        self,
        origin: Origin,
        to: AccountId,
        id: CollectionId,
        amount: Amount,
    ) -> Outcome {
        match origin.signer {
            None => self.refuse(Error::Unauthenticated),
            Some(sender) => match self.owner_of(id) {
                None => self.refuse(Error::CollectionDoesNotExist),
                Some(owner) => if owner != sender {
                    self.refuse(Error::InvalidOwner)
                } else {
                    self.update(sender, None, Some(to), seq![id], seq![amount])
                },
            },
        }
    }

    /// Mints a batch to `to`. The request needs elevated authority, whoever
    /// owns the collections.
    pub open spec fn mint_batch(
        self,
        origin: Origin,
        to: AccountId,
        ids: Seq<CollectionId>,
        amounts: Seq<Amount>,
    ) -> Outcome {
        if !origin.elevated {
            self.refuse(Error::Unauthorized)
        } else {
            match origin.signer {
                None => self.refuse(Error::Unauthenticated),
                Some(sender) => self.update(sender, None, Some(to), ids, amounts),
            }
        }
    }

    /// Burns `amount` of what the signer holds of collection `id`.
    pub open spec fn burn(self, origin: Origin, id: CollectionId, amount: Amount) -> Outcome {
        match origin.signer {
            None => self.refuse(Error::Unauthenticated),
            Some(sender) => self.update(sender, Some(sender), None, seq![id], seq![amount]),
        }
    }

    /// Burns a batch of the signer's holdings.
    pub open spec fn burn_batch(
        self,
        origin: Origin,
        ids: Seq<CollectionId>,
        amounts: Seq<Amount>,
    ) -> Outcome {
        match origin.signer {
            None => self.refuse(Error::Unauthenticated),
            Some(sender) => self.update(sender, Some(sender), None, ids, amounts),
        }
    }
}

} // verus!
