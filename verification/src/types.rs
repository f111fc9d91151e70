//! Identifiers, amounts, errors and events of the multi-token ledger.

use vstd::prelude::*;

verus! {

/// Identifier of a holder or actor.
pub type AccountId = u64;

/// Identifier of a token collection.
pub type CollectionId = u64;

/// A quantity of tokens. Never negative.
pub type Amount = u128;

/// Identifiers that can be handed out one after the other.
pub trait Next: Sized {
    /// Whether a successor of this identifier exists.
    spec fn has_next(&self) -> bool;

    /// The successor of this identifier.
    spec fn spec_next(&self) -> Self;

    /// Returns the identifier that follows this one.
    fn next(&self) -> (r: Self)
        requires
            self.has_next(),
        ensures
            r == self.spec_next(),
    ;
}

impl Next for CollectionId {
    open spec fn has_next(&self) -> bool {
        *self < CollectionId::MAX
    }

    open spec fn spec_next(&self) -> CollectionId {
        (*self + 1) as CollectionId
    }

    fn next(&self) -> (r: CollectionId) {
        *self + 1
    }
}

/// Why an operation on the ledger was refused.
#[derive(Clone, Copy, Debug, PartialEq, Eq)]
pub enum Error {
    /// An account tried to name itself as its own operator.
    InvalidOperator,
    /// The caller has no right to move the funds of the account debited.
    InsufficientApprovalForAll,
    /// The identifiers and the amounts of a batch differ in number.
    InvalidArrayLength,
    /// The account debited holds less than the amount asked for.
    InsufficientBalance,
    /// The collection, or the balance entry debited, does not exist.
    CollectionDoesNotExist,
    /// The caller is not the account that created the collection.
    InvalidOwner,
    /// The request carries no signer.
    Unauthenticated,
    /// The request lacks the elevated authority that the operation asks for.
    Unauthorized,
}

/// What an operation did, for the host to publish.
#[derive(Clone, Debug, PartialEq, Eq)]
pub enum Event {
    /// A new collection has been created.
    CollectionCreated { id: CollectionId, owner: AccountId },
    /// `value` tokens of collection `id` moved from `from` to `to` on behalf of `operator`.
    TransferSingle {
        operator: AccountId,
        from: Option<AccountId>,
        to: Option<AccountId>,
        id: CollectionId,
        value: Amount,
    },
    /// Several transfers at once, all with the same `operator`, `from` and `to`.
    TransferBatch {
        operator: AccountId,
        from: Option<AccountId>,
        to: Option<AccountId>,
        ids: Vec<CollectionId>,
        values: Vec<Amount>,
    },
    /// `account` granted `operator` the right to move its tokens, or revoked it.
    ApprovalForAll { account: AccountId, operator: AccountId, approved: bool },
}

/// An [`Event`] as a mathematical value: sequences in place of vectors.
pub enum EventView {
    CollectionCreated { id: CollectionId, owner: AccountId },
    TransferSingle {
        operator: AccountId,
        from: Option<AccountId>,
        to: Option<AccountId>,
        id: CollectionId,
        value: Amount,
    },
    TransferBatch {
        operator: AccountId,
        from: Option<AccountId>,
        to: Option<AccountId>,
        ids: Seq<CollectionId>,
        values: Seq<Amount>,
    },
    ApprovalForAll { account: AccountId, operator: AccountId, approved: bool },
}

impl View for Event {
    type V = EventView;

    open spec fn view(&self) -> EventView {
        match *self {
            Event::CollectionCreated { id, owner } => EventView::CollectionCreated { id, owner },
            Event::TransferSingle { operator, from, to, id, value } => EventView::TransferSingle {
                operator,
                from,
                to,
                id,
                value,
            },
            Event::TransferBatch { operator, from, to, ids, values } => EventView::TransferBatch {
                operator,
                from,
                to,
                ids: ids@,
                values: values@,
            },
            Event::ApprovalForAll { account, operator, approved } => EventView::ApprovalForAll {
                account,
                operator,
                approved,
            },
        }
    }
}

/// The result of an operation as a mathematical value.
pub open spec fn result_view(r: Result<Event, Error>) -> Result<EventView, Error> {
    match r {
        Ok(event) => Ok(event@),
        Err(error) => Err(error),
    }
}

} // verus!
