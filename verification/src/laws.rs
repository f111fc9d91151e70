//! What holds of the ledger whatever its state: laws of the state machine,
//! each proved from the definitions of the operations.

use vstd::prelude::*;
use crate::model::{apply_batch, apply_one, apply_prefix, BalanceMap, BatchOutcome, LedgerState};
use crate::origin::Origin;
use crate::types::{AccountId, Amount, CollectionId, Error, EventView, Next};

verus! {

/// A batch of one step is that step: it writes what the step writes, or stops
/// with the step's error and writes nothing.
pub proof fn lemma_single_step_batch(
    balances: BalanceMap,
    from: Option<AccountId>,
    to: Option<AccountId>,
    id: CollectionId,
    amount: Amount,
)
    ensures
        apply_batch(balances, from, to, seq![id], seq![amount]) == match apply_one(
            balances,
            from,
            to,
            id,
            amount,
        ) {
            Ok(after) => BatchOutcome { balances: after, error: None },
            Err(error) => BatchOutcome { balances, error: Some(error) },
        },
{
    reveal_with_fuel(apply_prefix, 2);
}

/// The first steps of a batch leave an account without an entry as long as
/// none of them credits it.
proof fn lemma_prefix_creates_no_entry(
    balances: BalanceMap,
    from: Option<AccountId>,
    to: Option<AccountId>,
    ids: Seq<CollectionId>,
    amounts: Seq<Amount>,
    n: nat,
    account: AccountId,
    id: CollectionId,
)
    requires
        n <= ids.len(),
        !balances.contains_key((id, account)),
        to != Some(account) || !ids.contains(id),
    ensures
        !apply_prefix(balances, from, to, ids, amounts, n).balances.contains_key((id, account)),
    decreases n,
{
    if n > 0 {
        lemma_prefix_creates_no_entry(
            balances,
            from,
            to,
            ids,
            amounts,
            (n - 1) as nat,
            account,
            id,
        );
        assert(ids.contains(ids[n - 1]));
    }
}

/// In the empty ledger every account holds zero of every collection.
pub proof fn lemma_empty_ledger_holds_nothing(account: AccountId, id: CollectionId)
    ensures
        LedgerState::empty().balance_of(account, id) == 0,
{
}

/// An account holds zero of a collection before it is credited: without an
/// entry its balance reads as zero, and a batch that does not credit it leaves
/// it without an entry, whatever the batch debits and however it ends.
pub proof fn lemma_zero_before_credit(
    state: LedgerState,
    operator: AccountId,
    from: Option<AccountId>,
    to: Option<AccountId>,
    ids: Seq<CollectionId>,
    amounts: Seq<Amount>,
    account: AccountId,
    id: CollectionId,
)
    requires
        !state.balances.contains_key((id, account)),
        to != Some(account) || !ids.contains(id),
    ensures
        state.balance_of(account, id) == 0,
        !state.update(operator, from, to, ids, amounts).state.balances.contains_key((id, account)),
        state.update(operator, from, to, ids, amounts).state.balance_of(account, id) == 0,
{
    lemma_prefix_creates_no_entry(
        state.balances,
        from,
        to,
        ids,
        amounts,
        ids.len(),
        account,
        id,
    );
}

/// The first collection of a ledger gets the identifier zero.
pub proof fn lemma_first_collection_is_zero(origin: Origin)
    requires
        origin.signer is Some,
    ensures
        LedgerState::empty().wf(),
        LedgerState::empty().create(origin).result == Ok::<EventView, Error>(
            EventView::CollectionCreated { id: 0, owner: origin.signer->0 },
        ),
{
}

/// Creating a collection hands out the value of the counter, which no
/// collection has yet, records the signer as its owner and moves the counter
/// up. So a second creation gets a greater identifier and leaves the first
/// collection with its owner.
pub proof fn lemma_create_assigns_fresh_increasing_ids(
    state: LedgerState,
    first: Origin,
    second: Origin,
)
    requires
        state.wf(),
        state.next_collection_id.has_next(),
        state.next_collection_id.spec_next().has_next(),
        first.signer is Some,
        second.signer is Some,
    ensures
        ({
            let id = state.next_collection_id;
            let created = state.create(first);
            let again = created.state.create(second);
            &&& !state.collections.contains_key(id)
            &&& created.result == Ok::<EventView, Error>(
                EventView::CollectionCreated { id, owner: first.signer->0 },
            )
            &&& created.state.owner_of(id) == first.signer
            &&& created.state.wf()
            &&& created.state.next_collection_id > id
            &&& again.result == Ok::<EventView, Error>(
                EventView::CollectionCreated {
                    id: created.state.next_collection_id,
                    owner: second.signer->0,
                },
            )
            &&& again.state.owner_of(id) == first.signer
            &&& again.state.wf()
            &&& forall|other: CollectionId|
                state.collections.contains_key(other) ==> again.state.owner_of(other)
                    == state.owner_of(other)
        }),
{
}

/// No operation brings a collection to the counter or above it: from a state
/// in which the counter is above every collection, every operation leads to
/// such a state again, however it ends.
pub proof fn lemma_counter_stays_above_collections(
    state: LedgerState,
    origin: Origin,
    operator: AccountId,
    approved: bool,
    from: AccountId,
    to: AccountId,
    id: CollectionId,
    amount: Amount,
    ids: Seq<CollectionId>,
    amounts: Seq<Amount>,
)
    requires
        state.wf(),
    ensures
        state.next_collection_id.has_next() ==> state.create(origin).state.wf(),
        state.set_approval_for_all(origin, operator, approved).state.wf(),
        state.safe_transfer_from(origin, from, to, id, amount).state.wf(),
        state.safe_batch_transfer_from(origin, from, to, ids, amounts).state.wf(),
        state.mint(origin, to, id, amount).state.wf(),
        state.mint_batch(origin, to, ids, amounts).state.wf(),
        state.burn(origin, id, amount).state.wf(),
        state.burn_batch(origin, ids, amounts).state.wf(),
{
}

/// No account can approve itself: the request is refused with
/// `InvalidOperator` and changes nothing, whatever the state and whether it
/// grants or revokes.
pub proof fn lemma_self_approval_is_refused(state: LedgerState, origin: Origin, approved: bool)
    requires
        origin.signer is Some,
    ensures
        state.set_approval_for_all(origin, origin.signer->0, approved) == state.refuse(
            Error::InvalidOperator,
        ),
{
}

/// Only the owner of a collection mints in it. Any other signer is refused
/// with `InvalidOwner` and changes nothing. The owner always succeeds: the
/// receiver then holds exactly the amount minted, no other entry changes, and
/// the event has the single shape, without a `from`.
pub proof fn lemma_only_owner_mints(
    state: LedgerState,
    origin: Origin,
    to: AccountId,
    id: CollectionId,
    amount: Amount,
)
    requires
        state.owner_of(id) is Some,
        origin.signer is Some,
    ensures
        origin.signer != state.owner_of(id) ==> state.mint(origin, to, id, amount) == state.refuse(
            Error::InvalidOwner,
        ),
        origin.signer == state.owner_of(id) ==> ({
            let minted = state.mint(origin, to, id, amount);
            &&& minted.result == Ok::<EventView, Error>(
                EventView::TransferSingle {
                    operator: origin.signer->0,
                    from: None,
                    to: Some(to),
                    id,
                    value: amount,
                },
            )
            &&& minted.state.balance_of(to, id) == amount
            &&& minted.state == (LedgerState {
                balances: state.balances.insert((id, to), amount),
                ..state
            })
        }),
{
    lemma_single_step_batch(state.balances, None, Some(to), id, amount);
}

/// Burning takes from what the signer holds. With an entry of at least the
/// amount, the balance goes down by the amount and nothing else changes. With
/// a smaller entry the burn is refused with `InsufficientBalance`, and without
/// an entry with `CollectionDoesNotExist`; a refused burn changes nothing.
pub proof fn lemma_burn_reduces_balance(
    state: LedgerState,
    origin: Origin,
    id: CollectionId,
    amount: Amount,
)
    requires
        origin.signer is Some,
    ensures
        ({
            let account = origin.signer->0;
            let held = state.balance_of(account, id);
            let burnt = state.burn(origin, id, amount);
            &&& !state.balances.contains_key((id, account)) ==> burnt == state.refuse(
                Error::CollectionDoesNotExist,
            )
            &&& state.balances.contains_key((id, account)) && amount > held ==> burnt
                == state.refuse(Error::InsufficientBalance)
            &&& state.balances.contains_key((id, account)) && amount <= held ==> {
                &&& burnt.result == Ok::<EventView, Error>(
                    EventView::TransferSingle {
                        operator: account,
                        from: Some(account),
                        to: None,
                        id,
                        value: amount,
                    },
                )
                &&& burnt.state.balance_of(account, id) == held - amount
                &&& burnt.state == (LedgerState {
                    balances: state.balances.insert((id, account), (held - amount) as Amount),
                    ..state
                })
            }
        }),
{
    let account = origin.signer->0;
    lemma_single_step_batch(state.balances, Some(account), None, id, amount);
}

/// A batch whose identifiers and amounts differ in number is refused with
/// `InvalidArrayLength` and changes nothing: by the engine, and so by a batch
/// transfer of a caller who may move the funds.
pub proof fn lemma_mismatched_batch_is_refused(
    state: LedgerState,
    origin: Origin,
    from: AccountId,
    to: AccountId,
    ids: Seq<CollectionId>,
    amounts: Seq<Amount>,
)
    requires
        ids.len() != amounts.len(),
        origin.signer is Some,
        origin.signer == Some(from) || state.is_approved_for_all(from, origin.signer->0),
    ensures
        state.update(origin.signer->0, Some(from), Some(to), ids, amounts) == state.refuse(
            Error::InvalidArrayLength,
        ),
        state.safe_batch_transfer_from(origin, from, to, ids, amounts) == state.refuse(
            Error::InvalidArrayLength,
        ),
{
}

/// The event of a batch that went through has the single shape for exactly one
/// identifier and the batch shape for any other number. A batch of no
/// identifiers always goes through, writes nothing, and has the batch shape
/// with empty sequences.
pub proof fn lemma_event_shape_follows_length(
    state: LedgerState,
    operator: AccountId,
    from: Option<AccountId>,
    to: Option<AccountId>,
    ids: Seq<CollectionId>,
    amounts: Seq<Amount>,
)
    requires
        ids.len() == amounts.len(),
    ensures
        ({
            let result = state.update(operator, from, to, ids, amounts).result;
            &&& result is Ok && ids.len() == 1 ==> result->Ok_0 == (EventView::TransferSingle {
                operator,
                from,
                to,
                id: ids[0],
                value: amounts[0],
            })
            &&& result is Ok && ids.len() != 1 ==> result->Ok_0 == (EventView::TransferBatch {
                operator,
                from,
                to,
                ids,
                values: amounts,
            })
            &&& ids.len() == 0 ==> state.update(operator, from, to, ids, amounts).state == state
                && result == Ok::<EventView, Error>(
                EventView::TransferBatch {
                    operator,
                    from,
                    to,
                    ids: Seq::<CollectionId>::empty(),
                    values: Seq::<Amount>::empty(),
                },
            )
        }),
{
    if ids.len() == 0 {
        assert(ids =~= Seq::<CollectionId>::empty());
        assert(amounts =~= Seq::<Amount>::empty());
    }
}

/// A caller who is neither the account debited nor approved by it is refused
/// a batch transfer with `InsufficientApprovalForAll`, and nothing changes.
/// Once the account has approved the caller, the same call is let through to
/// the engine, which applies the batch on the caller's behalf: it ends as
/// the batch itself ends on the balances, which the approval did not touch.
pub proof fn lemma_approval_opens_batch_transfer(
    state: LedgerState,
    owner: Origin,
    caller: Origin,
    to: AccountId,
    ids: Seq<CollectionId>,
    amounts: Seq<Amount>,
)
    requires
        owner.signer is Some,
        caller.signer is Some,
        caller.signer != owner.signer,
        !state.is_approved_for_all(owner.signer->0, caller.signer->0),
    ensures
        ({
            let from = owner.signer->0;
            let operator = caller.signer->0;
            let approval = state.set_approval_for_all(owner, operator, true);
            &&& state.safe_batch_transfer_from(caller, from, to, ids, amounts) == state.refuse(
                Error::InsufficientApprovalForAll,
            )
            &&& approval.result == Ok::<EventView, Error>(
                EventView::ApprovalForAll { account: from, operator, approved: true },
            )
            &&& approval.state.is_approved_for_all(from, operator)
            &&& approval.state.balances == state.balances
            &&& approval.state.safe_batch_transfer_from(caller, from, to, ids, amounts)
                == approval.state.update(operator, Some(from), Some(to), ids, amounts)
            &&& approval.state.safe_batch_transfer_from(caller, from, to, ids, amounts).result
                == state.update(operator, Some(from), Some(to), ids, amounts).result
        }),
{
}

} // verus!
