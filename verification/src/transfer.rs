//! The transfer engine: batches of debits and credits on the balances.

use vstd::prelude::*;
use crate::balances::BalanceLedger;
use crate::model;
use crate::model::{apply_one, apply_prefix, transfer_event, BalanceMap, BatchOutcome};
use crate::types::{result_view, AccountId, Amount, CollectionId, Error, Event, EventView};

verus! {

/// Once a batch has stopped, it stays where it stopped.
proof fn lemma_stopped_batch_stays(
    balances: BalanceMap,
    from: Option<AccountId>,
    to: Option<AccountId>,
    ids: Seq<CollectionId>,
    amounts: Seq<Amount>,
    n: nat,
    m: nat,
)
    requires
        n <= m,
        apply_prefix(balances, from, to, ids, amounts, n).error is Some,
    ensures
        apply_prefix(balances, from, to, ids, amounts, m) == apply_prefix(
            balances,
            from,
            to,
            ids,
            amounts,
            n,
        ),
    decreases m,
{
    if n < m {
        lemma_stopped_batch_stays(balances, from, to, ids, amounts, n, (m - 1) as nat);
    }
}

/// Applies a batch to `ledger` on behalf of `operator`: for each position in
/// order, debits `from`, if there is one, and then credits `to`, if there is
/// one. Without `from` the tokens are minted, without `to` they are burnt,
/// and without either nothing is written.
///
/// The batch stops at the first debit that fails and returns its error; what
/// the positions before it wrote stays written. A batch whose two vectors
/// differ in length is refused with `InvalidArrayLength` before anything is
/// written. A batch that went through returns the event that describes it:
/// of the single shape for exactly one position, of the batch shape
/// otherwise.
///
/// The engine does not ask who `operator` is or what it may do.
pub fn apply_batch(
    ledger: &mut BalanceLedger,
    operator: AccountId,
    from: Option<AccountId>,
    to: Option<AccountId>,
    ids: Vec<CollectionId>,
    amounts: Vec<Amount>,
) -> (r: Result<Event, Error>)
    ensures
        ids@.len() != amounts@.len() ==> r == Err::<Event, Error>(Error::InvalidArrayLength)
            && final(ledger)@ == old(ledger)@,
        ids@.len() == amounts@.len() ==> ({
            let batch = model::apply_batch(old(ledger)@, from, to, ids@, amounts@);
            &&& final(ledger)@ == batch.balances
            &&& result_view(r) == match batch.error {
                Some(error) => Err::<EventView, Error>(error),
                None => Ok(transfer_event(operator, from, to, ids@, amounts@)),
            }
        }),
{
    if ids.len() != amounts.len() {
        return Err(Error::InvalidArrayLength);
    }
    let ghost start = ledger@;
    let mut i: usize = 0;
    while i < ids.len()
        invariant
            i <= ids.len(),
            ids.len() == amounts.len(),
            start == old(ledger)@,
            apply_prefix(start, from, to, ids@, amounts@, i as nat) == (BatchOutcome {
                balances: ledger@,
                error: None,
            }),
        decreases ids.len() - i,
    {
        let id = ids[i];
        let amount = amounts[i];
        let ghost before = ledger@;
        if let Some(account) = from {
            match ledger.debit(id, account, amount) {
                Ok(()) => {},
                Err(error) => {
                    proof {
                        assert(apply_one(before, from, to, id, amount) == Err::<BalanceMap, Error>(
                            error,
                        ));
                        lemma_stopped_batch_stays(
                            start,
                            from,
                            to,
                            ids@,
                            amounts@,
                            (i + 1) as nat,
                            ids@.len(),
                        );
                    }
                    return Err(error);
                },
            }
        }
        if let Some(account) = to {
            ledger.credit(id, account, amount);
        }
        assert(apply_one(before, from, to, id, amount) == Ok::<BalanceMap, Error>(ledger@));
        i += 1;
    }
    if ids.len() == 1 {
        Ok(Event::TransferSingle { operator, from, to, id: ids[0], value: amounts[0] })
    } else {
        Ok(Event::TransferBatch { operator, from, to, ids, values: amounts })
    }
}

} // verus!
