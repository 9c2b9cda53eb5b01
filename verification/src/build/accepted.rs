//! The transactions that a new ledger holds, and their places in it.
use vstd::prelude::*;
use crate::ids::{Uint256, ViewError};
use crate::submit::batch::AppliedBatchInnerTransaction;
use crate::submit::outcome::{SubmitApplyOutcome, SubmitOutcomeView};
use crate::ter::Ter;

verus! {

/// A transaction that the new ledger holds.
#[derive(Clone, Copy, Debug, PartialEq, Eq, Structural)]
pub struct AcceptedEntry {
    pub transaction_id: Uint256,
    pub result: Ter,
    /// Its place among the transactions of the ledger.
    pub index: u32,
}

/// Every entry carries its own place, counted from zero.
pub open spec fn in_place(entries: Seq<AcceptedEntry>) -> bool {
    forall|i: int| 0 <= i < entries.len() ==> (#[trigger] entries[i]).index == i as u32
}

/// The entries with one more behind them.
pub open spec fn with_entry(entries: Seq<AcceptedEntry>, transaction_id: Uint256, result: Ter) -> Seq<
    AcceptedEntry,
> {
    entries.push(AcceptedEntry { transaction_id, result, index: entries.len() as u32 })
}

/// The entries with the transactions of a batch behind them, in their order.
pub open spec fn with_inner(entries: Seq<AcceptedEntry>, inner: Seq<AppliedBatchInnerTransaction>) -> Seq<
    AcceptedEntry,
>
    decreases inner.len(),
{
    if inner.len() == 0 {
        entries
    } else {
        let before = with_inner(entries, inner.drop_last());
        with_entry(before, inner.last().transaction_id, inner.last().result)
    }
}

/// Puts one more transaction behind those that the ledger holds.
pub fn push_entry(entries: &mut Vec<AcceptedEntry>, transaction_id: Uint256, result: Ter) -> (index: u32)
    ensures
        final(entries)@ == with_entry(old(entries)@, transaction_id, result),
        index == old(entries)@.len() as u32,
        in_place(old(entries)@) ==> in_place(final(entries)@),
{
    let index: u32 = entries.len() as u32;
    entries.push(AcceptedEntry { transaction_id, result, index });
    index
}

/// Puts the transactions of a batch behind those that the ledger holds.
pub fn stage_accepted_batch_inner_transactions(
    accepted_entries: &mut Vec<AcceptedEntry>,
    inner_transactions: &Vec<AppliedBatchInnerTransaction>,
)
    ensures
        final(accepted_entries)@ == with_inner(old(accepted_entries)@, inner_transactions@),
        in_place(old(accepted_entries)@) ==> in_place(final(accepted_entries)@),
{
    let ghost before = accepted_entries@;
    let ghost all = inner_transactions@;
    let mut i: usize = 0;
    proof {
        assert(all.take(0).len() == 0);
    }
    while i < inner_transactions.len()
        invariant
            all == inner_transactions@,
            i <= all.len(),
            accepted_entries@ == with_inner(before, all.take(i as int)),
            in_place(before) ==> in_place(accepted_entries@),
        decreases all.len() - i,
    {
        let inner = inner_transactions[i];
        proof {
            assert(all.take(i as int + 1).drop_last() =~= all.take(i as int));
        }
        push_entry(accepted_entries, inner.transaction_id, inner.result);
        i = i + 1;
    }
    proof {
        assert(all.take(i as int) =~= all);
    }
}

/// The transactions of a batch stand one after the other behind those that were there, each as
/// it was given, and nothing that was there moves.
pub proof fn inner_transactions_follow_in_order(
    entries: Seq<AcceptedEntry>,
    inner: Seq<AppliedBatchInnerTransaction>,
)
    ensures
        with_inner(entries, inner).len() == entries.len() + inner.len(),
        forall|i: int|
            0 <= i < entries.len() ==> #[trigger] with_inner(entries, inner)[i] == entries[i],
        forall|i: int|
            #![trigger inner[i]]
            0 <= i < inner.len() ==> with_inner(entries, inner)[entries.len() + i] == (AcceptedEntry {
                transaction_id: inner[i].transaction_id,
                result: inner[i].result,
                index: (entries.len() + i) as u32,
            }),
    decreases inner.len(),
{
    if inner.len() > 0 {
        inner_transactions_follow_in_order(entries, inner.drop_last());
        assert forall|i: int| 0 <= i < inner.len() implies with_inner(entries, inner)[entries.len()
            + i] == (AcceptedEntry {
            transaction_id: (#[trigger] inner[i]).transaction_id,
            result: inner[i].result,
            index: (entries.len() + i) as u32,
        }) by {
            if i < inner.len() - 1 {
                assert(inner.drop_last()[i] == inner[i]);
            }
        }
        assert forall|i: int| 0 <= i < entries.len() implies #[trigger] with_inner(entries, inner)[i]
            == entries[i] by {
            assert(with_inner(entries, inner.drop_last())[i] == entries[i]);
        }
    }
}

/// Why a ledger could not be built.
#[derive(Clone, Copy, Debug, PartialEq, Eq, Structural)]
pub enum BuildError {
    /// The transactions of the parent could not be read.
    ParentUnreadable { transaction_id: Uint256, error: ViewError },
    /// The effects of a batch could not be kept.
    BatchCommit { transaction_id: Uint256, error: ViewError },
    /// The effects of a transaction could not be written down.
    Metadata { transaction_id: Uint256, error: ViewError },
    /// The effects of all transactions together could not be kept.
    StateCommit { error: ViewError },
    /// A transaction could not be put into the ledger.
    Insert { transaction_id: Uint256, error: ViewError },
    /// The ledger was to be stored, and nothing stores single nodes.
    MissingNodeWriter,
    /// The ledger was to be stored, and nothing stores many nodes at once.
    MissingNodeBatchWriter,
    /// The ledger could not be stored.
    Persist { error: ViewError },
}

/// What a transaction came to once it was applied to the ledger being built.
pub struct AppliedRun {
    pub result: Ter,
    pub applied: bool,
    /// Its effects were written down already, together with those of the batch it is.
    pub prebuilt: bool,
    /// Keeping its effects, and writing them down where that was still to be done.
    pub commit: Result<(), ViewError>,
    /// What was delivered, by the number under which the caller keeps the amount.
    pub delivered: Option<u64>,
    /// The parts of it that were applied, where it is a batch.
    pub inner: Vec<AppliedBatchInnerTransaction>,
}

impl AppliedRun {
    /// What applying the transaction came to is taken over as it is.
    pub open spec fn is_of(self, outcome: SubmitOutcomeView, commit: Result<(), ViewError>) -> bool {
        &&& self.result == outcome.result
        &&& self.applied == outcome.applied
        &&& self.prebuilt == outcome.prebuilt_outer_metadata
        &&& self.inner@ == outcome.applied_batch_inner_transactions
        &&& self.delivered == outcome.delivered_amount
        &&& self.commit == commit
    }

    /// What applying the transaction came to, and whether its effects could be kept.
    pub fn of(outcome: SubmitApplyOutcome, commit: Result<(), ViewError>) -> (r: AppliedRun)
        ensures
            r.is_of(outcome@, commit),
    {
        AppliedRun {
            result: outcome.result,
            applied: outcome.applied,
            prebuilt: outcome.prebuilt_outer_metadata,
            commit,
            delivered: outcome.delivered_amount,
            inner: outcome.applied_batch_inner_transactions,
        }
    }

    /// Why its effects could not be kept.
    pub open spec fn commit_fault(self, transaction_id: Uint256) -> Option<BuildError> {
        match self.commit {
            Ok(_) => None,
            Err(error) => Some(
                if self.prebuilt {
                    BuildError::BatchCommit { transaction_id, error }
                } else {
                    BuildError::Metadata { transaction_id, error }
                },
            ),
        }
    }

    /// Why its effects could not be kept.
    pub fn commit_error(&self, transaction_id: Uint256) -> (r: Option<BuildError>)
        ensures
            r == self.commit_fault(transaction_id),
    {
        match self.commit {
            Ok(_) => None,
            Err(error) => Some(
                if self.prebuilt {
                    BuildError::BatchCommit { transaction_id, error }
                } else {
                    BuildError::Metadata { transaction_id, error }
                },
            ),
        }
    }
}

} // verus!
