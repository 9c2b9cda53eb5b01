//! Which sequence an account uses next.
use vstd::prelude::*;
use crate::ids::AccountID;
use crate::ord_map::OrdMap;
use crate::queue::clear_ahead::RecordedTx;
use crate::queue::sandbox::OpenHeader;

verus! {

/// The next sequence of each account that has transactions in the open ledger, and the state that
/// submitted transactions are tried on.
pub struct OpenLedgerSeqs {
    pub next: OrdMap<AccountID, u32>,
    pub sandbox: Option<OpenHeader>,
}

pub open spec fn sequence_after(seq: u32) -> u32 {
    if seq < u32::MAX {
        (seq + 1) as u32
    } else {
        seq
    }
}

/// The map once a transaction of the account has gone into the open ledger: a sequence never goes
/// back.
pub open spec fn noted(seqs: Map<AccountID, u32>, account: AccountID, tx_seq: u32) -> Map<AccountID, u32> {
    let next = sequence_after(tx_seq);
    seqs.insert(
        account,
        if seqs.contains_key(account) && seqs[account] > next {
            seqs[account]
        } else {
            next
        },
    )
}

/// The map once all of these have gone into the open ledger, one after the other. A ticket counts by
/// its number, as a sequence does.
pub open spec fn noted_all(seqs: Map<AccountID, u32>, recorded: Seq<RecordedTx>) -> Map<AccountID, u32>
    decreases recorded.len(),
{
    if recorded.len() == 0 {
        seqs
    } else {
        noted(
            noted_all(seqs, recorded.drop_last()),
            recorded.last().account,
            recorded.last().seq_proxy.spec_value(),
        )
    }
}

impl OpenLedgerSeqs {
    /// Nothing is in the open ledger.
    pub fn new() -> (r: OpenLedgerSeqs)
        ensures
            r.next.wf(),
            r.next@ == Map::<AccountID, u32>::empty(),
            r.sandbox is None,
    {
        OpenLedgerSeqs { next: OrdMap::new(), sandbox: None }
    }

    /// A transaction of the account has gone into the open ledger.
    pub fn note_open_ledger_tx(&mut self, account: AccountID, tx_seq: u32)
        requires
            old(self).next.wf(),
        ensures
            final(self).next.wf(),
            final(self).next@ == noted(old(self).next@, account, tx_seq),
            final(self).sandbox == old(self).sandbox,
    {
        let next: u32 = tx_seq.saturating_add(1);
        let kept: u32 = self.next.get_or(account, next);
        self.next.insert(
            account,
            if next > kept {
                next
            } else {
                kept
            },
        );
    }

    /// A transaction that was paid for, or that paid, has gone into the open ledger.
    pub fn record_clear_ahead_open_ledger_tx(&mut self, tx: &RecordedTx)
        requires
            old(self).next.wf(),
        ensures
            final(self).next.wf(),
            final(self).next@ == noted(old(self).next@, tx.account, tx.seq_proxy.spec_value()),
            final(self).sandbox == old(self).sandbox,
    {
        self.note_open_ledger_tx(tx.account, tx.seq_proxy.value());
    }

    /// All that one transaction paid for, and it itself, have gone into the open ledger.
    pub fn record_cleared(&mut self, recorded: &Vec<RecordedTx>)
        requires
            old(self).next.wf(),
        ensures
            final(self).next.wf(),
            final(self).next@ == noted_all(old(self).next@, recorded@),
            final(self).sandbox == old(self).sandbox,
    {
        let ghost all = recorded@;
        let ghost before = self.next@;
        let ghost sandbox = self.sandbox;
        let mut i: usize = 0;
        proof {
            assert(all.take(0).len() == 0);
        }
        while i < recorded.len()
            invariant
                all == recorded@,
                i <= all.len(),
                self.next.wf(),
                self.next@ == noted_all(before, all.take(i as int)),
                self.sandbox == sandbox,
            decreases all.len() - i,
        {
            proof {
                assert(all.take(i as int + 1).drop_last() =~= all.take(i as int));
            }
            self.record_clear_ahead_open_ledger_tx(&recorded[i]);
            i = i + 1;
        }
        proof {
            assert(all.take(i as int) =~= all);
        }
    }

    /// The ledger has closed: everything starts anew.
    pub fn clear_open_ledger_account_seqs(&mut self)
        ensures
            final(self).next.wf(),
            final(self).next@ == Map::<AccountID, u32>::empty(),
            final(self).sandbox is None,
    {
        self.next = OrdMap::new();
        self.sandbox = None;
    }

    /// The next sequence of an account: what the open ledger says, or else the latest ledger.
    pub fn network_ops_current_account_seq(&self, account: AccountID, in_latest_ledger: Option<u32>) -> (r: Option<
        u32,
    >)
        requires
            self.next.wf(),
        ensures
            r == (if self.next@.contains_key(account) {
                Some(self.next@[account])
            } else {
                in_latest_ledger
            }),
    {
        match self.next.get(account) {
            Some(seq) => Some(seq),
            None => in_latest_ledger,
        }
    }
}

/// What the queue says of the sequences of an account.
#[derive(Clone, Copy, Debug, PartialEq, Eq, Structural)]
pub struct QueueSeqs {
    /// The ledger could not be read.
    pub failed: bool,
    pub account_seq: u32,
    pub available_seq: u32,
}

pub open spec fn usable(seqs: QueueSeqs) -> Option<u32> {
    if seqs.failed || seqs.account_seq == 0 {
        None
    } else {
        Some(seqs.available_seq)
    }
}

fn next_usable(seqs: QueueSeqs) -> (r: Option<u32>)
    ensures
        r == usable(seqs),
{
    if seqs.failed {
        return None;
    }
    if seqs.account_seq != 0 {
        Some(seqs.available_seq)
    } else {
        None
    }
}

/// The next sequence that the open ledger takes of an account: in the state that submitted
/// transactions are tried on, or, before there is one, in the latest ledger.
pub fn network_ops_next_account_seq_for_tx(
    in_sandbox: Option<QueueSeqs>,
    in_latest_ledger: Option<QueueSeqs>,
) -> (r: Option<u32>)
    ensures
        r == (match in_sandbox {
            Some(seqs) => usable(seqs),
            None => match in_latest_ledger {
                Some(seqs) => usable(seqs),
                None => None,
            },
        }),
{
    match in_sandbox {
        Some(seqs) => next_usable(seqs),
        None => match in_latest_ledger {
            Some(seqs) => next_usable(seqs),
            None => None,
        },
    }
}

/// The next sequence of an account never goes back, whatever order its transactions come in, and
/// no other account is touched.
pub proof fn sequences_only_grow(seqs: Map<AccountID, u32>, account: AccountID, tx_seq: u32, other: AccountID)
    ensures
        seqs.contains_key(account) ==> noted(seqs, account, tx_seq)[account] >= seqs[account],
        noted(seqs, account, tx_seq)[account] >= tx_seq,
        other != account && seqs.contains_key(other) ==> noted(seqs, account, tx_seq)[other]
            == seqs[other],
{
}

/// Every transaction that went into the open ledger moves its account beyond itself, unless the
/// sequences have run out; no sequence goes back, and no account is touched that has none there.
pub proof fn every_recorded_transaction_counts(
    seqs: Map<AccountID, u32>,
    recorded: Seq<RecordedTx>,
    account: AccountID,
)
    ensures
        ({
            let after = noted_all(seqs, recorded);
            &&& seqs.contains_key(account) ==> after.contains_key(account) && after[account]
                >= seqs[account]
            &&& forall|i: int|
                0 <= i < recorded.len() && (#[trigger] recorded[i]).account == account
                    ==> after.contains_key(account) && after[account] >= sequence_after(
                    recorded[i].seq_proxy.spec_value(),
                )
            &&& (forall|i: int|
                0 <= i < recorded.len() ==> (#[trigger] recorded[i]).account != account)
                ==> after.contains_key(account) == seqs.contains_key(account) && after[account]
                == seqs[account]
        }),
    decreases recorded.len(),
{
    if recorded.len() > 0 {
        let earlier = recorded.drop_last();
        every_recorded_transaction_counts(seqs, earlier, account);
        assert forall|i: int|
            0 <= i < recorded.len() && (#[trigger] recorded[i]).account == account implies noted_all(
            seqs,
            recorded,
        ).contains_key(account) && noted_all(seqs, recorded)[account] >= sequence_after(
            recorded[i].seq_proxy.spec_value(),
        ) by {
            if i < earlier.len() {
                assert(earlier[i] == recorded[i]);
            }
        }
        if forall|i: int|
            0 <= i < recorded.len() ==> (#[trigger] recorded[i]).account != account {
            assert forall|i: int| 0 <= i < earlier.len() implies (#[trigger] earlier[i]).account
                != account by {
                assert(earlier[i] == recorded[i]);
            }
            assert(recorded[recorded.len() - 1].account != account);
        }
    }
}

/// Two transactions of an account leave the same sequence behind in either order.
pub proof fn order_of_transactions_does_not_matter(
    seqs: Map<AccountID, u32>,
    account: AccountID,
    a: u32,
    b: u32,
)
    ensures
        noted(noted(seqs, account, a), account, b) == noted(noted(seqs, account, b), account, a),
{
    assert(noted(noted(seqs, account, a), account, b) =~= noted(
        noted(seqs, account, b),
        account,
        a,
    ));
}

} // verus!
