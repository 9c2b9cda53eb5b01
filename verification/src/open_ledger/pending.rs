//! Applying what waits to the open ledger.
use vstd::prelude::*;
use crate::ids::{AccountID, Uint256};
use crate::queue::clear_ahead::ApplyResult;
use crate::queue::sandbox::BaseHeader;
use crate::submit::flags::ApplyFlags;
use crate::ter::Ter;

verus! {

pub open spec fn spec_current_index(live: Option<u32>, base_seq: u32) -> u32 {
    match live {
        Some(index) => index,
        None => if base_seq < u32::MAX {
            (base_seq + 1) as u32
        } else {
            base_seq
        },
    }
}

/// The sequence of the open ledger; without one, that of the ledger after the base. Without a
/// base there is nothing to apply to.
pub fn pending_ledger_index(base_seq: Option<u32>, live: Option<u32>) -> (r: Option<u32>)
    ensures
        r == (match base_seq {
            Some(seq) => Some(spec_current_index(live, seq)),
            None => None,
        }),
{
    match base_seq {
        None => None,
        Some(seq) => match live {
            Some(index) => Some(index),
            None => {
                let next: u32 = seq.saturating_add(1);
                Some(
                    if next < 1 {
                        1
                    } else {
                        next
                    },
                )
            },
        },
    }
}

/// The sequence of the open ledger, where it has one.
pub fn live_current_ledger_index(ledger_current_index: u32) -> (r: Option<u32>)
    ensures
        r == (if ledger_current_index != 0 {
            Some(ledger_current_index)
        } else {
            None
        }),
{
    if ledger_current_index != 0 {
        Some(ledger_current_index)
    } else {
        None
    }
}

/// A transaction that waits to be applied.
#[derive(Clone, Copy, Debug, PartialEq, Eq, Structural)]
pub struct PendingEntry {
    pub id: Uint256,
    pub account: AccountID,
    /// It comes from a privileged source.
    pub admin: bool,
    /// A claimed fee is as good as a failure.
    pub fail_hard: bool,
    pub result: Option<Ter>,
    pub applied: bool,
}

/// What is answered for one transaction: how it is applied, and what the queue makes of it.
#[derive(Clone, Copy, Debug, PartialEq, Eq, Structural)]
pub struct PendingAnswer {
    pub flags: ApplyFlags,
    pub result: ApplyResult,
}

/// One thing that is asked for while what waits is applied.
#[derive(Clone, Copy, Debug, PartialEq, Eq, Structural)]
pub enum PendingCall {
    /// Take the state that submitted transactions are tried on, for this ledger.
    TakeSandbox { base: BaseHeader },
    /// What waits of this account.
    AccountQueue { account: AccountID },
    /// How a transaction is applied.
    Flags { admin: bool, fail_hard: bool },
    /// Hand a transaction to the queue, which applies it or keeps it.
    ApplyByQueue { id: Uint256, flags: ApplyFlags, ledger_index: u32 },
    /// Hand to the queue what came of those that the transaction paid for.
    ClearedAhead { account: AccountID, id: Uint256 },
    /// Give the state back.
    GiveBackSandbox,
}

/// What is asked for with one transaction.
pub open spec fn entry_calls(entry: PendingEntry, answer: PendingAnswer, ledger_index: u32) -> Seq<
    PendingCall,
> {
    seq![
        PendingCall::AccountQueue { account: entry.account },
        PendingCall::Flags { admin: entry.admin, fail_hard: entry.fail_hard },
        PendingCall::ApplyByQueue { id: entry.id, flags: answer.flags, ledger_index },
        PendingCall::ClearedAhead { account: entry.account, id: entry.id },
    ]
}

/// What is asked for with the first `n` transactions, one after the other.
pub open spec fn calls_among(
    entries: Seq<PendingEntry>,
    answers: Seq<PendingAnswer>,
    ledger_index: u32,
    n: int,
) -> Seq<PendingCall>
    decreases n,
{
    if n <= 0 {
        Seq::empty()
    } else {
        calls_among(entries, answers, ledger_index, n - 1) + entry_calls(
            entries[n - 1],
            answers[n - 1],
            ledger_index,
        )
    }
}

/// All that is asked for, in order.
pub open spec fn round_calls(
    base: BaseHeader,
    entries: Seq<PendingEntry>,
    answers: Seq<PendingAnswer>,
    ledger_index: u32,
) -> Seq<PendingCall> {
    seq![PendingCall::TakeSandbox { base }] + calls_among(
        entries,
        answers,
        ledger_index,
        entries.len() as int,
    ) + seq![PendingCall::GiveBackSandbox]
}

/// A transaction with what it came to.
pub open spec fn noted(entry: PendingEntry, answer: PendingAnswer) -> PendingEntry {
    PendingEntry { result: Some(answer.result.ter), applied: answer.result.applied, ..entry }
}

pub open spec fn any_applied(answers: Seq<PendingAnswer>) -> bool {
    exists|i: int| 0 <= i < answers.len() && (#[trigger] answers[i]).result.applied
}

/// Hands each transaction to the queue, enters what it came to, and tells whether the open ledger
/// has changed. What is asked for on the way is added to the calls.
pub fn apply_entries(
    entries: &mut Vec<PendingEntry>,
    answers: &Vec<PendingAnswer>,
    ledger_index: u32,
    calls: &mut Vec<PendingCall>,
) -> (changed: bool)
    requires
        old(entries)@.len() == answers@.len(),
    ensures
        final(entries)@ == Seq::new(
            answers@.len(),
            |i: int| noted(old(entries)@[i], answers@[i]),
        ),
        changed == any_applied(answers@),
        final(calls)@ == old(calls)@ + calls_among(
            old(entries)@,
            answers@,
            ledger_index,
            answers@.len() as int,
        ),
{
    let ghost all = entries@;
    let ghost start = calls@;
    let mut changed = false;
    let mut i: usize = 0;
    proof {
        assert(calls@ =~= start + calls_among(all, answers@, ledger_index, 0));
    }
    while i < answers.len()
        invariant
            i <= answers@.len(),
            all.len() == answers@.len(),
            entries@.len() == answers@.len(),
            forall|j: int| 0 <= j < i ==> (#[trigger] entries@[j]) == noted(all[j], answers@[j]),
            forall|j: int| i <= j < all.len() ==> (#[trigger] entries@[j]) == all[j],
            changed == exists|j: int| 0 <= j < i && (#[trigger] answers@[j]).result.applied,
            calls@ == start + calls_among(all, answers@, ledger_index, i as int),
        decreases answers@.len() - i,
    {
        let answer = answers[i];
        let mut entry = entries[i];
        calls.push(PendingCall::AccountQueue { account: entry.account });
        calls.push(PendingCall::Flags { admin: entry.admin, fail_hard: entry.fail_hard });
        calls.push(
            PendingCall::ApplyByQueue { id: entry.id, flags: answer.flags, ledger_index },
        );
        calls.push(PendingCall::ClearedAhead { account: entry.account, id: entry.id });
        entry.result = Some(answer.result.ter);
        entry.applied = answer.result.applied;
        entries.set(i, entry);
        if answer.result.applied {
            changed = true;
            assert(answers@[i as int].result.applied);
        }
        i = i + 1;
        proof {
            assert(calls@ =~= start + calls_among(all, answers@, ledger_index, i as int));
        }
    }
    proof {
        assert(entries@ =~= Seq::new(answers@.len(), |i: int| noted(all[i], answers@[i])));
    }
    changed
}

/// One round of applying what waits.
#[derive(Clone, Copy, Debug, PartialEq, Eq, Structural)]
pub struct PendingRound {
    /// The sequence of the ledger that was applied to.
    pub ledger_index: u32,
    /// The open ledger has changed.
    pub changed: bool,
}

/// The ledger that what waits is applied on top of.
#[derive(Clone, Copy, Debug, PartialEq, Eq, Structural)]
pub struct PendingBase {
    pub seq: u32,
    pub header: BaseHeader,
}

/// Applies what waits to the open ledger on top of a base, and enters what each transaction came
/// to. Without a base nothing is applied. What is asked for on the way is added to the calls.
pub fn apply_network_ops_pending_to_open_ledger(
    base: Option<PendingBase>,
    live: Option<u32>,
    entries: &mut Vec<PendingEntry>,
    answers: &Vec<PendingAnswer>,
    calls: &mut Vec<PendingCall>,
) -> (r: Option<PendingRound>)
    requires
        base is Some ==> old(entries)@.len() == answers@.len(),
    ensures
        match base {
            None => r is None && final(entries)@ == old(entries)@ && final(calls)@ == old(calls)@,
            Some(base) => {
                let ledger_index = spec_current_index(live, base.seq);
                &&& r == Some(PendingRound { ledger_index, changed: any_applied(answers@) })
                &&& final(entries)@ == Seq::new(
                    answers@.len(),
                    |i: int| noted(old(entries)@[i], answers@[i]),
                )
                &&& final(calls)@ == old(calls)@ + round_calls(
                    base.header,
                    old(entries)@,
                    answers@,
                    ledger_index,
                )
            },
        },
{
    let base = match base {
        Some(base) => base,
        None => {
            return None;
        },
    };
    let ledger_index: u32 = match pending_ledger_index(Some(base.seq), live) {
        Some(index) => index,
        None => {
            return None;
        },
    };
    calls.push(PendingCall::TakeSandbox { base: base.header });
    let changed = apply_entries(entries, answers, ledger_index, calls);
    calls.push(PendingCall::GiveBackSandbox);
    assert(calls@ =~= old(calls)@ + round_calls(
        base.header,
        old(entries)@,
        answers@,
        ledger_index,
    ));
    Some(PendingRound { ledger_index, changed })
}

proof fn calls_among_reach(
    entries: Seq<PendingEntry>,
    answers: Seq<PendingAnswer>,
    ledger_index: u32,
    n: int,
    i: int,
)
    requires
        0 <= i < n,
    ensures
        calls_among(entries, answers, ledger_index, n).len() == 4 * n,
        calls_among(entries, answers, ledger_index, n)[4 * i + 2] == (PendingCall::ApplyByQueue {
            id: entries[i].id,
            flags: answers[i].flags,
            ledger_index,
        }),
        calls_among(entries, answers, ledger_index, n)[4 * i + 1] == (PendingCall::Flags {
            admin: entries[i].admin,
            fail_hard: entries[i].fail_hard,
        }),
    decreases n,
{
    if n > 1 {
        if i < n - 1 {
            calls_among_reach(entries, answers, ledger_index, n - 1, i);
        } else {
            calls_among_reach(entries, answers, ledger_index, n - 1, 0);
        }
    } else {
        assert(calls_among(entries, answers, ledger_index, 0).len() == 0);
    }
}

/// Whatever waits is handed to the queue, each transaction once, in the order in which it waits,
/// under its own conditions and for the same ledger.
pub proof fn everything_that_waits_is_handed_over(
    base: BaseHeader,
    entries: Seq<PendingEntry>,
    answers: Seq<PendingAnswer>,
    ledger_index: u32,
    i: int,
)
    requires
        entries.len() == answers.len(),
        0 <= i < entries.len(),
    ensures
        ({
            let calls = round_calls(base, entries, answers, ledger_index);
            &&& calls.len() == 4 * entries.len() + 2
            &&& calls[0] == (PendingCall::TakeSandbox { base })
            &&& calls[4 * i + 2] == (PendingCall::Flags {
                admin: entries[i].admin,
                fail_hard: entries[i].fail_hard,
            })
            &&& calls[4 * i + 3] == (PendingCall::ApplyByQueue {
                id: entries[i].id,
                flags: answers[i].flags,
                ledger_index,
            })
        }),
{
    calls_among_reach(entries, answers, ledger_index, entries.len() as int, i);
}

/// What the ledger asks of a transaction.
#[derive(Clone, Copy, Debug, PartialEq, Eq, Structural)]
pub struct CurrentLedgerState {
    pub fee_drops: i64,
    pub account_seq: u32,
    pub available_seq: u32,
}

/// What the ledger asks of a transaction; where it cannot be read, a fee that nobody pays.
pub fn current_ledger_state(
    failed: bool,
    required_fee_drops: i64,
    account_seq: u32,
    available_seq: u32,
) -> (r: CurrentLedgerState)
    ensures
        r == (if failed {
            CurrentLedgerState { fee_drops: i64::MAX, account_seq: 0, available_seq: 0 }
        } else {
            CurrentLedgerState { fee_drops: required_fee_drops, account_seq, available_seq }
        }),
{
    if failed {
        CurrentLedgerState { fee_drops: i64::MAX, account_seq: 0, available_seq: 0 }
    } else {
        CurrentLedgerState { fee_drops: required_fee_drops, account_seq, available_seq }
    }
}

/// What is done after one round of applying what waits.
#[derive(Clone, Copy, Debug, PartialEq, Eq, Structural)]
pub enum BatchStep {
    /// Nothing waits any more.
    Done,
    /// What waits is applied.
    Apply,
    /// It could not be applied: the work is scheduled anew, because it broke off.
    Reschedule,
    /// It could not be applied: the work is given back, to be scheduled by somebody else.
    Release,
    /// It could not be applied, and there is nobody to give it back to.
    Abandon,
}

/// Whether there is a next round. The rounds go on while something waits.
pub fn next_batch_round(pending: usize) -> (r: BatchStep)
    ensures
        r == (if pending != 0 {
            BatchStep::Apply
        } else {
            BatchStep::Done
        }),
{
    if pending != 0 {
        BatchStep::Apply
    } else {
        BatchStep::Done
    }
}

/// What is done when a round could not be applied; no other round follows.
pub fn after_failed_round(has_runtime: bool, panicked: bool) -> (r: BatchStep)
    ensures
        r == (if !has_runtime {
            BatchStep::Abandon
        } else if panicked {
            BatchStep::Reschedule
        } else {
            BatchStep::Release
        }),
{
    if !has_runtime {
        BatchStep::Abandon
    } else if panicked {
        BatchStep::Reschedule
    } else {
        BatchStep::Release
    }
}

} // verus!
