//! What holds of every open ledger.
use vstd::prelude::*;
use crate::ids::{AccountID, Uint256, ViewError};
use crate::open_ledger::pending::{
    BatchStep, CurrentLedgerState, PendingAnswer, PendingCall, PendingEntry, after_failed_round,
    any_applied, current_ledger_state, entry_calls, live_current_ledger_index, next_batch_round,
    noted as entered, pending_ledger_index, round_calls, spec_current_index,
};
use crate::open_ledger::reapply::{Reapplied, ReapplyAttempt, Recovery, left_out};
use crate::open_ledger::rebase::{
    RebaseParent, RebasePlan, open_view_on, rebuild_open_ledger_after_close,
    rebuild_open_ledger_after_consensus, rebuild_open_ledger_after_consensus_with_completed,
    relays_recovered,
};
use crate::open_ledger::seqs::{
    OpenLedgerSeqs, QueueSeqs, network_ops_next_account_seq_for_tx, noted, noted_all,
};
use crate::open_ledger::simulate::{
    PaidFee, SimulationCall, SimulationOutcome, SimulationRun, SimulationView, simulation_outcome,
    spec_inputs, spec_simulation_view,
};
use crate::queue::clear_ahead::{ApplyResult, RecordedTx};
use crate::queue::sandbox::BaseHeader;
use crate::submit::checks::SeqProxy;
use crate::ter::Ter;

verus! {

/// The open ledger has the sequence that it says it has, or else the one behind its base; without a
/// base there is none.
pub proof fn the_open_ledger_follows_its_base(
    base: Option<u32>,
    live: Option<u32>,
    index: Option<u32>,
    current: u32,
    shown: Option<u32>,
)
    requires
        call_ensures(pending_ledger_index, (base, live), index),
        call_ensures(live_current_ledger_index, (current,), shown),
    ensures
        base is None ==> index is None,
        base is Some && live is Some ==> index == live,
        live is None ==> (base matches Some(seq) ==> (seq < u32::MAX ==> (index matches Some(next)
            && next == seq + 1))),
        current == 0 ==> shown is None,
        current != 0 ==> shown == Some(current),
        forall|seq: u32| seq < u32::MAX ==> #[trigger] spec_current_index(None, seq) == seq + 1,
{
}

/// What a transaction came to is entered with it, and nothing else about it changes.
pub proof fn results_are_entered(entry: PendingEntry, answer: PendingAnswer)
    ensures
        entered(entry, answer).id == entry.id,
        entered(entry, answer).account == entry.account,
        entered(entry, answer).admin == entry.admin,
        entered(entry, answer).fail_hard == entry.fail_hard,
        entered(entry, answer).result == Some(answer.result.ter),
        entered(entry, answer).applied == answer.result.applied,
{
}

/// The open ledger has changed exactly where one of the transactions was applied.
pub proof fn the_open_ledger_changes(answers: Seq<PendingAnswer>, i: int)
    ensures
        0 <= i < answers.len() && answers[i].result.applied ==> any_applied(answers),
        any_applied(answers) ==> exists|k: int|
            0 <= k < answers.len() && (#[trigger] answers[k]).result.applied,
        answers.len() == 0 ==> !any_applied(answers),
{
}

/// With every transaction its account is looked up, how it is applied is asked, and what it paid
/// for is handed on behind it; the state is taken before all of them and given back behind them.
pub proof fn what_is_asked_for_with_a_transaction(
    base: BaseHeader,
    entry: PendingEntry,
    answer: PendingAnswer,
    entries: Seq<PendingEntry>,
    answers: Seq<PendingAnswer>,
    index: u32,
)
    ensures
        ({
            let calls = entry_calls(entry, answer, index);
            &&& calls.len() == 4
            &&& calls[0] == (PendingCall::AccountQueue { account: entry.account })
            &&& calls[1] == (PendingCall::Flags { admin: entry.admin, fail_hard: entry.fail_hard })
            &&& calls[2] == (PendingCall::ApplyByQueue {
                id: entry.id,
                flags: answer.flags,
                ledger_index: index,
            })
            &&& calls[3] == (PendingCall::ClearedAhead { account: entry.account, id: entry.id })
        }),
        round_calls(base, entries, answers, index).last() == PendingCall::GiveBackSandbox,
        round_calls(base, entries, answers, index)[0] == (PendingCall::TakeSandbox { base }),
{
}

/// The rounds go on while something waits; one that could not be applied ends them, and is
/// scheduled anew where it broke off.
pub proof fn rounds_go_on(
    pending: usize,
    runtime: bool,
    panicked: bool,
    next: BatchStep,
    failed: BatchStep,
)
    requires
        call_ensures(next_batch_round, (pending,), next),
        call_ensures(after_failed_round, (runtime, panicked), failed),
    ensures
        pending > 0 ==> next == BatchStep::Apply,
        pending == 0 ==> next == BatchStep::Done,
        !runtime ==> failed == BatchStep::Abandon,
        runtime && panicked ==> failed == BatchStep::Reschedule,
        runtime && !panicked ==> failed == BatchStep::Release,
{
}

/// What a ledger asks for is told as it is, and a fee that nobody pays where it cannot be read.
pub proof fn what_the_ledger_asks_for(
    failed: bool,
    fee: i64,
    account_seq: u32,
    available: u32,
    r: CurrentLedgerState,
)
    requires
        call_ensures(current_ledger_state, (failed, fee, account_seq, available), r),
    ensures
        !failed ==> r.fee_drops == fee && r.account_seq == account_seq && r.available_seq
            == available,
        failed ==> r.fee_drops == i64::MAX && r.account_seq == 0 && r.available_seq == 0,
{
}

/// A transaction that the closed ledger holds is left out, so is one of which that cannot be read,
/// and every other one is tried.
pub proof fn who_is_left_out(in_parent: Result<bool, ViewError>)
    ensures
        in_parent == Ok::<bool, ViewError>(true) ==> left_out(in_parent) == Some(Recovery::InParent),
        in_parent == Ok::<bool, ViewError>(false) ==> left_out(in_parent) is None,
        in_parent matches Err(error) ==> left_out(in_parent) == Some(Recovery::LookupFailed(error)),
{
}

/// A transaction that is tried again comes to what its application came to where it may be applied,
/// and to what was found against it where it may not.
pub proof fn what_comes_of_another_try(attempt: ReapplyAttempt)
    ensures
        attempt.preflight.success() && (attempt.preclaim.success() || attempt.preclaim.claim())
            ==> attempt.result() == attempt.outcome,
        attempt.preflight.success() && !attempt.preclaim.success() && !attempt.preclaim.claim()
            ==> !attempt.result().applied && attempt.result().ter == attempt.preclaim,
        !attempt.preflight.success() && !attempt.preflight.claim() ==> !attempt.result().applied
            && attempt.result().ter == attempt.preflight,
{
}

/// The open ledger stands on the closed one: behind its sequence, with its fee, on its hash and its
/// time.
pub proof fn the_open_ledger_stands_on_the_closed_one(parent: RebaseParent)
    ensures
        parent.seq < u32::MAX ==> open_view_on(parent).ledger_current_index == parent.seq + 1,
        open_view_on(parent).base_fee_drops == parent.base_fee,
        open_view_on(parent).parent_hash == parent.hash,
        open_view_on(parent).parent_close_time == parent.close_time,
        open_view_on(parent).close_time_resolution == parent.close_time_resolution,
{
}

/// What is left over goes back into the open ledger, and so does what this node submitted; what is
/// done with does not, and everything is applied to a state of the closed ledger in which nothing
/// has changed.
pub proof fn what_the_open_ledger_is_filled_with(
    parent: RebaseParent,
    local: Vec<Uint256>,
    retries: Vec<Uint256>,
    first: bool,
    completed: Vec<Uint256>,
    plan: RebasePlan,
    id: Uint256,
)
    requires
        call_ensures(
            rebuild_open_ledger_after_consensus_with_completed,
            (&parent, &local, &retries, first, &completed),
            plan,
        ),
    ensures
        plan.local@.contains(id) <==> local@.contains(id) && !completed@.contains(id),
        plan.retries@.contains(id) <==> retries@.contains(id) && !completed@.contains(id),
        plan.retries_first == first,
        plan.looked_up_in == parent.hash,
        !plan.flags.retry && !plan.flags.fail_hard && !plan.flags.dry_run,
        plan.sandbox@.changes.len() == 0,
        plan.sandbox@.header.parent_hash == parent.hash,
        plan.sandbox@.header.parent_close_time == parent.close_time,
        plan.view == open_view_on(parent),
{
    crate::open_ledger::rebase::completed_stays_out(local@, completed@, id);
    crate::open_ledger::rebase::completed_stays_out(retries@, completed@, id);
}

/// Where nothing is known to be done with everything goes back, in its order; after a close that is
/// what this node submitted alone.
pub proof fn what_the_open_ledger_is_filled_with_otherwise(
    parent: RebaseParent,
    local: Vec<Uint256>,
    retries: Vec<Uint256>,
    first: bool,
    agreed: RebasePlan,
    closed: RebasePlan,
)
    requires
        call_ensures(
            rebuild_open_ledger_after_consensus,
            (&parent, &local, &retries, first),
            agreed,
        ),
        call_ensures(rebuild_open_ledger_after_close, (&parent, local), closed),
    ensures
        agreed.local@ == local@,
        agreed.retries@ == retries@,
        agreed.retries_first == first,
        closed.local@ == local@,
        closed.retries@.len() == 0,
        agreed.view == open_view_on(parent),
        closed.view == open_view_on(parent),
{
}

/// A transaction that found its way back is sent to the peers where they have not got it, unless it
/// belongs into a batch.
pub proof fn what_is_sent_again(inner: bool, relay: bool, overlay: bool, r: bool)
    requires
        call_ensures(relays_recovered, (inner, relay, overlay), r),
    ensures
        r <==> relay && overlay && !inner,
{
}

/// A transaction moves its account to the sequence behind its own, unless the account is further
/// already.
pub proof fn sequences_follow_transactions(
    seqs: Map<AccountID, u32>,
    account: AccountID,
    seq: u32,
)
    requires
        seq < u32::MAX,
    ensures
        noted(seqs, account, seq).contains_key(account),
        !seqs.contains_key(account) || seqs[account] <= seq + 1 ==> noted(
            seqs,
            account,
            seq,
        )[account] == seq + 1,
        seqs.contains_key(account) && seqs[account] > seq + 1 ==> noted(seqs, account, seq)[account]
            == seqs[account],
        forall|other: AccountID|
            other != account ==> (#[trigger] noted(seqs, account, seq).contains_key(other)
                == seqs.contains_key(other)),
{
}

/// A ticket counts by its number, as a sequence does, and one transaction alone is noted as it is.
pub proof fn tickets_count_by_their_number(
    seqs: Map<AccountID, u32>,
    tx: RecordedTx,
    number: u32,
)
    requires
        tx.seq_proxy == SeqProxy::Ticket(number) || tx.seq_proxy == SeqProxy::Sequence(number),
    ensures
        noted_all(seqs, seq![tx]) == noted(seqs, tx.account, number),
        noted_all(seqs, Seq::empty()) == seqs,
{
    reveal_with_fuel(noted_all, 2);
    assert(seq![tx].drop_last() =~= Seq::<RecordedTx>::empty());
    assert(seq![tx].last() == tx);
}

/// The next sequence of an account is what the open ledger says of it, or else the latest ledger.
pub proof fn the_open_ledger_knows_best(
    seqs: OpenLedgerSeqs,
    account: AccountID,
    latest: Option<u32>,
    r: Option<u32>,
)
    requires
        call_ensures(
            OpenLedgerSeqs::network_ops_current_account_seq,
            (&seqs, account, latest),
            r,
        ),
    ensures
        seqs.next@.contains_key(account) ==> r == Some(seqs.next@[account]),
        !seqs.next@.contains_key(account) ==> r == latest,
{
}

/// The next sequence is the one that is free in the state that transactions are tried on, or in the
/// latest ledger before there is one; of an account that is not there, or cannot be read, there is
/// none.
pub proof fn the_next_free_sequence(
    sandbox: Option<QueueSeqs>,
    latest: Option<QueueSeqs>,
    r: Option<u32>,
)
    requires
        call_ensures(network_ops_next_account_seq_for_tx, (sandbox, latest), r),
    ensures
        sandbox matches Some(seqs) ==> (!seqs.failed && seqs.account_seq != 0 ==> r == Some(
            seqs.available_seq,
        )),
        sandbox matches Some(seqs) ==> (seqs.failed || seqs.account_seq == 0 ==> r is None),
        sandbox is None ==> (latest matches Some(seqs) ==> (!seqs.failed && seqs.account_seq != 0
            ==> r == Some(seqs.available_seq))),
        sandbox is None ==> (latest matches Some(seqs) ==> (seqs.failed || seqs.account_seq == 0
            ==> r is None)),
        sandbox is None && latest is None ==> r is None,
{
}

/// A transaction is tried on the open ledger, or, before there is one, on a view of the ledger that
/// is given.
pub proof fn what_a_transaction_is_tried_on(
    current: SimulationView,
    seq: u32,
    fee: u64,
    hash: Uint256,
)
    ensures
        current.ledger_current_index != 0 ==> spec_simulation_view(current, seq, fee, hash)
            == current,
        current.ledger_current_index == 0 ==> spec_simulation_view(current, seq, fee, hash) == (
        SimulationView { ledger_current_index: seq, base_fee_drops: fee, parent_hash: hash }),
{
}

/// Trying a transaction hands it to the queue, for the ledger that it is tried on, and tells what
/// came of it there; its effects are written down where it would have taken a fee.
pub proof fn trying_a_transaction(run: SimulationRun)
    ensures
        run.calls()[6] matches SimulationCall::ApplyByQueue { id, flags, ledger_index, .. } && id
            == run.id && flags.dry_run && !flags.retry && !flags.fail_hard && ledger_index
            == run.tried_on().ledger_current_index,
        run.calls()[5] == (SimulationCall::AccountQueue { account: run.account }),
        run.has_sandbox ==> run.calls()[1] == SimulationCall::CopySandbox,
        !run.has_sandbox ==> (run.calls()[1] matches SimulationCall::NewSandbox { base, .. } && base
            == run.ledger),
        run.calls()[2] is OpenState,
        run.result.ter.success() || run.result.ter.claim() ==> run.calls().len() == 8
            && run.calls()[7] == (SimulationCall::Describe {
            id: run.id,
            ledger_index: run.tried_on().ledger_current_index,
            delivered: run.delivered,
        }),
        !run.result.ter.success() && !run.result.ter.claim() ==> run.calls().len() == 7,
        run.outcome().result == run.result,
        run.outcome().ledger_seq == run.tried_on().ledger_current_index,
        run.outcome().close_time == run.close_time,
        run.outcome().metadata <==> run.described && (run.result.ter.success()
            || run.result.ter.claim()),
{
}

/// The level of a fee is computed from what was paid and from what had to be, each as it is.
pub proof fn fee_levels_are_computed_from(paid: PaidFee)
    requires
        paid.calculated_base_fee <= i64::MAX,
        paid.default_base_fee <= i64::MAX,
    ensures
        spec_inputs(paid).calculated_base_fee_drops == paid.calculated_base_fee,
        spec_inputs(paid).default_base_fee_drops == paid.default_base_fee,
        paid.fee_drops matches Some(drops) ==> spec_inputs(paid).fee_paid_drops == drops,
        paid.fee_drops is None ==> spec_inputs(paid).fee_paid_drops == 0,
{
}

/// What a tried transaction came to is told with the ledger it was tried on and its time; its
/// effects are told where it would have taken a fee and they could be written down.
pub proof fn what_trying_comes_to(
    view: SimulationView,
    close_time: u32,
    result: ApplyResult,
    described: bool,
    r: SimulationOutcome,
)
    requires
        call_ensures(simulation_outcome, (view, close_time, result, described), r),
    ensures
        r.result == result,
        r.ledger_seq == view.ledger_current_index,
        r.close_time == close_time,
        r.metadata <==> described && (result.ter == Ter::TES_SUCCESS || result.ter.claim()),
{
}

/// A transaction finds its way back once: tried again it is there already, and is not recorded a
/// second time. What is applied is recorded last, with everything inside it; what is not applied
/// leaves no trace.
pub proof fn transactions_come_back_once(
    state: &mut Reapplied,
    attempt: ReapplyAttempt,
    r: ApplyResult,
)
    requires
        call_ensures(Reapplied::reapply_open_ledger_record, (state, &attempt), r),
    ensures
        old(state).applied_ids@.contains(attempt.id) ==> !r.applied && r.ter == Ter::TEF_ALREADY,
        !r.applied ==> final(state).applied_ids@ == old(state).applied_ids@
            && final(state).recorded@ == old(state).recorded@,
        r.applied ==> {
            &&& !old(state).applied_ids@.contains(attempt.id)
            &&& r == attempt.outcome
            &&& final(state).recorded@.len() == old(state).recorded@.len() + 1
            &&& final(state).recorded@.last() == attempt.id
            &&& final(state).applied_ids@.contains(attempt.id)
            &&& forall|id: Uint256| #[trigger]
                attempt.inner@.contains(id) ==> final(state).applied_ids@.contains(id)
            &&& forall|id: Uint256| #[trigger]
                old(state).applied_ids@.contains(id) ==> final(state).applied_ids@.contains(id)
        },
{
    if r.applied {
        let was = old(state).applied_ids@;
        let now = final(state).applied_ids@;
        assert(now[was.len() as int] == attempt.id);
        assert forall|id: Uint256| #[trigger] attempt.inner@.contains(id) implies now.contains(id) by {
            let k = choose|k: int| 0 <= k < attempt.inner@.len() && attempt.inner@[k] == id;
            assert(now[was.len() + 1 + k] == id);
        }
        assert forall|id: Uint256| #[trigger] was.contains(id) implies now.contains(id) by {
            let k = choose|k: int| 0 <= k < was.len() && was[k] == id;
            assert(now[k] == id);
        }
    }
}

/// What the parent has, or may have, is left out and changes nothing; everything else is tried.
pub proof fn what_the_parent_has_is_not_tried(
    state: &mut Reapplied,
    in_parent: Result<bool, ViewError>,
    attempt: ReapplyAttempt,
    r: Recovery,
)
    requires
        call_ensures(Reapplied::recover, (state, in_parent, &attempt), r),
    ensures
        in_parent == Ok::<bool, ViewError>(true) ==> r == Recovery::InParent,
        in_parent matches Err(error) ==> r == Recovery::LookupFailed(error),
        in_parent == Ok::<bool, ViewError>(false) ==> r is Tried,
        !(r is Tried) ==> *final(state) == *old(state),
        r matches Recovery::Tried(result) ==> {
            &&& old(state).applied_ids@.contains(attempt.id) ==> !result.applied && result.ter
                == Ter::TEF_ALREADY
            &&& result.applied ==> result == attempt.outcome && final(state).recorded@.last()
                == attempt.id
            &&& !result.applied ==> final(state).recorded@ == old(state).recorded@
                && final(state).applied_ids@ == old(state).applied_ids@
        },
{
}

/// A transaction of the node's own finds its way back once too, and is not recorded by that.
pub proof fn own_transactions_come_back_once(
    state: &mut Reapplied,
    in_parent: Result<bool, ViewError>,
    id: Uint256,
    outcome: ApplyResult,
    r: Recovery,
)
    requires
        call_ensures(Reapplied::recover_local, (state, in_parent, id, outcome), r),
    ensures
        final(state).recorded@ == old(state).recorded@,
        in_parent == Ok::<bool, ViewError>(true) ==> r == Recovery::InParent,
        in_parent matches Err(error) ==> r == Recovery::LookupFailed(error),
        in_parent == Ok::<bool, ViewError>(false) ==> r is Tried,
        r matches Recovery::Tried(result) ==> {
            &&& old(state).applied_ids@.contains(id) ==> !result.applied && result.ter
                == Ter::TEF_ALREADY
            &&& !old(state).applied_ids@.contains(id) ==> result == outcome
            &&& result.applied ==> final(state).applied_ids@.len() == old(state).applied_ids@.len() + 1 && final(state).applied_ids@.last() == id
            &&& !result.applied ==> final(state).applied_ids@ == old(state).applied_ids@
        },
        !(r is Tried) ==> final(state).applied_ids@ == old(state).applied_ids@,
{
}

/// Applied by way of the queue, a transaction is there already where it was applied before, and
/// counts as applied from then on.
pub proof fn queued_transactions_come_back_once(
    state: &mut Reapplied,
    id: Uint256,
    outcome: ApplyResult,
    r: ApplyResult,
)
    requires
        call_ensures(
            Reapplied::apply_local_open_ledger_record_with_txq,
            (state, id, outcome),
            r,
        ),
    ensures
        old(state).applied_ids@.contains(id) ==> !r.applied && r.ter == Ter::TEF_ALREADY,
        !old(state).applied_ids@.contains(id) ==> r == outcome,
        r.applied ==> final(state).applied_ids@.len() == old(state).applied_ids@.len() + 1
            && final(state).applied_ids@.last() == id,
        !r.applied ==> final(state).applied_ids@ == old(state).applied_ids@,
        final(state).recorded@ == old(state).recorded@,
{
}

/// A new open ledger knows of no sequence and holds no state.
pub proof fn new_open_ledgers_know_nothing(seqs: &mut OpenLedgerSeqs, account: AccountID)
    requires
        call_ensures(OpenLedgerSeqs::clear_open_ledger_account_seqs, (seqs,), ()),
    ensures
        !final(seqs).next@.contains_key(account),
        final(seqs).sandbox is None,
{
}

} // verus!
