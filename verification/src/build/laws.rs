//! What holds of every ledger that is built, over the transactions it was given and what it holds.
use vstd::prelude::*;
use crate::build::accepted::{AcceptedEntry, AppliedRun, BuildError, with_entry, with_inner};
use crate::build::finish::{
    AcceptError, AcceptedLedgerLclInstall, AcceptedLedgerOutcome, AfterBuild, AfterInstall,
    StoreFacts, StoredLedger, accept_ledger_with_txns, accepted_outcome, following,
    install_consensus_child, spec_after_build, store_built_ledger, told,
};
use crate::build::passes::{
    Attempt, BuildStep, BuildView, FailedTx, InParent, LedgerBuild, Verdict, closed_sequence,
    held_parent,
};
use crate::build::standalone::{
    CommitRun, ReplayAttempt, StandaloneCall, StandaloneEffect, StandaloneError, StandaloneRun,
    empty_close_seq, replayed, spec_standalone_effects,
};
use crate::ids::{Uint256, ViewError};
use crate::submit::batch::AppliedBatchInnerTransaction;
use crate::submit::flags::ApplyFlags;
use crate::submit::outcome::SubmitApplyOutcome;

verus! {

/// A transaction becomes part of the ledger exactly where it passes, is applied and kept, and is
/// none that is there already.
pub proof fn good_transactions_are_accepted(attempt: Attempt, id: Uint256, first_pass: bool)
    ensures
        attempt.verdict(id, first_pass) == Ok::<Verdict, BuildError>(
            Verdict::Accepted(attempt.run.result),
        ) <==> {
            &&& attempt.preflight.success()
            &&& attempt.preclaim.success() || attempt.preclaim.claim()
            &&& attempt.run.applied
            &&& attempt.run.commit is Ok
            &&& !attempt.replayed
            &&& !(attempt.in_parent is Unreadable)
            &&& !(first_pass && attempt.in_parent is Held)
        },
{
}

/// What was not applied is tried again where it may heal, and has failed for good where it may not:
/// with the first thing that was found against it.
pub proof fn failures_heal_or_stay(attempt: Attempt, id: Uint256, first_pass: bool)
    requires
        attempt.in_parent is NoParent || attempt.in_parent is Absent || (attempt.in_parent is Held
            && !first_pass),
        !attempt.preflight.success() || !(attempt.preclaim.success() || attempt.preclaim.claim())
            || !attempt.run.applied,
    ensures
        attempt.retryable ==> attempt.verdict(id, first_pass) == Ok::<Verdict, BuildError>(
            Verdict::Retry,
        ),
        !attempt.retryable && !attempt.preflight.success() ==> attempt.verdict(id, first_pass)
            == Ok::<Verdict, BuildError>(Verdict::Failed(attempt.preflight)),
        !attempt.retryable && attempt.preflight.success() && !attempt.preclaim.success()
            && !attempt.preclaim.claim() ==> attempt.verdict(id, first_pass) == Ok::<
            Verdict,
            BuildError,
        >(Verdict::Failed(attempt.preclaim)),
        !attempt.retryable && attempt.preflight.success() && (attempt.preclaim.success()
            || attempt.preclaim.claim()) ==> attempt.verdict(id, first_pass) == Ok::<
            Verdict,
            BuildError,
        >(Verdict::Failed(attempt.run.result)),
{
}

/// A transaction that was there before is done with, and whatever cannot be read or kept ends the
/// build.
pub proof fn repetitions_and_faults(attempt: Attempt, id: Uint256, first_pass: bool, e: ViewError)
    ensures
        attempt.in_parent == InParent::Unreadable(e) ==> attempt.verdict(id, first_pass) == Err::<
            Verdict,
            BuildError,
        >(BuildError::ParentUnreadable { transaction_id: id, error: e }),
        !(attempt.in_parent is Unreadable) && attempt.preflight.success()
            && attempt.preclaim.success() && attempt.run.applied && attempt.replayed
            ==> attempt.verdict(id, first_pass) == Ok::<Verdict, BuildError>(Verdict::Existing),
        attempt.in_parent is Absent && attempt.preflight.success() && attempt.preclaim.success()
            && attempt.run.applied && !attempt.replayed && attempt.run.commit == Err::<
            (),
            ViewError,
        >(e) ==> attempt.verdict(id, first_pass) == Err::<Verdict, BuildError>(
            if attempt.run.prebuilt {
                BuildError::BatchCommit { transaction_id: id, error: e }
            } else {
                BuildError::Metadata { transaction_id: id, error: e }
            },
        ),
{
}

/// Each verdict moves its transaction to where it belongs, and nothing else: into the ledger, to
/// those that have failed, or to those that are tried again.
pub proof fn verdicts_are_carried_out(
    build: BuildView,
    verdict: Verdict,
    inner: Seq<AppliedBatchInnerTransaction>,
)
    requires
        build.wf(),
        build.step() is Attempt,
    ensures
        ({
            let id = build.pending[build.next];
            let after = build.settled(verdict, inner);
            &&& build.step() == BuildStep::Attempt(id)
            &&& verdict is Retry ==> after.retries.last() == id && after.retries.len()
                == build.retries.len() + 1 && after.completed == build.completed
            &&& !(verdict is Retry) ==> after.completed.last() == id && after.completed.len()
                == build.completed.len() + 1 && after.retries == build.retries
            &&& verdict matches Verdict::Failed(ter) ==> after.failed == build.failed.push(
                FailedTx { transaction_id: id, result: ter },
            )
            &&& !(verdict is Failed) ==> after.failed == build.failed
            &&& verdict matches Verdict::Accepted(ter) ==> {
                &&& after.accepted.len() == build.accepted.len() + 1 + inner.len()
                &&& after.accepted[build.accepted.len() as int].transaction_id == id
                &&& after.accepted[build.accepted.len() as int].result == ter
                &&& after.changes == build.changes + 1
            }
            &&& !(verdict is Accepted) ==> after.accepted == build.accepted && after.changes
                == build.changes
        }),
{
    if let Verdict::Accepted(ter) = verdict {
        let with = with_entry(build.accepted, build.pending[build.next], ter);
        crate::build::accepted::inner_transactions_follow_in_order(with, inner);
        assert(with_inner(with, inner)[build.accepted.len() as int] == with[build.accepted.len() as int]);
    }
}

/// Another pass begins exactly where one is worth it, there may be one, and something is left to
/// try: it tries all that is left, in the same order. Otherwise what is left is left for the next
/// ledger.
pub proof fn passes_follow_while_there_is_something_to_try(
    build: BuildView,
    advance: bool,
    certain_retry: bool,
)
    requires
        build.wf(),
        build.step() is EndPass,
    ensures
        ({
            let after = build.passed(advance, certain_retry);
            &&& after.pending == build.retries
            &&& after.retries.len() == 0
            &&& after.certain_retry == certain_retry
            &&& after.completed == build.completed
            &&& after.accepted == build.accepted
            &&& after.failed == build.failed
            &&& advance && build.retries.len() > 0 && build.pass + 1 < build.total_passes
                ==> after.step() == BuildStep::Attempt(build.retries[0])
            &&& !advance || build.retries.len() == 0 || build.pass + 1 >= build.total_passes
                ==> after.step() == BuildStep::Done
        }),
{
}

/// What is held back comes first, then each transaction in order, then the end of the pass.
pub proof fn steps_come_in_order(build: BuildView)
    requires
        build.wf(),
    ensures
        build.held_for matches Some(hash) ==> build.step() == BuildStep::BringInHeld(hash),
        build.held_for is None && build.over ==> build.step() == BuildStep::Done,
        build.held_for is None && !build.over && build.next < build.pending.len() ==> build.step()
            == BuildStep::Attempt(build.pending[build.next]),
        build.held_for is None && !build.over && build.next == build.pending.len() ==> build.step()
            == BuildStep::EndPass,
{
}

/// A ledger follows its parent, and the open ledger follows the one that was closed; the last
/// number has none after it.
pub proof fn ledgers_are_numbered_in_turn(
    parent: Option<u32>,
    stated: u32,
    build: LedgerBuild,
    closes: u32,
    outcome: AcceptedLedgerOutcome,
)
    requires
        call_ensures(closed_sequence, (parent, stated), closes),
        call_ensures(accepted_outcome, (build,), outcome),
        build.closed_seq == closes,
    ensures
        parent is None ==> closes == stated,
        parent matches Some(seq) ==> (seq < u32::MAX ==> closes == seq + 1),
        parent == Some(u32::MAX) ==> closes == u32::MAX,
        closes < u32::MAX ==> outcome.next_open_index == closes + 1,
        closes == u32::MAX ==> outcome.next_open_index == u32::MAX,
        outcome.completed_transaction_ids@ == build.completed@,
        outcome.retry_transactions@ == build.pending@,
        forall|seq: u32| seq < u32::MAX ==> #[trigger] following(seq) == seq + 1,
{
}

/// What is held back is brought in on top of the last closed ledger, or the validated one for want
/// of it.
pub proof fn what_is_held_back_stands_on(
    closed: Option<Uint256>,
    validated: Option<Uint256>,
    r: Uint256,
)
    requires
        call_ensures(held_parent, (closed, validated), r),
    ensures
        closed matches Some(hash) ==> r == hash,
        closed is None ==> (validated matches Some(hash) ==> r == hash),
        closed is None && validated is None ==> r.hi == 0 && r.lo == 0,
{
}

/// A ledger is stored exactly where there is a store, and something to write to it with, one by one
/// and many at once; what the ledger has not of these it gets from the store.
pub proof fn ledgers_are_stored(facts: StoreFacts, r: Result<StoredLedger, BuildError>)
    requires
        call_ensures(store_built_ledger, (&facts,), r),
    ensures
        !facts.needs_durable_persistence ==> (r matches Ok(stored) && !stored.stored
            && !stored.attach_writer && !stored.attach_batch_writer),
        facts.needs_durable_persistence ==> {
            let single = facts.ledger_has_writer || facts.store_has_writer;
            let many = facts.ledger_has_batch_writer || facts.store_has_batch_writer;
            &&& single && many && facts.persisted is Ok ==> (r matches Ok(stored) && stored.stored
                && stored.attach_writer != facts.ledger_has_writer && stored.attach_batch_writer
                != facts.ledger_has_batch_writer)
            &&& !single ==> r == Err::<StoredLedger, BuildError>(BuildError::MissingNodeWriter)
            &&& single && !many ==> r == Err::<StoredLedger, BuildError>(
                BuildError::MissingNodeBatchWriter,
            )
            &&& single && many ==> (facts.persisted matches Err(error) ==> r == Err::<
                StoredLedger,
                BuildError,
            >(BuildError::Persist { error }))
        },
{
}

/// The queue learns of every ledger and own transactions leave with it; it is installed at once
/// unless consensus installs it, and saved at once by a node that is alone.
pub proof fn what_is_done_with_a_built_ledger(standalone: bool, install: AcceptedLedgerLclInstall)
    ensures
        ({
            let done = spec_after_build(standalone, install);
            let now = install == AcceptedLedgerLclInstall::Unconditional;
            &&& done[0] == AfterBuild::ProcessQueue
            &&& done.contains(AfterBuild::SweepLocalTransactions)
            &&& done.contains(AfterBuild::Install) <==> now
            &&& done.contains(AfterBuild::Save) <==> now && standalone
            &&& now ==> done[1] == AfterBuild::Install && done[2]
                == AfterBuild::SweepLocalTransactions
            &&& done.contains(AfterBuild::Save) ==> done.last() == AfterBuild::Save
        }),
{
    let done = spec_after_build(standalone, install);
    assert(done[done.len() - 1] == AfterBuild::Save || done[done.len() - 1]
        == AfterBuild::SweepLocalTransactions);
    if install == AcceptedLedgerLclInstall::Unconditional {
        assert(done[1] == AfterBuild::Install);
        assert(done[2] == AfterBuild::SweepLocalTransactions);
        if standalone {
            assert(done[3] == AfterBuild::Save);
        }
    } else {
        assert(done[1] == AfterBuild::SweepLocalTransactions);
    }
}

/// A ledger that is installed counts as full where the node is alone, and is checked against its
/// validations where it is not.
pub proof fn installed_ledgers_are_checked(master: bool, standalone: bool, r: AfterInstall)
    requires
        call_ensures(install_consensus_child, (true, false, master, standalone), r),
    ensures
        !master ==> r == AfterInstall::Nothing,
        master && standalone ==> r == AfterInstall::SetFull,
        master && !standalone ==> r == AfterInstall::CheckAccept,
{
}

/// A ledger that was built and is the last closed one gives the sequence of the next.
pub proof fn accepted_ledgers_lead_on(
    outcome: Result<AcceptedLedgerOutcome, BuildError>,
    closed: bool,
    r: Result<u32, AcceptError>,
)
    requires
        call_ensures(accept_ledger_with_txns, (outcome, closed), r),
    ensures
        outcome matches Ok(built) ==> (closed ==> r == Ok::<u32, AcceptError>(
            built.next_open_index,
        )),
        outcome is Ok && !closed ==> r == Err::<u32, AcceptError>(AcceptError::Missing),
        outcome matches Err(error) ==> r == Err::<u32, AcceptError>(AcceptError::Build(error)),
{
}

/// Of every transaction of a ledger it is told that it is there, in which ledger and at which
/// place.
pub proof fn every_transaction_is_told(entries: Seq<AcceptedEntry>, seq: u32, i: int)
    requires
        0 <= i < entries.len(),
    ensures
        told(entries, seq).len() == entries.len(),
        told(entries, seq)[i].transaction_id == entries[i].transaction_id,
        told(entries, seq)[i].ledger_seq == seq,
        told(entries, seq)[i].index == i as u32,
{
}

/// A ledger without transactions closes under the first sequence that is none before: the larger of
/// that of the open ledger and those behind the closed and the validated ones.
pub proof fn empty_ledgers_take_the_next_sequence(
    current: u32,
    closed: Option<u32>,
    validated: Option<u32>,
)
    requires
        closed != Some(u32::MAX),
        validated != Some(u32::MAX),
    ensures
        ({
            let seq = empty_close_seq(current, closed, validated);
            &&& seq >= 1
            &&& seq >= current
            &&& closed matches Some(before) ==> seq > before
            &&& validated matches Some(before) ==> seq > before
            &&& seq == 1 || seq == current || (closed matches Some(before) && seq == before + 1) || (
            validated matches Some(before) && seq == before + 1)
        }),
{
}

/// A transaction is replayed exactly where it passes and is applied, and what is asked for on the
/// way is just as much as that takes.
pub proof fn transactions_are_replayed(attempt: ReplayAttempt, seq: u32, network: u32)
    ensures
        ({
            let id = attempt.transaction_id;
            let calls = attempt.calls(seq, network);
            let admitted = attempt.preflight.success() && (attempt.preclaim.success()
                || attempt.preclaim.claim());
            &&& calls[0] == (StandaloneCall::Preflight { transaction_id: id, network_id: network })
            &&& attempt.preflight.success() ==> calls[1] == (StandaloneCall::Preclaim {
                transaction_id: id,
                ledger_seq: seq,
                flags: ApplyFlags::spec_none(),
            })
            &&& admitted ==> attempt.applies() == attempt.run.applied && calls[2] == (
            StandaloneCall::Apply {
                transaction_id: id,
                flags: ApplyFlags::spec_none(),
                preclaim: attempt.preclaim,
                network_id: network,
            })
            &&& admitted && attempt.run.applied && attempt.run.prebuilt ==> calls[3]
                == (StandaloneCall::Keep { transaction_id: id }) && calls.len() == 4
            &&& admitted && attempt.run.applied && !attempt.run.prebuilt ==> calls[3] == (
            StandaloneCall::DescribeAndKeep {
                transaction_id: id,
                ledger_seq: seq,
                delivered: attempt.run.delivered,
            }) && calls.len() == 4
            &&& admitted && !attempt.run.applied ==> calls.len() == 3
            &&& !attempt.preflight.success() && !attempt.preflight.claim() ==> calls.len() == 1
                && !attempt.applies()
            &&& attempt.preflight.success() && !attempt.preclaim.success()
                && !attempt.preclaim.claim() ==> calls.len() == 2 && !attempt.applies()
        }),
{
}

/// Where nothing goes wrong every transaction that was applied is in the ledger, with its result,
/// and as many are in it as were applied and their parts.
pub proof fn what_is_replayed_is_in_the_ledger(
    attempts: Seq<ReplayAttempt>,
    seq: u32,
    network: u32,
    n: int,
    i: int,
)
    requires
        0 <= i < n <= attempts.len(),
        attempts[i].applies(),
        replayed(attempts, seq, network, n).fault is None,
    ensures
        exists|k: int|
            0 <= k < replayed(attempts, seq, network, n).entries.len() && (#[trigger] replayed(
                attempts,
                seq,
                network,
                n,
            ).entries[k]).transaction_id == attempts[i].transaction_id && replayed(
                attempts,
                seq,
                network,
                n,
            ).entries[k].result == attempts[i].run.result,
    decreases n,
{
    let before = replayed(attempts, seq, network, n - 1);
    let after = replayed(attempts, seq, network, n);
    let last = attempts[n - 1];
    let with = with_entry(before.entries, last.transaction_id, last.run.result);
    crate::build::accepted::inner_transactions_follow_in_order(with, last.run.inner@);
    if i == n - 1 {
        let k = before.entries.len() as int;
        assert(with_inner(with, last.run.inner@)[k] == with[k]);
        assert(after.entries[k].transaction_id == attempts[i].transaction_id);
    } else {
        what_is_replayed_is_in_the_ledger(attempts, seq, network, n - 1, i);
        let k = choose|k: int|
            0 <= k < before.entries.len() && (#[trigger] before.entries[k]).transaction_id
                == attempts[i].transaction_id && before.entries[k].result == attempts[i].run.result;
        if last.applies() {
            assert(with_inner(with, last.run.inner@)[k] == with[k]);
        }
        assert(after.entries[k] == before.entries[k]);
    }
}

/// A ledger is closed with all of its transactions, in order, or not at all.
pub proof fn all_transactions_are_put_in(run: CommitRun, entries: Seq<AcceptedEntry>, i: int)
    ensures
        run.calls(entries)[0] == StandaloneCall::CommitState,
        run.fault(entries) is None ==> {
            &&& run.state is Ok
            &&& run.calls(entries).len() == 1 + entries.len()
            &&& 0 <= i < entries.len() ==> run.calls(entries)[1 + i] == StandaloneCall::Insert(
                entries[i],
            )
        },
        run.state matches Err(error) ==> run.fault(entries) == Some(
            BuildError::StateCommit { error },
        ) && run.calls(entries).len() == 1,
        run.state is Ok ==> (run.failed_insert matches Some(failed) ==> (failed.position
            < entries.len() ==> run.fault(entries) == Some(
            BuildError::Insert {
                transaction_id: entries[failed.position as int].transaction_id,
                error: failed.error,
            },
        ))),
        run.state is Ok && run.failed_insert is None ==> run.fault(entries) is None,
{
}

/// Only a node that is alone closes a ledger by itself, and it does wherever nothing goes wrong: on
/// top of the last closed ledger, the validated one for want of it, or a first one for want of
/// both.
pub proof fn standalone_nodes_close_ledgers(run: StandaloneRun)
    ensures
        !run.standalone ==> run.outcome() == Err::<u32, StandaloneError>(
            StandaloneError::NotStandalone,
        ) && run.calls().len() == 0,
        run.standalone && run.attempts@.len() == 0 ==> run.outcome() is Ok,
        run.standalone && run.spec_replayed().fault is None && run.commit.state is Ok
            && run.commit.failed_insert is None ==> run.outcome() is Ok,
        run.closed matches Some(point) ==> run.spec_parent() == point,
        run.closed is None ==> (run.validated matches Some(point) ==> run.spec_parent() == point),
        run.closed is None && run.validated is None ==> run.spec_parent().seq == 1
            && run.spec_parent().hash == run.first_hash,
        run.attempts@.len() > 0 && run.spec_parent().seq < u32::MAX ==> run.spec_closes()
            == run.spec_parent().seq + 1,
{
    if run.attempts@.len() == 0 {
        assert(run.spec_replayed().fault is None);
    }
}

/// Before a ledger is closed what is held back is brought in, what waits is applied where there is
/// something to process, and the transactions are read; the ledger is then made on top of its
/// parent, and closed at its time.
pub proof fn a_standalone_ledger_is_made(run: StandaloneRun)
    requires
        run.standalone,
    ensures
        ({
            let calls = run.calls();
            let parent = run.spec_parent().hash;
            let at: int = if run.closed is None && run.validated is None {
                1
            } else {
                0
            };
            &&& at == 1 ==> calls[0] == (StandaloneCall::FirstLedger { seq: 1, close_time: 0 })
            &&& calls[at] == (StandaloneCall::BringInHeld { parent })
            &&& run.set_to_process ==> calls[at + 1] == StandaloneCall::ApplyPending && calls[at
                + 2] == StandaloneCall::ReadOpenTransactions
            &&& !run.set_to_process ==> calls[at + 1] == StandaloneCall::ReadOpenTransactions
            &&& run.outcome() is Ok ==> calls.contains(
                StandaloneCall::NewLedger { parent, close_time: run.close_time },
            ) && calls.contains(
                StandaloneCall::SetAccepted {
                    close_time: run.close_time,
                    close_resolution: 0,
                    correct_close_time: true,
                },
            )
            &&& run.outcome() is Ok && run.attempts@.len() > 0 ==> calls.contains(
                StandaloneCall::OpenState { parent, close_time: run.close_time },
            ) && calls.contains(StandaloneCall::SetUnbacked)
        }),
{
    let calls = run.calls();
    let opening = run.opening_calls();
    let making = run.making_calls();
    let o = opening.len() as int;
    assert(calls[0] == opening[0]);
    assert(calls[1] == opening[1]);
    assert(o >= 3 ==> calls[2] == opening[2]);
    assert(o >= 4 ==> calls[3] == opening[3]);
    if run.outcome() is Ok {
        if run.attempts@.len() == 0 {
            assert(calls[o] == making[0]);
            assert(calls[o + 1] == making[1]);
        } else {
            let m = making.len() as int;
            let r = run.spec_replayed().calls.len() as int;
            assert(making[0] is OpenState);
            assert(calls[o] == making[0]);
            assert(making[1 + r] is NewLedger);
            assert(calls[o + 1 + r] == making[1 + r]);
            assert(making[m - 1] == StandaloneCall::SetUnbacked);
            assert(making[m - 2] is SetAccepted);
            assert(calls[o + m - 1] == making[m - 1]);
            assert(calls[o + m - 2] == making[m - 2]);
        }
    }
}

/// A ledger that was closed is shown as closed, published and validated, and saved; own
/// transactions leave with it where there were any, and the open ledger is built anew on top of it.
pub proof fn a_closed_ledger_is_shown(seq: u32, with_transactions: bool, next: u32)
    requires
        seq < u32::MAX,
        next == seq + 1,
    ensures
        ({
            let done = spec_standalone_effects(seq, with_transactions);
            &&& done[0] == StandaloneEffect::ProcessQueue
            &&& done[1] == StandaloneEffect::NotifyClosed
            &&& done[2] == StandaloneEffect::NotifyPublished
            &&& done[3] == StandaloneEffect::NotifyValidated
            &&& done[4] == StandaloneEffect::PromoteMode
            &&& with_transactions <==> done[5] == StandaloneEffect::SweepLocalTransactions
            &&& done[done.len() - 5] == StandaloneEffect::Save
            &&& done[done.len() - 4] == StandaloneEffect::ClearAccountSeqs
            &&& done[done.len() - 3] == StandaloneEffect::RebuildOpenLedger
            &&& done[done.len() - 2] == StandaloneEffect::SetCurrentIndex(next)
            &&& done[done.len() - 1] == StandaloneEffect::SetQueueReport
        }),
{
}

/// What applying a transaction came to is taken over as it is.
pub proof fn what_was_applied_is_taken_over(
    outcome: SubmitApplyOutcome,
    commit: Result<(), ViewError>,
    r: AppliedRun,
)
    requires
        call_ensures(AppliedRun::of, (outcome, commit), r),
    ensures
        r.result == outcome.result,
        r.applied == outcome.applied,
        r.prebuilt == outcome.prebuilt_outer_metadata,
        r.delivered == outcome.delivered_amount,
        r.inner@ == outcome.applied_batch_inner_transactions@,
        r.commit == commit,
{
}

/// Effects that could not be kept are a fault of the batch where they were put together with its
/// inside, and of the one transaction otherwise; kept effects are none.
pub proof fn what_could_not_be_kept(run: AppliedRun, id: Uint256)
    ensures
        run.commit is Ok <==> run.commit_fault(id) is None,
        run.commit matches Err(error) ==> run.commit_fault(id) == Some(
            if run.prebuilt {
                BuildError::BatchCommit { transaction_id: id, error }
            } else {
                BuildError::Metadata { transaction_id: id, error }
            },
        ),
{
}

} // verus!
