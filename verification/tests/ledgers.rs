use xrpld_app::build::accepted::{
    push_entry, stage_accepted_batch_inner_transactions, AcceptedEntry, AppliedRun, BuildError,
};
use xrpld_app::build::finish::{
    accept_ledger_with_txns, accepted_outcome, after_build, announcements,
    install_consensus_child, store_built_ledger, AcceptError, AcceptedLedgerLclInstall,
    AcceptedLedgerOutcome, AfterBuild, AfterInstall, InLedger, StoreFacts, StoredLedger,
};
use xrpld_app::build::passes::{
    closed_sequence, held_parent, judge, Attempt, BuildStep, FailedTx, InParent, LedgerBuild, Verdict,
};
use xrpld_app::build::standalone::{
    accept_standalone_ledger, commit_standalone, next_open_index, replay_transaction,
    standalone_close, standalone_close_seq, standalone_effects, standalone_opening, CommitRun,
    FailedInsert, ReplayAttempt, StandaloneCall, StandaloneClose, StandaloneEffect,
    StandaloneError, StandaloneRun,
};
use xrpld_app::consensus::built::ProvisionalLedgerIdentity;
use xrpld_app::consensus::counts::LedgerPoint;
use xrpld_app::ids::{AccountID, Uint256, ViewError};
use xrpld_app::open_ledger::pending::{
    after_failed_round, apply_network_ops_pending_to_open_ledger, current_ledger_state,
    live_current_ledger_index, next_batch_round, pending_ledger_index, BatchStep, PendingAnswer,
    PendingBase, PendingCall, PendingEntry, PendingRound,
};
use xrpld_app::open_ledger::reapply::{Reapplied, ReapplyAttempt, Recovery};
use xrpld_app::open_ledger::rebase::{
    keep_rebuilt_sandbox, lists, rebuild_open_ledger_after_close, rebuild_open_ledger_after_consensus,
    rebuild_open_ledger_after_consensus_with_completed, relays_recovered, RebaseParent,
};
use xrpld_app::open_ledger::seqs::{
    network_ops_next_account_seq_for_tx, OpenLedgerSeqs, QueueSeqs,
};
use xrpld_app::open_ledger::simulate::{
    simulate_transaction, simulation_outcome, simulation_view,
    validated_fee_levels_for_closed_ledger, Held, PaidFee, SimulationCall, SimulationRun,
    SimulationView,
};
use xrpld_app::publication::advance::{
    drive_ledger_replay_timers, has_active_ledger_replay_timers, Heads, PublicationAdvanceState,
    PublicationPlanIdentity, ReplayEffect, ReplayTimers,
};
use xrpld_app::publication::pass::{
    acquisitions, publish_full_ledger, replans, scheduled_replay, PublicationPass,
    PublishDecision, PublishFacts, PublishOutcome, ReplayRange,
};
use xrpld_app::publication::try_advance::{
    try_advance_publication, AdvanceCall, AdvanceRun, PublicationPlan,
};
use xrpld_app::queue::clear_ahead::ApplyResult;
use xrpld_app::queue::sandbox::{BaseHeader, OpenHeader};
use xrpld_app::submit::batch::AppliedBatchInnerTransaction;
use xrpld_app::submit::flags::ApplyFlags;
use xrpld_app::submit::outcome::SubmitApplyOutcome;
use xrpld_app::ter::Ter;

const ERROR: ViewError = ViewError { id: 7 };

fn id(lo: u128) -> Uint256 {
    Uint256 { hi: 0, lo }
}

fn point(lo: u128, seq: u32) -> LedgerPoint {
    LedgerPoint { hash: id(lo), seq }
}

fn applied(result: Ter) -> AppliedRun {
    AppliedRun {
        result,
        applied: true,
        prebuilt: false,
        commit: Ok(()),
        delivered: None,
        inner: vec![],
    }
}

fn attempt() -> Attempt {
    Attempt {
        in_parent: InParent::Absent,
        preflight: Ter::TES_SUCCESS,
        preclaim: Ter::TES_SUCCESS,
        run: applied(Ter::TES_SUCCESS),
        replayed: false,
        retryable: false,
    }
}

fn retry() -> Attempt {
    Attempt { preclaim: Ter::TER_NO_ACCOUNT, retryable: true, ..attempt() }
}

#[test]
fn verdicts() {
    assert_eq!(judge(&attempt(), id(1), true), Ok(Verdict::Accepted(Ter::TES_SUCCESS)));
    let held = Attempt { in_parent: InParent::Held, ..attempt() };
    assert_eq!(judge(&held, id(1), true), Ok(Verdict::Existing));
    assert_eq!(judge(&held, id(1), false), Ok(Verdict::Accepted(Ter::TES_SUCCESS)));
    let unreadable = Attempt { in_parent: InParent::Unreadable(ERROR), ..attempt() };
    assert_eq!(
        judge(&unreadable, id(1), true),
        Err(BuildError::ParentUnreadable { transaction_id: id(1), error: ERROR })
    );
    let replayed = Attempt { replayed: true, ..attempt() };
    assert_eq!(judge(&replayed, id(1), true), Ok(Verdict::Existing));
    assert_eq!(judge(&retry(), id(1), true), Ok(Verdict::Retry));
    let bad = Attempt { preflight: Ter::TEM_INVALID, ..attempt() };
    assert_eq!(judge(&bad, id(1), true), Ok(Verdict::Failed(Ter::TEM_INVALID)));
    let mut lost = attempt();
    lost.run.commit = Err(ERROR);
    assert_eq!(
        judge(&lost, id(1), true),
        Err(BuildError::Metadata { transaction_id: id(1), error: ERROR })
    );
    lost.run.prebuilt = true;
    assert_eq!(
        judge(&lost, id(1), true),
        Err(BuildError::BatchCommit { transaction_id: id(1), error: ERROR })
    );
    assert_eq!(closed_sequence(Some(8), 3), 9);
    assert_eq!(closed_sequence(None, 3), 3);
}

#[test]
fn a_ledger_is_built_in_passes() {
    let mut build = LedgerBuild::start(9, held_parent(None, Some(id(7))), vec![id(1), id(2), id(3)], 3);
    assert_eq!(build.step(), BuildStep::BringInHeld(id(7)));
    build.held_brought_in();
    assert_eq!(build.step(), BuildStep::Attempt(id(1)));
    build.settle(&attempt()).unwrap();
    build.settle(&retry()).unwrap();
    let outcome = SubmitApplyOutcome {
        result: Ter::TES_SUCCESS,
        applied: true,
        delivered_amount: None,
        prebuilt_outer_metadata: true,
        applied_batch_inner_transactions: vec![AppliedBatchInnerTransaction {
            transaction_id: id(30),
            result: Ter::TEC_PATH_DRY,
        }],
    };
    let batch = Attempt { run: AppliedRun::of(outcome, Ok(())), ..attempt() };
    assert!(batch.run.prebuilt);
    build.settle(&batch).unwrap();
    assert_eq!(build.changes, 2);
    assert_eq!(build.step(), BuildStep::EndPass);
    build.end_pass(true, false);
    assert!(!build.certain_retry);
    assert_eq!(build.step(), BuildStep::Attempt(id(2)));
    let failed = Attempt { preclaim: Ter::TEF_ALREADY, ..attempt() };
    assert_eq!(build.settle(&failed), Ok(Verdict::Failed(Ter::TEF_ALREADY)));
    build.end_pass(true, false);
    assert_eq!(build.step(), BuildStep::Done);
    assert_eq!(build.failed, vec![FailedTx { transaction_id: id(2), result: Ter::TEF_ALREADY }]);
    let entry = |lo, result, index| AcceptedEntry { transaction_id: id(lo), result, index };
    assert_eq!(
        build.accepted,
        vec![
            entry(1, Ter::TES_SUCCESS, 0),
            entry(3, Ter::TES_SUCCESS, 1),
            entry(30, Ter::TEC_PATH_DRY, 2),
        ]
    );
    let outcome = accepted_outcome(build);
    assert_eq!(outcome.next_open_index, 10);
    assert_eq!(outcome.completed_transaction_ids, vec![id(1), id(3), id(2)]);
    assert!(outcome.retry_transactions.is_empty());
}

#[test]
fn what_is_left_over_is_kept() {
    let mut build = LedgerBuild::start(9, held_parent(Some(id(8)), Some(id(7))), vec![id(1)], 1);
    assert_eq!(build.step(), BuildStep::BringInHeld(id(8)));
    build.held_brought_in();
    build.settle(&retry()).unwrap();
    build.end_pass(true, false);
    assert_eq!(build.step(), BuildStep::Done);
    let outcome = accepted_outcome(build);
    assert_eq!(outcome.retry_transactions, vec![id(1)]);
    assert!(outcome.completed_transaction_ids.is_empty());
    let mut empty = LedgerBuild::start(9, held_parent(None, None), vec![], 3);
    assert_eq!(empty.step(), BuildStep::BringInHeld(id(0)));
    empty.held_brought_in();
    assert_eq!(empty.step(), BuildStep::Done);
    let held = StandaloneCall::BringInHeld { parent: id(1) };
    let mut calls = vec![];
    standalone_opening(id(1), false, &mut calls);
    standalone_opening(id(1), true, &mut calls);
    assert_eq!(calls, vec![held, held, StandaloneCall::ApplyPending]);
}

#[test]
fn entries_stand_in_their_place() {
    let mut entries = vec![];
    assert_eq!(push_entry(&mut entries, id(1), Ter::TES_SUCCESS), 0);
    let inner = vec![
        AppliedBatchInnerTransaction { transaction_id: id(2), result: Ter::TES_SUCCESS },
        AppliedBatchInnerTransaction { transaction_id: id(3), result: Ter::TEC_KILLED },
    ];
    stage_accepted_batch_inner_transactions(&mut entries, &inner);
    assert_eq!(entries[2].transaction_id, id(3));
    assert_eq!(entries[2].index, 2);
    let told = announcements(&entries, 44);
    assert_eq!(told[1], InLedger { transaction_id: id(2), ledger_seq: 44, index: 1 });
}

#[test]
fn a_built_ledger_is_stored() {
    let facts = StoreFacts {
        needs_durable_persistence: true,
        ledger_has_writer: false,
        store_has_writer: true,
        ledger_has_batch_writer: true,
        store_has_batch_writer: false,
        persisted: Ok(()),
    };
    assert_eq!(
        store_built_ledger(&facts),
        Ok(StoredLedger { attach_writer: true, attach_batch_writer: false, stored: true })
    );
    let none = StoreFacts { store_has_writer: false, ..facts };
    assert_eq!(store_built_ledger(&none), Err(BuildError::MissingNodeWriter));
    let single = StoreFacts { store_has_writer: true, ledger_has_batch_writer: false, ..none };
    assert_eq!(store_built_ledger(&single), Err(BuildError::MissingNodeBatchWriter));
    let broken =
        StoreFacts { ledger_has_batch_writer: true, persisted: Err(ERROR), ..single };
    assert_eq!(store_built_ledger(&broken), Err(BuildError::Persist { error: ERROR }));
    let memory = StoreFacts { needs_durable_persistence: false, ..broken };
    assert!(!store_built_ledger(&memory).unwrap().stored);
}

#[test]
fn what_follows_a_build() {
    assert_eq!(
        after_build(true, AcceptedLedgerLclInstall::Unconditional),
        vec![
            AfterBuild::ProcessQueue,
            AfterBuild::Install,
            AfterBuild::SweepLocalTransactions,
            AfterBuild::Save,
        ]
    );
    assert_eq!(
        after_build(true, AcceptedLedgerLclInstall::Deferred),
        vec![AfterBuild::ProcessQueue, AfterBuild::SweepLocalTransactions]
    );
    assert_eq!(install_consensus_child(true, false, true, true), AfterInstall::SetFull);
    assert_eq!(install_consensus_child(true, false, true, false), AfterInstall::CheckAccept);
    assert_eq!(install_consensus_child(true, false, false, false), AfterInstall::Nothing);
    let outcome = || AcceptedLedgerOutcome {
        next_open_index: 12,
        completed_transaction_ids: vec![],
        retry_transactions: vec![],
    };
    assert_eq!(accept_ledger_with_txns(Ok(outcome()), true), Ok(12));
    assert_eq!(accept_ledger_with_txns(Ok(outcome()), false), Err(AcceptError::Missing));
    assert_eq!(
        accept_ledger_with_txns(Err(BuildError::MissingNodeWriter), true),
        Err(AcceptError::Build(BuildError::MissingNodeWriter))
    );
}

#[test]
fn a_node_closes_by_itself() {
    assert_eq!(standalone_close_seq(5, Some(9), Some(7)), 10);
    assert_eq!(standalone_close_seq(0, None, None), 1);
    assert_eq!(standalone_close_seq(20, Some(9), None), 20);
    assert_eq!(
        standalone_close(false, 5, None, None, 4, 0),
        Err(StandaloneError::NotStandalone)
    );
    assert_eq!(
        standalone_close(true, 5, None, None, 4, 0),
        Ok(StandaloneClose::Empty { closed_seq: 5 })
    );
    assert_eq!(
        standalone_close(true, 5, None, None, 7, 2),
        Ok(StandaloneClose::Replay { closed_seq: 8 })
    );
    assert_eq!(next_open_index(8), 9);
    let mut effects = vec![];
    standalone_effects(8, true, &mut effects);
    assert_eq!(effects[5], StandaloneCall::Effect(StandaloneEffect::SweepLocalTransactions));
    assert_eq!(effects[9], StandaloneCall::Effect(StandaloneEffect::SetCurrentIndex(9)));
    let mut effects = vec![];
    standalone_effects(8, false, &mut effects);
    assert_eq!(effects.len(), 10);
}

#[test]
fn transactions_are_replayed() {
    let mut entries = vec![];
    let mut calls = vec![];
    let good = || replay(1);
    replay_transaction(&mut entries, &good(), 8, 21, &mut calls).unwrap();
    let flags = ApplyFlags::none();
    let transaction_id = id(1);
    assert_eq!(
        calls,
        vec![
            StandaloneCall::Preflight { transaction_id, network_id: 21 },
            StandaloneCall::Preclaim { transaction_id, ledger_seq: 8, flags },
            StandaloneCall::Apply {
                transaction_id,
                flags,
                preclaim: Ter::TES_SUCCESS,
                network_id: 21,
            },
            StandaloneCall::DescribeAndKeep { transaction_id, ledger_seq: 8, delivered: None },
        ]
    );
    let refused = ReplayAttempt { preflight: Ter::TEM_INVALID, ..good() };
    let mut calls = vec![];
    replay_transaction(&mut entries, &refused, 8, 21, &mut calls).unwrap();
    assert_eq!((entries.len(), calls.len()), (1, 1));
    let mut broken = good();
    broken.run.commit = Err(ERROR);
    broken.run.prebuilt = true;
    assert!(replay_transaction(&mut entries, &broken, 8, 21, &mut calls).is_err());
    assert_eq!(calls.last(), Some(&StandaloneCall::Keep { transaction_id }));
    assert_eq!(entries.len(), 1);
    let mut calls = vec![];
    let told = commit_standalone(&entries, 8, &committed(), &mut calls);
    assert_eq!(calls, vec![StandaloneCall::CommitState, StandaloneCall::Insert(entries[0])]);
    assert_eq!(told, Ok(vec![InLedger { transaction_id: id(1), ledger_seq: 8, index: 0 }]));
    let state = CommitRun { state: Err(ERROR), ..committed() };
    assert_eq!(
        commit_standalone(&entries, 8, &state, &mut calls),
        Err(BuildError::StateCommit { error: ERROR })
    );
    let failed_insert = Some(FailedInsert { position: 0, error: ERROR });
    let insert = CommitRun { failed_insert, ..committed() };
    assert_eq!(
        commit_standalone(&entries, 8, &insert, &mut calls),
        Err(BuildError::Insert { transaction_id: id(1), error: ERROR })
    );
}

fn replay(lo: u128) -> ReplayAttempt {
    ReplayAttempt {
        transaction_id: id(lo),
        preflight: Ter::TES_SUCCESS,
        preclaim: Ter::TES_SUCCESS,
        run: applied(Ter::TES_SUCCESS),
    }
}

fn committed() -> CommitRun {
    CommitRun { state: Ok(()), failed_insert: None }
}

fn standalone_run(attempts: Vec<ReplayAttempt>) -> StandaloneRun {
    StandaloneRun {
        standalone: true,
        network_id: 21,
        current: 5,
        closed_seq: Some(9),
        validated_seq: Some(8),
        close_time: 700,
        closed: None,
        validated: Some(point(6, 30)),
        first_hash: id(0),
        set_to_process: true,
        attempts,
        commit: committed(),
    }
}

fn is_shown(call: &StandaloneCall) -> bool {
    matches!(call, StandaloneCall::TellInLedger { .. } | StandaloneCall::Effect(_))
}

#[test]
fn an_empty_ledger_is_closed() {
    let mut calls = vec![];
    assert_eq!(accept_standalone_ledger(&standalone_run(vec![]), &mut calls), Ok(11));
    let accepted = StandaloneCall::SetAccepted {
        close_time: 700,
        close_resolution: 0,
        correct_close_time: true,
    };
    assert_eq!(
        calls[..5].to_vec(),
        vec![
            StandaloneCall::BringInHeld { parent: id(6) },
            StandaloneCall::ApplyPending,
            StandaloneCall::ReadOpenTransactions,
            StandaloneCall::NewLedger { parent: id(6), close_time: 700 },
            accepted,
        ]
    );
    assert_eq!(calls.len(), 15);
    assert!(calls[5..].iter().all(is_shown));
    let alone = StandaloneRun { validated: None, first_hash: id(44), ..standalone_run(vec![]) };
    let mut calls = vec![];
    assert_eq!(accept_standalone_ledger(&alone, &mut calls), Ok(11));
    assert_eq!(calls[0], StandaloneCall::FirstLedger { seq: 1, close_time: 0 });
    assert_eq!(calls[1], StandaloneCall::BringInHeld { parent: id(44) });
    let online = StandaloneRun { standalone: false, ..standalone_run(vec![]) };
    let mut calls = vec![];
    assert_eq!(
        accept_standalone_ledger(&online, &mut calls),
        Err(StandaloneError::NotStandalone)
    );
    assert!(calls.is_empty());
}

#[test]
fn a_ledger_is_shown_once_it_is_whole() {
    let run = standalone_run(vec![replay(1), replay(2)]);
    let mut calls = vec![];
    assert_eq!(accept_standalone_ledger(&run, &mut calls), Ok(32));
    let entry = InLedger { transaction_id: id(2), ledger_seq: 31, index: 1 };
    assert!(calls.contains(&StandaloneCall::TellInLedger { entry, network_id: 21 }));
    assert!(calls.contains(&StandaloneCall::Effect(StandaloneEffect::SetCurrentIndex(32))));
    let first = calls.iter().position(is_shown).unwrap();
    assert_eq!(calls[first - 1], StandaloneCall::SetUnbacked);
    assert!(calls[first..].iter().all(is_shown));
    let mut broken = replay(1);
    broken.run.commit = Err(ERROR);
    let run = standalone_run(vec![broken, replay(2)]);
    let mut calls = vec![];
    let fault = BuildError::Metadata { transaction_id: id(1), error: ERROR };
    assert_eq!(accept_standalone_ledger(&run, &mut calls), Err(StandaloneError::Build(fault)));
    assert!(!calls.iter().any(is_shown));
    assert!(!calls.contains(&StandaloneCall::Preflight { transaction_id: id(2), network_id: 21 }));
    let failed_insert = Some(FailedInsert { position: 1, error: ERROR });
    let run = StandaloneRun {
        commit: CommitRun { failed_insert, ..committed() },
        ..standalone_run(vec![replay(1), replay(2)])
    };
    let mut calls = vec![];
    let fault = BuildError::Insert { transaction_id: id(2), error: ERROR };
    assert_eq!(accept_standalone_ledger(&run, &mut calls), Err(StandaloneError::Build(fault)));
    assert!(!calls.iter().any(is_shown));
    assert!(matches!(calls.last(), Some(StandaloneCall::Insert(_))));
}

#[test]
fn plans_are_asked_for() {
    let heads = Heads { validated: Some(point(1, 5)), published: None };
    let mut state = PublicationAdvanceState::new();
    let epoch = state.begin(heads).unwrap();
    assert_eq!(epoch, 1);
    let plan = PublicationPlanIdentity::from_report(heads, Some(point(2, 4)));
    state.request_publication_advance();
    state.commit(epoch, plan);
    assert_eq!(state.begin(heads), Some(2));
    state.commit(2, plan);
    assert_eq!(state.begin(heads), None);
    let moved = Heads { published: Some(point(1, 5)), ..heads };
    assert!(state.begin(moved).is_some());
    state.requested_epoch = u64::MAX;
    state.request_publication_advance();
    assert_eq!(state.requested_epoch, 1);
}

#[test]
fn publication_waits() {
    let identity = ProvisionalLedgerIdentity {
        target_hash: id(3),
        ledger_hash: id(3),
        ledger_seq: 9,
        acquisition_id: 1,
        store_generation: 1,
        persistence_generation: 1,
    };
    let mut state = PublicationAdvanceState::new();
    state.retain_publication_provisional_deferral(identity);
    assert!(!state.provisional_deferral.unwrap().suppression_logged);
    state.retain_publication_provisional_deferral(identity);
    assert!(state.provisional_deferral.unwrap().suppression_logged);
    state.refresh_publication_provisional_deferral(Some(identity));
    assert!(state.provisional_deferral.is_some());
    state.refresh_publication_provisional_deferral(None);
    assert!(state.provisional_deferral.is_none());
    let facts =
        PublishFacts { identity: Some(identity), provisional: false, set_full: Ok(()) };
    assert_eq!(publish_full_ledger(&facts), PublishOutcome::Deferred(identity));
    let unsafe_yet = PublishFacts { identity: None, provisional: true, set_full: Ok(()) };
    assert_eq!(publish_full_ledger(&unsafe_yet), PublishOutcome::Provisional);
    let partial = PublishFacts { identity: None, provisional: false, set_full: Err(ERROR) };
    assert_eq!(publish_full_ledger(&partial), PublishOutcome::NotFull(ERROR));
}

#[test]
fn a_plan_is_carried_out() {
    let found = || vec![point(1, 5), point(2, 6), point(3, 7)];
    let mut pass = PublicationPass::start(PublishDecision::Sequential, found());
    assert_eq!(pass.next(), Some(point(1, 5)));
    pass.note(PublishOutcome::Published);
    assert_eq!(pass.next(), Some(point(2, 6)));
    pass.note(PublishOutcome::Provisional);
    assert_eq!((pass.next(), pass.published), (None, 1));
    let gap = PublicationPass::start(PublishDecision::GapTooLarge, found());
    assert_eq!(gap.targets, vec![point(3, 7)]);
    let none = PublicationPass::start(PublishDecision::NothingToPublish, found());
    assert_eq!(none.next(), None);
    let ask = |decision, size, inbound| acquisitions(decision, &found(), size, inbound);
    assert_eq!(ask(PublishDecision::Sequential, 3, true), vec![point(1, 5), point(2, 6)]);
    assert!(ask(PublishDecision::Sequential, 0, true).is_empty());
    assert!(ask(PublishDecision::Sequential, 3, false).is_empty());
    assert!(ask(PublishDecision::FirstPublished, 3, true).is_empty());
    let range = ReplayRange { finish: id(3), total_ledgers: 4 };
    assert_eq!(scheduled_replay(PublishDecision::Sequential, Some(range)), Some(range));
    assert_eq!(scheduled_replay(PublishDecision::GapTooLarge, Some(range)), None);
    assert!(replans(true, true) && !replans(false, true));
}

#[test]
fn replays_are_driven() {
    let idle = ReplayTimers { active_tasks: 0, active_skip_lists: 0, active_deltas: 0 };
    // Whoever cannot be asked is taken to be busy.
    assert!(has_active_ledger_replay_timers(None));
    assert!(!has_active_ledger_replay_timers(Some(idle)));
    assert!(has_active_ledger_replay_timers(Some(ReplayTimers { active_deltas: 1, ..idle })));
    assert!(drive_ledger_replay_timers(None).is_empty());
    let effects = drive_ledger_replay_timers(Some(1));
    assert_eq!(effects[0], ReplayEffect::Store(0));
    assert!(effects.contains(&ReplayEffect::CheckAccept(0)));
}

#[test]
fn what_waits_is_applied() {
    assert_eq!(pending_ledger_index(Some(8), None), Some(9));
    assert_eq!(pending_ledger_index(Some(8), Some(4)), Some(4));
    assert_eq!(pending_ledger_index(None, Some(4)), None);
    assert_eq!(live_current_ledger_index(0), None);
    assert_eq!(live_current_ledger_index(3), Some(3));
    let account = AccountID { hi: 0, lo: 4 };
    let fresh = |lo, admin| PendingEntry {
        id: id(lo),
        account,
        admin,
        fail_hard: !admin,
        result: None,
        applied: false,
    };
    let unlimited = ApplyFlags { unlimited: true, ..ApplyFlags::none() };
    let hard = ApplyFlags { fail_hard: true, ..ApplyFlags::none() };
    let answers = vec![
        PendingAnswer {
            flags: unlimited,
            result: ApplyResult { ter: Ter::TER_QUEUED, applied: false },
        },
        PendingAnswer {
            flags: hard,
            result: ApplyResult { ter: Ter::TES_SUCCESS, applied: true },
        },
    ];
    let base = PendingBase { seq: 8, header: BaseHeader { hash: id(1), close_time: 3 } };
    let mut entries = vec![fresh(11, true), fresh(12, false)];
    let mut calls = vec![];
    let round = apply_network_ops_pending_to_open_ledger(
        Some(base),
        None,
        &mut entries,
        &answers,
        &mut calls,
    );
    assert_eq!(round, Some(PendingRound { ledger_index: 9, changed: true }));
    assert_eq!((entries[0].result, entries[0].applied), (Some(Ter::TER_QUEUED), false));
    assert!(entries[1].applied);
    assert_eq!(
        calls,
        vec![
            PendingCall::TakeSandbox { base: base.header },
            PendingCall::AccountQueue { account },
            PendingCall::Flags { admin: true, fail_hard: false },
            PendingCall::ApplyByQueue { id: id(11), flags: unlimited, ledger_index: 9 },
            PendingCall::ClearedAhead { account, id: id(11) },
            PendingCall::AccountQueue { account },
            PendingCall::Flags { admin: false, fail_hard: true },
            PendingCall::ApplyByQueue { id: id(12), flags: hard, ledger_index: 9 },
            PendingCall::ClearedAhead { account, id: id(12) },
            PendingCall::GiveBackSandbox,
        ]
    );
    let mut entries = vec![fresh(11, true), fresh(12, false)];
    let mut calls = vec![];
    let none = apply_network_ops_pending_to_open_ledger(
        None,
        None,
        &mut entries,
        &answers,
        &mut calls,
    );
    assert!(none.is_none() && entries[1] == fresh(12, false) && calls.is_empty());
    assert_eq!(current_ledger_state(true, 10, 4, 5).fee_drops, i64::MAX);
    assert_eq!(current_ledger_state(false, 10, 4, 5).available_seq, 5);
    assert_eq!(next_batch_round(0), BatchStep::Done);
    assert_eq!(next_batch_round(2), BatchStep::Apply);
    assert_eq!(after_failed_round(true, true), BatchStep::Reschedule);
    assert_eq!(after_failed_round(true, false), BatchStep::Release);
    assert_eq!(after_failed_round(false, true), BatchStep::Abandon);
}

#[test]
fn the_open_ledger_is_built_anew() {
    let parent = RebaseParent {
        hash: id(1),
        seq: 8,
        base_fee: 10,
        close_time: 100,
        close_time_resolution: 30,
    };
    let local = vec![id(2), id(3)];
    let retries = vec![id(4), id(2)];
    let plan = rebuild_open_ledger_after_consensus_with_completed(
        &parent,
        &local,
        &retries,
        true,
        &vec![id(2)],
    );
    assert_eq!((plan.looked_up_in, plan.flags), (id(1), ApplyFlags::none()));
    assert_eq!(
        plan.sandbox.header,
        OpenHeader { parent_hash: id(1), parent_close_time: 100 }
    );
    assert!(plan.sandbox.changes.is_empty());
    let mut holder = None;
    keep_rebuilt_sandbox(plan.sandbox, &mut holder);
    assert_eq!(holder.unwrap().header.parent_hash, id(1));
    assert_eq!((plan.local, plan.retries, plan.retries_first), (vec![id(3)], vec![id(4)], true));
    assert_eq!(plan.view.ledger_current_index, 9);
    assert_eq!((plan.view.parent_hash, plan.view.parent_close_time), (id(1), 100));
    let all = rebuild_open_ledger_after_consensus(&parent, &local, &retries, false);
    assert_eq!((all.local.len(), all.retries.len()), (2, 2));
    let closed = rebuild_open_ledger_after_close(&parent, local);
    assert!(closed.retries.is_empty() && closed.local.len() == 2);
    assert!(lists(&retries, id(4)) && !lists(&retries, id(9)));
    assert!(relays_recovered(false, true, true));
    assert!(!relays_recovered(true, true, true));
}

#[test]
fn nothing_comes_back_twice() {
    let mut seen = Reapplied::new();
    let good = ApplyResult { ter: Ter::TES_SUCCESS, applied: true };
    let again = |lo, inner| ReapplyAttempt {
        id: id(lo),
        preflight: Ter::TES_SUCCESS,
        preclaim: Ter::TES_SUCCESS,
        outcome: good,
        inner,
    };
    assert_eq!(seen.reapply_open_ledger_record(&again(1, vec![id(10)])), good);
    assert_eq!(seen.reapply_open_ledger_record(&again(10, vec![])).ter, Ter::TEF_ALREADY);
    assert_eq!(seen.recorded, vec![id(1)]);
    assert_eq!(seen.apply_local_open_ledger_record_with_txq(id(2), good), good);
    assert_eq!(
        seen.apply_local_open_ledger_record_with_txq(id(2), good).ter,
        Ter::TEF_ALREADY
    );
    assert_eq!(seen.applied_ids, vec![id(1), id(10), id(2)]);
    assert_eq!(seen.recover(Ok(true), &again(5, vec![])), Recovery::InParent);
    let error = ViewError { id: 3 };
    assert_eq!(seen.recover(Err(error), &again(5, vec![])), Recovery::LookupFailed(error));
    assert_eq!(seen.recover_local(Ok(true), id(5), good), Recovery::InParent);
    assert!(!lists(&seen.applied_ids, id(5)));
    assert_eq!(seen.recover(Ok(false), &again(5, vec![])), Recovery::Tried(good));
    assert_eq!(seen.recover_local(Ok(false), id(6), good), Recovery::Tried(good));
    let bad = ReapplyAttempt { preflight: Ter::TEM_INVALID, ..again(3, vec![]) };
    assert!(!seen.reapply_open_ledger_record(&bad).applied);
}

#[test]
fn sequences_never_go_back() {
    let account = AccountID { hi: 0, lo: 4 };
    let mut seqs = OpenLedgerSeqs::new();
    assert_eq!(seqs.network_ops_current_account_seq(account, Some(3)), Some(3));
    seqs.note_open_ledger_tx(account, 7);
    seqs.note_open_ledger_tx(account, 5);
    assert_eq!(seqs.network_ops_current_account_seq(account, Some(3)), Some(8));
    seqs.clear_open_ledger_account_seqs();
    assert_eq!(seqs.network_ops_current_account_seq(account, None), None);
    let queue = QueueSeqs { failed: false, account_seq: 3, available_seq: 6 };
    assert_eq!(network_ops_next_account_seq_for_tx(Some(queue), None), Some(6));
    let failed = QueueSeqs { failed: true, ..queue };
    assert_eq!(network_ops_next_account_seq_for_tx(Some(failed), Some(queue)), None);
    let absent = QueueSeqs { account_seq: 0, ..queue };
    assert_eq!(network_ops_next_account_seq_for_tx(None, Some(absent)), None);
    assert_eq!(network_ops_next_account_seq_for_tx(None, None), None);
}

#[test]
fn transactions_are_tried_out() {
    let none =
        SimulationView { ledger_current_index: 0, base_fee_drops: 0, parent_hash: id(0) };
    let view = simulation_view(none, 8, 10, id(1));
    assert_eq!((view.ledger_current_index, view.base_fee_drops), (8, 10));
    assert_eq!(simulation_view(view, 9, 11, id(2)), view);
    let dry = ApplyResult { ter: Ter::TEC_PATH_DRY, applied: false };
    let outcome = simulation_outcome(view, 77, dry, true);
    assert!(outcome.metadata && outcome.ledger_seq == 8 && outcome.close_time == 77);
    let bad = ApplyResult { ter: Ter::TEM_INVALID, applied: false };
    assert!(!simulation_outcome(view, 77, bad, true).metadata);
    let account = AccountID { hi: 0, lo: 4 };
    let run = SimulationRun {
        id: id(5),
        account,
        current: none,
        ledger_seq: 8,
        ledger_base_fee: 10,
        ledger: BaseHeader { hash: id(1), close_time: 70 },
        has_sandbox: true,
        close_time: 77,
        result: dry,
        delivered: Some(2),
        described: true,
    };
    let mut calls = vec![];
    assert_eq!(simulate_transaction(&run, &mut calls), outcome);
    let flags = ApplyFlags::dry_run();
    assert_eq!(
        calls,
        vec![
            SimulationCall::CopyOpenLedger,
            SimulationCall::CopySandbox,
            SimulationCall::OpenState { flags },
            SimulationCall::NewSequences,
            SimulationCall::CopyQueue,
            SimulationCall::AccountQueue { account },
            SimulationCall::ApplyByQueue {
                id: id(5),
                flags,
                ledger_index: 8,
                open_ledger: Held::Copy,
                sandbox: Held::Copy,
                sequences: Held::Copy,
                queue: Held::Copy,
            },
            SimulationCall::Describe { id: id(5), ledger_index: 8, delivered: Some(2) },
        ]
    );
    let mut calls = vec![];
    let alone = SimulationRun { has_sandbox: false, result: bad, ..run };
    assert!(!simulate_transaction(&alone, &mut calls).metadata);
    assert_eq!(calls[1], SimulationCall::NewSandbox { base: run.ledger, flags });
    assert_eq!(calls.len(), 7);
    assert!(validated_fee_levels_for_closed_ledger(&None).is_empty());
    let paid = PaidFee { fee_drops: Some(50), calculated_base_fee: 10, default_base_fee: 12 };
    let levels = validated_fee_levels_for_closed_ledger(&Some(vec![paid]));
    assert_eq!(levels.len(), 1);
    assert_eq!(levels[0].fee_paid_drops, 50);
    assert_eq!(levels[0].calculated_base_fee_drops, 10);
    assert_eq!(levels[0].default_base_fee_drops, 12);
}

fn plan(decision: PublishDecision, found: Vec<LedgerPoint>) -> PublicationPlan {
    PublicationPlan {
        decision,
        found,
        missing: None,
        candidates: vec![point(8, 18), point(9, 19), point(10, 20)],
    }
}

fn publishable() -> PublishFacts {
    PublishFacts { identity: None, provisional: false, set_full: Ok(()) }
}

fn pass() -> AdvanceRun {
    let heads = Heads { validated: Some(point(2, 12)), published: Some(point(0, 10)) };
    AdvanceRun {
        available: true,
        observed: None,
        heads,
        plan: plan(PublishDecision::Sequential, vec![point(1, 11), point(2, 12)]),
        resolved: false,
        plan_again: plan(PublishDecision::NothingToPublish, vec![]),
        replay: Some(ReplayRange { finish: id(9), total_ledgers: 3 }),
        planned_heads: heads,
        facts: vec![publishable(), publishable()],
        ledger_fetch_size: 3,
        inbound: true,
        replays: true,
    }
}

fn shown(ledger: LedgerPoint) -> Vec<AdvanceCall> {
    vec![
        AdvanceCall::SetFull(ledger),
        AdvanceCall::SetPublished(ledger),
        AdvanceCall::ClearNeedNetworkLedger,
        AdvanceCall::WakeConsensus,
        AdvanceCall::TellPublished(ledger),
        AdvanceCall::SetUpOrderBooks(ledger),
    ]
}

#[test]
fn a_pass_publishes_and_asks() {
    let mut state = PublicationAdvanceState::new();
    let mut calls = vec![];
    try_advance_publication(pass(), &mut state, &mut calls);
    let mut expected = vec![AdvanceCall::Plan, AdvanceCall::PlanReplay];
    expected.extend(shown(point(1, 11)));
    expected.extend(shown(point(2, 12)));
    expected.push(AdvanceCall::Acquire(point(8, 18)));
    expected.push(AdvanceCall::Acquire(point(9, 19)));
    expected.push(AdvanceCall::Replay(ReplayRange { finish: id(9), total_ledgers: 3 }));
    assert_eq!(calls, expected);
    assert_eq!((state.planned_epoch, state.requested_epoch), (1, 3));
    assert!(state.begin(pass().heads).is_some());
    assert_eq!(state.last_plan.unwrap().validated, Some(point(2, 12)));
}

#[test]
fn a_pass_stops_at_what_it_cannot_publish() {
    let mut state = PublicationAdvanceState::new();
    let mut calls = vec![];
    let mut run = pass();
    run.facts[0].set_full = Err(ERROR);
    try_advance_publication(run, &mut state, &mut calls);
    assert_eq!(calls[2], AdvanceCall::SetFull(point(1, 11)));
    assert_eq!(calls[3], AdvanceCall::Acquire(point(8, 18)));
    assert_eq!((state.planned_epoch, state.requested_epoch), (1, 1));
    let identity = ProvisionalLedgerIdentity {
        target_hash: id(1),
        ledger_hash: id(1),
        ledger_seq: 11,
        acquisition_id: 1,
        store_generation: 1,
        persistence_generation: 1,
    };
    let mut state = PublicationAdvanceState::new();
    let mut calls = vec![];
    let mut run = pass();
    run.facts[0].identity = Some(identity);
    try_advance_publication(run, &mut state, &mut calls);
    assert!(!calls.contains(&AdvanceCall::SetFull(point(2, 12))));
    assert_eq!(state.provisional_deferral.unwrap().identity, identity);
}

#[test]
fn a_pass_without_work_does_nothing() {
    let mut state = PublicationAdvanceState::new();
    let mut calls = vec![];
    let mut run = pass();
    run.available = false;
    try_advance_publication(run, &mut state, &mut calls);
    assert!(calls.is_empty() && state == PublicationAdvanceState::new());
    let mut quiet = pass();
    quiet.plan = plan(PublishDecision::NothingToPublish, vec![]);
    quiet.facts = vec![];
    try_advance_publication(quiet, &mut state, &mut calls);
    assert_eq!(calls, vec![AdvanceCall::Plan, AdvanceCall::PlanReplay]);
    calls.clear();
    try_advance_publication(pass(), &mut state, &mut calls);
    assert!(calls.is_empty());
}

#[test]
fn a_pass_plans_anew() {
    let mut state = PublicationAdvanceState::new();
    let mut calls = vec![];
    let mut run = pass();
    run.plan.missing = Some(point(5, 15));
    run.resolved = true;
    run.plan_again = plan(PublishDecision::GapTooLarge, vec![point(6, 16), point(7, 17)]);
    try_advance_publication(run, &mut state, &mut calls);
    let mut expected = vec![
        AdvanceCall::Plan,
        AdvanceCall::Resolve(id(5)),
        AdvanceCall::Plan,
        AdvanceCall::PlanReplay,
    ];
    expected.extend(shown(point(7, 17)));
    assert_eq!(calls, expected);
    assert_eq!(state.last_plan.unwrap().missing, None);
}
