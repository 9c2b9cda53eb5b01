//! Closing a ledger without a network.
use vstd::prelude::*;
use crate::build::accepted::{
    AcceptedEntry, AppliedRun, BuildError, in_place, push_entry,
    stage_accepted_batch_inner_transactions, with_entry, with_inner,
};
use crate::build::finish::{InLedger, announcements, following, told};
use crate::consensus::counts::LedgerPoint;
use crate::ids::{Uint256, ViewError};
use crate::submit::flags::ApplyFlags;
use crate::submit::shell::{admission_result, admitted_with};
use crate::ter::{Ter, admits_apply, is_tes_success};

verus! {

/// Why a node did not close a ledger by itself.
#[derive(Clone, Copy, Debug, PartialEq, Eq, Structural)]
pub enum StandaloneError {
    /// Only a node without a network may.
    NotStandalone,
    Build(BuildError),
}

pub open spec fn at_least(a: u32, b: u32) -> u32 {
    if a < b {
        b
    } else {
        a
    }
}

fn max(a: u32, b: u32) -> (r: u32)
    ensures
        r == at_least(a, b),
{
    if a < b {
        b
    } else {
        a
    }
}

pub open spec fn seq_or_zero(seq: Option<u32>) -> u32 {
    match seq {
        Some(seq) => seq,
        None => 0,
    }
}

fn unwrap_seq(seq: Option<u32>) -> (r: u32)
    ensures
        r == seq_or_zero(seq),
{
    match seq {
        Some(seq) => seq,
        None => 0,
    }
}

pub open spec fn empty_close_seq(current: u32, closed: Option<u32>, validated: Option<u32>) -> u32 {
    at_least(
        at_least(
            at_least(current, following(seq_or_zero(closed))),
            following(seq_or_zero(validated)),
        ),
        1,
    )
}

/// The sequence under which a ledger without transactions closes: that of the open ledger,
/// but beyond what is closed or validated.
pub fn standalone_close_seq(current: u32, closed: Option<u32>, validated: Option<u32>) -> (r: u32)
    ensures
        r == empty_close_seq(current, closed, validated),
{
    let closed_seq: u32 = unwrap_seq(closed);
    let validated_seq: u32 = unwrap_seq(validated);
    max(
        max(max(current, closed_seq.saturating_add(1)), validated_seq.saturating_add(1)),
        1,
    )
}

/// How a node without a network closes its ledger.
#[derive(Clone, Copy, Debug, PartialEq, Eq, Structural)]
pub enum StandaloneClose {
    /// Nothing is pending: the state of the parent is taken over as it is.
    Empty { closed_seq: u32 },
    /// The pending transactions are applied to the state of the parent.
    Replay { closed_seq: u32 },
}

/// One thing that is asked for while a node closes a ledger by itself.
#[derive(Clone, Copy, Debug, PartialEq, Eq, Structural)]
pub enum StandaloneCall {
    /// Make up a ledger to build on, for want of one.
    FirstLedger { seq: u32, close_time: u32 },
    /// Bring in the transactions that are held back, for the open ledger on top of this one.
    BringInHeld { parent: Uint256 },
    /// Apply what waits to the open ledger.
    ApplyPending,
    /// Read the transactions of the open ledger.
    ReadOpenTransactions,
    /// Begin a state on top of the parent that shows the ledger being built.
    OpenState { parent: Uint256, close_time: u32 },
    /// Look at the fields of a transaction, and at its place in that state.
    Preflight { transaction_id: Uint256, network_id: u32 },
    Preclaim { transaction_id: Uint256, ledger_seq: u32, flags: ApplyFlags },
    /// Apply it in a part of its own.
    Apply { transaction_id: Uint256, flags: ApplyFlags, preclaim: Ter, network_id: u32 },
    /// Put that part into the state; its effects have been written down already.
    Keep { transaction_id: Uint256 },
    /// Write its effects down, and put that part into the state.
    DescribeAndKeep { transaction_id: Uint256, ledger_seq: u32, delivered: Option<u64> },
    /// Begin the ledger that follows the parent.
    NewLedger { parent: Uint256, close_time: u32 },
    /// Put the state into it.
    CommitState,
    /// Put a transaction into it.
    Insert(AcceptedEntry),
    /// Close it.
    SetAccepted { close_time: u32, close_resolution: u8, correct_close_time: bool },
    /// Keep its nodes in memory.
    SetUnbacked,
    /// Tell that a transaction is in it, and where.
    TellInLedger { entry: InLedger, network_id: u32 },
    Effect(StandaloneEffect),
}

pub open spec fn spec_standalone_opening(parent: Uint256, set_to_process: bool) -> Seq<StandaloneCall> {
    if set_to_process {
        seq![StandaloneCall::BringInHeld { parent }, StandaloneCall::ApplyPending]
    } else {
        seq![StandaloneCall::BringInHeld { parent }]
    }
}

/// What is done before a node closes its ledger by itself, in order. Only where bringing in what is
/// held back left a set to process is what waits applied at once.
pub fn standalone_opening(parent: Uint256, set_to_process: bool, calls: &mut Vec<StandaloneCall>)
    ensures
        final(calls)@ == old(calls)@ + spec_standalone_opening(parent, set_to_process),
{
    calls.push(StandaloneCall::BringInHeld { parent });
    if set_to_process {
        calls.push(StandaloneCall::ApplyPending);
    }
    assert(calls@ =~= old(calls)@ + spec_standalone_opening(parent, set_to_process));
}

/// How a node closes its ledger; only one without a network may by itself. The sequence follows
/// that of the parent wherever there are transactions.
pub fn standalone_close(
    standalone: bool,
    current: u32,
    closed: Option<u32>,
    validated: Option<u32>,
    parent_seq: u32,
    open_tx_count: usize,
) -> (r: Result<StandaloneClose, StandaloneError>)
    ensures
        r == (if !standalone {
            Err(StandaloneError::NotStandalone)
        } else if open_tx_count == 0 {
            Ok(StandaloneClose::Empty { closed_seq: empty_close_seq(current, closed, validated) })
        } else {
            Ok(StandaloneClose::Replay { closed_seq: following(parent_seq) })
        }),
{
    if !standalone {
        return Err(StandaloneError::NotStandalone);
    }
    if open_tx_count == 0 {
        return Ok(
            StandaloneClose::Empty { closed_seq: standalone_close_seq(current, closed, validated) },
        );
    }
    Ok(StandaloneClose::Replay { closed_seq: parent_seq.saturating_add(1) })
}

/// A transaction applied to the state of the parent. Each answer counts only where the question
/// comes up.
pub struct ReplayAttempt {
    pub transaction_id: Uint256,
    pub preflight: Ter,
    pub preclaim: Ter,
    pub run: AppliedRun,
}

impl ReplayAttempt {
    /// It may be applied, and was.
    pub open spec fn applies(self) -> bool {
        admitted_with(self.preflight, self.preclaim).likely_to_claim_fee() && self.run.applied
    }

    /// Why the ledger cannot be closed with it.
    pub open spec fn fault(self) -> Option<BuildError> {
        if self.applies() {
            self.run.commit_fault(self.transaction_id)
        } else {
            None
        }
    }

    /// What is asked for with it.
    pub open spec fn calls(self, closed_seq: u32, network_id: u32) -> Seq<StandaloneCall> {
        let transaction_id = self.transaction_id;
        let flags = ApplyFlags::spec_none();
        let found = admitted_with(self.preflight, self.preclaim);
        seq![StandaloneCall::Preflight { transaction_id, network_id }] + (if self.preflight.success() {
            seq![StandaloneCall::Preclaim { transaction_id, ledger_seq: closed_seq, flags }]
        } else {
            seq![]
        }) + (if found.likely_to_claim_fee() {
            seq![StandaloneCall::Apply { transaction_id, flags, preclaim: found, network_id }]
        } else {
            seq![]
        }) + if !self.applies() {
            seq![]
        } else if self.run.prebuilt {
            seq![StandaloneCall::Keep { transaction_id }]
        } else {
            seq![
                StandaloneCall::DescribeAndKeep {
                    transaction_id,
                    ledger_seq: closed_seq,
                    delivered: self.run.delivered,
                },
            ]
        }
    }

    /// What the ledger holds with it.
    pub open spec fn joins(self, entries: Seq<AcceptedEntry>) -> Seq<AcceptedEntry> {
        if self.applies() {
            with_inner(
                with_entry(entries, self.transaction_id, self.run.result),
                self.run.inner@,
            )
        } else {
            entries
        }
    }
}

/// Takes one more transaction into the ledger. One that is refused before it is applied, or
/// whose application is not kept, leaves no trace.
pub fn replay_transaction(
    entries: &mut Vec<AcceptedEntry>,
    attempt: &ReplayAttempt,
    closed_seq: u32,
    network_id: u32,
    calls: &mut Vec<StandaloneCall>,
) -> (r: Result<(), BuildError>)
    ensures
        match attempt.fault() {
            Some(fault) => r == Err::<(), BuildError>(fault) && final(entries)@ == old(entries)@,
            None => r is Ok && final(entries)@ == attempt.joins(old(entries)@),
        },
        final(calls)@ == old(calls)@ + attempt.calls(closed_seq, network_id),
        in_place(old(entries)@) ==> in_place(final(entries)@),
{
    let transaction_id = attempt.transaction_id;
    let flags = ApplyFlags::none();
    calls.push(StandaloneCall::Preflight { transaction_id, network_id });
    if is_tes_success(attempt.preflight) {
        calls.push(StandaloneCall::Preclaim { transaction_id, ledger_seq: closed_seq, flags });
    }
    let preclaim = admission_result(attempt.preflight, attempt.preclaim);
    if !admits_apply(preclaim) {
        assert(calls@ =~= old(calls)@ + attempt.calls(closed_seq, network_id));
        return Ok(());
    }
    calls.push(StandaloneCall::Apply { transaction_id, flags, preclaim, network_id });
    if attempt.run.applied {
        if attempt.run.prebuilt {
            calls.push(StandaloneCall::Keep { transaction_id });
        } else {
            calls.push(
                StandaloneCall::DescribeAndKeep {
                    transaction_id,
                    ledger_seq: closed_seq,
                    delivered: attempt.run.delivered,
                },
            );
        }
        assert(calls@ =~= old(calls)@ + attempt.calls(closed_seq, network_id));
        if let Some(fault) = attempt.run.commit_error(transaction_id) {
            return Err(fault);
        }
        push_entry(entries, transaction_id, attempt.run.result);
        stage_accepted_batch_inner_transactions(entries, &attempt.run.inner);
    }
    assert(calls@ =~= old(calls)@ + attempt.calls(closed_seq, network_id));
    Ok(())
}

/// How far the transactions have been replayed.
#[verifier::ext_equal]
pub struct Replayed {
    pub entries: Seq<AcceptedEntry>,
    pub fault: Option<BuildError>,
    pub calls: Seq<StandaloneCall>,
}

/// The first `n` transactions, one after the other, up to the first fault.
pub open spec fn replayed(
    attempts: Seq<ReplayAttempt>,
    closed_seq: u32,
    network_id: u32,
    n: int,
) -> Replayed
    decreases n,
{
    if n <= 0 {
        Replayed { entries: seq![], fault: None, calls: seq![] }
    } else {
        let before = replayed(attempts, closed_seq, network_id, n - 1);
        let attempt = attempts[n - 1];
        if before.fault is Some {
            before
        } else {
            Replayed {
                entries: if attempt.fault() is Some {
                    before.entries
                } else {
                    attempt.joins(before.entries)
                },
                fault: attempt.fault(),
                calls: before.calls + attempt.calls(closed_seq, network_id),
            }
        }
    }
}

proof fn a_fault_ends_the_replay(
    attempts: Seq<ReplayAttempt>,
    closed_seq: u32,
    network_id: u32,
    n: int,
    m: int,
)
    requires
        n <= m,
        replayed(attempts, closed_seq, network_id, n).fault is Some,
    ensures
        replayed(attempts, closed_seq, network_id, m) == replayed(
            attempts,
            closed_seq,
            network_id,
            n,
        ),
    decreases m - n,
{
    if n < m {
        a_fault_ends_the_replay(attempts, closed_seq, network_id, n, m - 1);
    }
}

fn replay_all(
    attempts: &Vec<ReplayAttempt>,
    closed_seq: u32,
    network_id: u32,
    calls: &mut Vec<StandaloneCall>,
) -> (r: Result<Vec<AcceptedEntry>, BuildError>)
    ensures
        ({
            let all = replayed(attempts@, closed_seq, network_id, attempts@.len() as int);
            &&& final(calls)@ == old(calls)@ + all.calls
            &&& match all.fault {
                Some(fault) => r matches Err(error) && error == fault,
                None => r matches Ok(entries) && entries@ == all.entries,
            }
        }),
{
    let ghost start = calls@;
    let mut entries: Vec<AcceptedEntry> = Vec::new();
    let mut i: usize = 0;
    assert(calls@ =~= start + replayed(attempts@, closed_seq, network_id, 0).calls);
    assert(entries@ =~= replayed(attempts@, closed_seq, network_id, 0).entries);
    while i < attempts.len()
        invariant
            i <= attempts@.len(),
            start == old(calls)@,
            calls@ == start + replayed(attempts@, closed_seq, network_id, i as int).calls,
            entries@ == replayed(attempts@, closed_seq, network_id, i as int).entries,
            replayed(attempts@, closed_seq, network_id, i as int).fault is None,
        decreases attempts@.len() - i,
    {
        let taken = replay_transaction(&mut entries, &attempts[i], closed_seq, network_id, calls);
        i = i + 1;
        assert(calls@ =~= start + replayed(attempts@, closed_seq, network_id, i as int).calls);
        if let Err(fault) = taken {
            proof {
                a_fault_ends_the_replay(
                    attempts@,
                    closed_seq,
                    network_id,
                    i as int,
                    attempts@.len() as int,
                );
            }
            return Err(fault);
        }
    }
    Ok(entries)
}

/// A transaction that could not be put into the ledger, by its place among them.
#[derive(Clone, Copy, Debug, PartialEq, Eq, Structural)]
pub struct FailedInsert {
    pub position: usize,
    pub error: ViewError,
}

/// Putting the applied transactions into the ledger.
#[derive(Clone, Copy, Debug)]
pub struct CommitRun {
    pub state: Result<(), ViewError>,
    /// The first of them that could not be put in.
    pub failed_insert: Option<FailedInsert>,
}

impl CommitRun {
    /// How many transactions are tried to be put into the ledger: all of them, or up to the first
    /// that fails.
    pub open spec fn tried(self, count: nat) -> nat {
        match self.failed_insert {
            Some(failed) => if failed.position < count {
                failed.position as nat + 1
            } else {
                count
            },
            None => count,
        }
    }

    /// Why the ledger could not be closed.
    pub open spec fn fault(self, entries: Seq<AcceptedEntry>) -> Option<BuildError> {
        match (self.state, self.failed_insert) {
            (Err(error), _) => Some(BuildError::StateCommit { error }),
            (Ok(_), Some(failed)) => if failed.position < entries.len() {
                Some(
                    BuildError::Insert {
                        transaction_id: entries[failed.position as int].transaction_id,
                        error: failed.error,
                    },
                )
            } else {
                None
            },
            (Ok(_), None) => None,
        }
    }

    /// What is asked for to close the ledger: the state, then the transactions one by one.
    pub open spec fn calls(self, entries: Seq<AcceptedEntry>) -> Seq<StandaloneCall> {
        seq![StandaloneCall::CommitState] + if self.state is Ok {
            Seq::new(self.tried(entries.len()), |i: int| StandaloneCall::Insert(entries[i]))
        } else {
            seq![]
        }
    }
}

/// Closes the ledger: the state, then the transactions one by one. Only when all of it is in the
/// ledger is any of it told.
pub fn commit_standalone(
    entries: &Vec<AcceptedEntry>,
    closed_seq: u32,
    run: &CommitRun,
    calls: &mut Vec<StandaloneCall>,
) -> (r: Result<Vec<InLedger>, BuildError>)
    ensures
        match run.fault(entries@) {
            Some(fault) => r matches Err(error) && error == fault,
            None => r matches Ok(list) && list@ == told(entries@, closed_seq),
        },
        final(calls)@ == old(calls)@ + run.calls(entries@),
{
    calls.push(StandaloneCall::CommitState);
    if let Err(error) = run.state {
        assert(calls@ =~= old(calls)@ + run.calls(entries@));
        return Err(BuildError::StateCommit { error });
    }
    let ghost start = calls@;
    let ghost inserts = Seq::new(entries@.len(), |k: int| StandaloneCall::Insert(entries@[k]));
    let mut i: usize = 0;
    while i < entries.len()
        invariant
            i <= entries@.len(),
            run.state is Ok,
            inserts == Seq::new(entries@.len(), |k: int| StandaloneCall::Insert(entries@[k])),
            start == old(calls)@.push(StandaloneCall::CommitState),
            calls@ == start + inserts.take(i as int),
            run.failed_insert matches Some(failed) ==> i <= failed.position,
        decreases entries@.len() - i,
    {
        calls.push(StandaloneCall::Insert(entries[i]));
        assert(calls@ =~= start + inserts.take(i as int + 1));
        if let Some(failed) = run.failed_insert {
            if failed.position == i {
                assert(calls@ =~= old(calls)@ + run.calls(entries@));
                return Err(
                    BuildError::Insert {
                        transaction_id: entries[i].transaction_id,
                        error: failed.error,
                    },
                );
            }
        }
        i = i + 1;
    }
    assert(calls@ =~= old(calls)@ + run.calls(entries@));
    Ok(announcements(entries, closed_seq))
}

/// One thing that is done once a node has closed a ledger by itself.
#[derive(Clone, Copy, Debug, PartialEq, Eq, Structural)]
pub enum StandaloneEffect {
    ProcessQueue,
    NotifyClosed,
    NotifyPublished,
    NotifyValidated,
    PromoteMode,
    SweepLocalTransactions,
    Save,
    ClearAccountSeqs,
    RebuildOpenLedger,
    SetCurrentIndex(u32),
    SetQueueReport,
}

pub open spec fn swept(replayed: bool) -> Seq<StandaloneEffect> {
    if replayed {
        seq![StandaloneEffect::SweepLocalTransactions]
    } else {
        Seq::empty()
    }
}

pub open spec fn spec_standalone_effects(closed_seq: u32, replayed: bool) -> Seq<StandaloneEffect> {
    seq![
        StandaloneEffect::ProcessQueue,
        StandaloneEffect::NotifyClosed,
        StandaloneEffect::NotifyPublished,
        StandaloneEffect::NotifyValidated,
        StandaloneEffect::PromoteMode,
    ] + swept(replayed) + seq![
        StandaloneEffect::Save,
        StandaloneEffect::ClearAccountSeqs,
        StandaloneEffect::RebuildOpenLedger,
        StandaloneEffect::SetCurrentIndex(following(closed_seq)),
        StandaloneEffect::SetQueueReport,
    ]
}

/// What is asked for once a node has closed a ledger by itself.
pub open spec fn effect_calls(closed_seq: u32, replayed: bool) -> Seq<StandaloneCall> {
    spec_standalone_effects(closed_seq, replayed).map_values(
        |effect: StandaloneEffect| StandaloneCall::Effect(effect),
    )
}

/// What is done once a node has closed a ledger by itself, in order: the ledger is shown before it
/// is saved, and its transactions leave those that wait before the open ledger is built anew.
pub fn standalone_effects(closed_seq: u32, replayed: bool, calls: &mut Vec<StandaloneCall>)
    ensures
        final(calls)@ == old(calls)@ + effect_calls(closed_seq, replayed),
{
    calls.push(StandaloneCall::Effect(StandaloneEffect::ProcessQueue));
    calls.push(StandaloneCall::Effect(StandaloneEffect::NotifyClosed));
    calls.push(StandaloneCall::Effect(StandaloneEffect::NotifyPublished));
    calls.push(StandaloneCall::Effect(StandaloneEffect::NotifyValidated));
    calls.push(StandaloneCall::Effect(StandaloneEffect::PromoteMode));
    if replayed {
        calls.push(StandaloneCall::Effect(StandaloneEffect::SweepLocalTransactions));
    }
    calls.push(StandaloneCall::Effect(StandaloneEffect::Save));
    calls.push(StandaloneCall::Effect(StandaloneEffect::ClearAccountSeqs));
    calls.push(StandaloneCall::Effect(StandaloneEffect::RebuildOpenLedger));
    calls.push(
        StandaloneCall::Effect(StandaloneEffect::SetCurrentIndex(next_open_index(closed_seq))),
    );
    calls.push(StandaloneCall::Effect(StandaloneEffect::SetQueueReport));
    assert(calls@ =~= old(calls)@ + effect_calls(closed_seq, replayed));
}

/// The sequence of the next open ledger.
pub fn next_open_index(closed_seq: u32) -> (r: u32)
    ensures
        r == following(closed_seq),
{
    closed_seq.saturating_add(1)
}

/// What the node answers while it closes a ledger by itself. Each answer counts only where the
/// question comes up.
pub struct StandaloneRun {
    pub standalone: bool,
    pub network_id: u32,
    /// The sequence of the open ledger, and those of the last closed and the last validated one.
    pub current: u32,
    pub closed_seq: Option<u32>,
    pub validated_seq: Option<u32>,
    pub close_time: u32,
    /// The last closed and the last validated ledger, and the hash of one made up for want of both.
    pub closed: Option<LedgerPoint>,
    pub validated: Option<LedgerPoint>,
    pub first_hash: Uint256,
    /// Bringing in what is held back left a set to process.
    pub set_to_process: bool,
    /// One attempt for each transaction of the open ledger, in their order.
    pub attempts: Vec<ReplayAttempt>,
    pub commit: CommitRun,
}

impl StandaloneRun {
    /// The ledger to build on: the last closed one, the last validated one, or one made up.
    pub open spec fn spec_parent(self) -> LedgerPoint {
        match (self.closed, self.validated) {
            (Some(point), _) => point,
            (None, Some(point)) => point,
            (None, None) => LedgerPoint { hash: self.first_hash, seq: 1 },
        }
    }

    /// The sequence of the ledger that is closed.
    pub open spec fn spec_closes(self) -> u32 {
        if self.attempts@.len() == 0 {
            empty_close_seq(self.current, self.closed_seq, self.validated_seq)
        } else {
            following(self.spec_parent().seq)
        }
    }

    pub open spec fn spec_replayed(self) -> Replayed {
        replayed(
            self.attempts@,
            self.spec_closes(),
            self.network_id,
            self.attempts@.len() as int,
        )
    }

    /// Why the ledger could not be closed: the first transaction whose effects could not be kept, or
    /// the first thing that could not be put into the ledger.
    pub open spec fn fault(self) -> Option<BuildError> {
        match self.spec_replayed().fault {
            Some(fault) => Some(fault),
            None => if self.attempts@.len() == 0 {
                None
            } else {
                self.commit.fault(self.spec_replayed().entries)
            },
        }
    }

    /// What closing the ledger comes to: the sequence of the next open ledger.
    pub open spec fn outcome(self) -> Result<u32, StandaloneError> {
        if !self.standalone {
            Err(StandaloneError::NotStandalone)
        } else {
            match self.fault() {
                Some(fault) => Err(StandaloneError::Build(fault)),
                None => Ok(following(self.spec_closes())),
            }
        }
    }

    /// What is asked for before the transactions of the open ledger are known.
    pub open spec fn opening_calls(self) -> Seq<StandaloneCall> {
        (if self.closed is None && self.validated is None {
            seq![StandaloneCall::FirstLedger { seq: 1, close_time: 0 }]
        } else {
            seq![]
        }) + spec_standalone_opening(self.spec_parent().hash, self.set_to_process) + seq![
            StandaloneCall::ReadOpenTransactions,
        ]
    }

    pub open spec fn new_ledger_call(self) -> StandaloneCall {
        StandaloneCall::NewLedger { parent: self.spec_parent().hash, close_time: self.close_time }
    }

    pub open spec fn accepted_call(self) -> StandaloneCall {
        StandaloneCall::SetAccepted {
            close_time: self.close_time,
            close_resolution: 0,
            correct_close_time: true,
        }
    }

    /// What is asked for to make the ledger, up to a fault.
    pub open spec fn making_calls(self) -> Seq<StandaloneCall> {
        if self.attempts@.len() == 0 {
            seq![self.new_ledger_call(), self.accepted_call()]
        } else {
            seq![
                StandaloneCall::OpenState {
                    parent: self.spec_parent().hash,
                    close_time: self.close_time,
                },
            ] + self.spec_replayed().calls + if self.spec_replayed().fault is Some {
                seq![]
            } else {
                seq![self.new_ledger_call()] + self.commit.calls(self.spec_replayed().entries)
                    + if self.fault() is Some {
                    seq![]
                } else {
                    seq![self.accepted_call(), StandaloneCall::SetUnbacked]
                }
            }
        }
    }

    /// What is asked for once the ledger is made: its transactions are told, and it is shown.
    pub open spec fn showing_calls(self) -> Seq<StandaloneCall> {
        let network_id = self.network_id;
        told(self.spec_replayed().entries, self.spec_closes()).map_values(
            |entry: InLedger| StandaloneCall::TellInLedger { entry, network_id },
        ) + effect_calls(self.spec_closes(), self.attempts@.len() > 0)
    }

    /// All that is asked for, in order.
    pub open spec fn calls(self) -> Seq<StandaloneCall> {
        if !self.standalone {
            seq![]
        } else {
            self.opening_calls() + self.making_calls() + if self.fault() is Some {
                seq![]
            } else {
                self.showing_calls()
            }
        }
    }
}

fn open_close(run: &StandaloneRun, calls: &mut Vec<StandaloneCall>) -> (parent: LedgerPoint)
    ensures
        parent == run.spec_parent(),
        final(calls)@ == old(calls)@ + run.opening_calls(),
{
    let parent = match (run.closed, run.validated) {
        (Some(point), _) => point,
        (None, Some(point)) => point,
        (None, None) => {
            calls.push(StandaloneCall::FirstLedger { seq: 1, close_time: 0 });
            LedgerPoint { hash: run.first_hash, seq: 1 }
        },
    };
    standalone_opening(parent.hash, run.set_to_process, calls);
    calls.push(StandaloneCall::ReadOpenTransactions);
    assert(calls@ =~= old(calls)@ + run.opening_calls());
    parent
}

fn make_ledger(
    run: &StandaloneRun,
    parent: LedgerPoint,
    closed_seq: u32,
    calls: &mut Vec<StandaloneCall>,
) -> (r: Result<Vec<InLedger>, BuildError>)
    requires
        parent == run.spec_parent(),
        closed_seq == run.spec_closes(),
    ensures
        final(calls)@ == old(calls)@ + run.making_calls(),
        match run.fault() {
            Some(fault) => r matches Err(error) && error == fault,
            None => r matches Ok(list) && list@ == told(run.spec_replayed().entries, closed_seq),
        },
{
    let close_time: u32 = run.close_time;
    let accepted = StandaloneCall::SetAccepted {
        close_time,
        close_resolution: 0,
        correct_close_time: true,
    };
    if run.attempts.len() == 0 {
        calls.push(StandaloneCall::NewLedger { parent: parent.hash, close_time });
        calls.push(accepted);
        assert(calls@ =~= old(calls)@ + run.making_calls());
        let none: Vec<InLedger> = Vec::new();
        assert(none@ =~= told(run.spec_replayed().entries, closed_seq));
        return Ok(none);
    }
    calls.push(StandaloneCall::OpenState { parent: parent.hash, close_time });
    let entries = match replay_all(&run.attempts, closed_seq, run.network_id, calls) {
        Ok(entries) => entries,
        Err(fault) => {
            assert(calls@ =~= old(calls)@ + run.making_calls());
            return Err(fault);
        },
    };
    calls.push(StandaloneCall::NewLedger { parent: parent.hash, close_time });
    let list = match commit_standalone(&entries, closed_seq, &run.commit, calls) {
        Ok(list) => list,
        Err(fault) => {
            assert(calls@ =~= old(calls)@ + run.making_calls());
            return Err(fault);
        },
    };
    calls.push(accepted);
    calls.push(StandaloneCall::SetUnbacked);
    assert(calls@ =~= old(calls)@ + run.making_calls());
    Ok(list)
}

fn tell_all(list: &Vec<InLedger>, network_id: u32, calls: &mut Vec<StandaloneCall>)
    ensures
        final(calls)@ == old(calls)@ + list@.map_values(
            |entry: InLedger| StandaloneCall::TellInLedger { entry, network_id },
        ),
{
    let ghost start = calls@;
    let ghost all = list@.map_values(
        |entry: InLedger| StandaloneCall::TellInLedger { entry, network_id },
    );
    let mut i: usize = 0;
    assert(calls@ =~= start + all.take(0));
    while i < list.len()
        invariant
            i <= list@.len(),
            all == list@.map_values(
                |entry: InLedger| StandaloneCall::TellInLedger { entry, network_id },
            ),
            calls@ == start + all.take(i as int),
        decreases list@.len() - i,
    {
        calls.push(StandaloneCall::TellInLedger { entry: list[i], network_id });
        i = i + 1;
        assert(calls@ =~= start + all.take(i as int));
    }
    assert(all.take(i as int) =~= all);
}

/// Closes a ledger without a network, and gives the sequence of the next open one. What is asked for
/// on the way is added to the calls: nothing is shown of a ledger that could not be made whole.
pub fn accept_standalone_ledger(run: &StandaloneRun, calls: &mut Vec<StandaloneCall>) -> (r: Result<
    u32,
    StandaloneError,
>)
    ensures
        r == run.outcome(),
        final(calls)@ == old(calls)@ + run.calls(),
{
    if !run.standalone {
        assert(calls@ =~= old(calls)@ + run.calls());
        return Err(StandaloneError::NotStandalone);
    }
    let parent = open_close(run, calls);
    let closed_seq: u32 = match standalone_close(
        run.standalone,
        run.current,
        run.closed_seq,
        run.validated_seq,
        parent.seq,
        run.attempts.len(),
    ) {
        Ok(StandaloneClose::Empty { closed_seq }) => closed_seq,
        Ok(StandaloneClose::Replay { closed_seq }) => closed_seq,
        Err(error) => {
            return Err(error);
        },
    };
    let list = match make_ledger(run, parent, closed_seq, calls) {
        Ok(list) => list,
        Err(fault) => {
            assert(calls@ =~= old(calls)@ + run.calls());
            return Err(StandaloneError::Build(fault));
        },
    };
    tell_all(&list, run.network_id, calls);
    standalone_effects(closed_seq, run.attempts.len() > 0, calls);
    assert(calls@ =~= old(calls)@ + run.calls());
    Ok(next_open_index(closed_seq))
}

/// Something of the closed ledger is told or shown.
pub open spec fn shows(call: StandaloneCall) -> bool {
    call is TellInLedger || call is Effect
}

proof fn replaying_shows_nothing(
    attempts: Seq<ReplayAttempt>,
    closed_seq: u32,
    network_id: u32,
    n: int,
)
    ensures
        forall|i: int|
            0 <= i < replayed(attempts, closed_seq, network_id, n).calls.len() ==> !shows(
                #[trigger] replayed(attempts, closed_seq, network_id, n).calls[i],
            ),
    decreases n,
{
    if n > 0 {
        replaying_shows_nothing(attempts, closed_seq, network_id, n - 1);
    }
}

proof fn making_shows_nothing(run: StandaloneRun)
    ensures
        forall|i: int|
            0 <= i < (run.opening_calls() + run.making_calls()).len() ==> !shows(
                #[trigger] (run.opening_calls() + run.making_calls())[i],
            ),
{
    replaying_shows_nothing(
        run.attempts@,
        run.spec_closes(),
        run.network_id,
        run.attempts@.len() as int,
    );
    let making = run.making_calls();
    assert forall|i: int| 0 <= i < making.len() implies !shows(#[trigger] making[i]) by {
        let replay = run.spec_replayed().calls;
        if run.attempts@.len() > 0 && 1 <= i < 1 + replay.len() {
            assert(making[i] == replay[i - 1]);
        }
    }
    let opening = run.opening_calls();
    assert forall|i: int| 0 <= i < (opening + making).len() implies !shows(
        #[trigger] (opening + making)[i],
    ) by {
        if i >= opening.len() {
            assert((opening + making)[i] == making[i - opening.len()]);
        }
    }
}

/// Only a ledger that has been made whole is shown: where it could not be closed nothing of it is
/// told or shown, and otherwise not before everything that makes it has been done.
pub proof fn only_a_whole_ledger_is_shown(run: StandaloneRun)
    ensures
        run.outcome() is Err ==> forall|i: int|
            0 <= i < run.calls().len() ==> !shows(#[trigger] run.calls()[i]),
        forall|i: int, j: int|
            0 <= i < run.calls().len() && 0 <= j < run.calls().len() && shows(
                #[trigger] run.calls()[i],
            ) && !shows(#[trigger] run.calls()[j]) ==> j < i,
{
    making_shows_nothing(run);
    let made = run.opening_calls() + run.making_calls();
    let showing = run.showing_calls();
    let calls = run.calls();
    if run.standalone {
        if run.fault() is Some {
            assert(calls =~= made);
        } else {
            assert(calls =~= made + showing);
            assert forall|j: int| made.len() <= j < calls.len() implies shows(
                #[trigger] calls[j],
            ) by {
                assert(calls[j] == showing[j - made.len()]);
            }
            assert forall|i: int| 0 <= i < made.len() implies !shows(#[trigger] calls[i]) by {
                assert(calls[i] == made[i]);
            }
        }
    }
}

/// The number that closing a ledger gives is the one behind the ledger that was closed. It is made
/// the sequence of the open ledger, and every transaction is told to be in the closed one.
pub proof fn closing_leads_to_the_next_sequence(run: StandaloneRun, next: u32)
    requires
        run.outcome() == Ok::<u32, StandaloneError>(next),
    ensures
        next == following(run.spec_closes()),
        run.calls().contains(StandaloneCall::Effect(StandaloneEffect::SetCurrentIndex(next))),
        forall|i: int|
            0 <= i < run.calls().len() ==> (#[trigger] run.calls()[i] matches
                StandaloneCall::TellInLedger { entry, .. } ==> entry.ledger_seq
                == run.spec_closes()),
{
    making_shows_nothing(run);
    let made = run.opening_calls() + run.making_calls();
    let showing = run.showing_calls();
    let calls = run.calls();
    assert(calls =~= made + showing);
    let effects = spec_standalone_effects(run.spec_closes(), run.attempts@.len() > 0);
    let k = effects.len() - 2;
    assert(effects[k] == StandaloneEffect::SetCurrentIndex(next));
    let told_count = run.spec_replayed().entries.len();
    assert(calls[made.len() + told_count + k] == StandaloneCall::Effect(effects[k]));
    assert forall|i: int| 0 <= i < calls.len() implies (#[trigger] calls[i] matches
        StandaloneCall::TellInLedger { entry, .. } ==> entry.ledger_seq == run.spec_closes()) by {
        if i < made.len() {
            assert(calls[i] == made[i]);
            assert(!shows(made[i]));
        } else {
            assert(calls[i] == showing[i - made.len()]);
        }
    }
}

/// A ledger without transactions closes beyond everything that was closed or validated, unless
/// the sequences have run out.
pub proof fn empty_close_moves_on(current: u32, closed: Option<u32>, validated: Option<u32>)
    ensures
        empty_close_seq(current, closed, validated) >= 1,
        empty_close_seq(current, closed, validated) >= current,
        seq_or_zero(closed) < u32::MAX ==> empty_close_seq(current, closed, validated)
            > seq_or_zero(closed),
        seq_or_zero(validated) < u32::MAX ==> empty_close_seq(current, closed, validated)
            > seq_or_zero(validated),
{
}

/// A transaction that is not admitted leaves no trace in the ledger.
pub proof fn refused_leaves_no_trace(attempt: ReplayAttempt, entries: Seq<AcceptedEntry>)
    requires
        !admitted_with(attempt.preflight, attempt.preclaim).likely_to_claim_fee(),
    ensures
        attempt.fault() is None,
        attempt.joins(entries) == entries,
{
}

} // verus!
