//! The passes over the agreed transactions: what fails in a way that may heal is tried again.
use vstd::multiset::Multiset;
use vstd::prelude::*;
use crate::build::accepted::{
    AcceptedEntry, AppliedRun, BuildError, in_place, push_entry,
    stage_accepted_batch_inner_transactions, with_entry, with_inner,
};
use crate::ids::{Uint256, ViewError};
use crate::submit::batch::{AppliedBatchInnerTransaction, BatchApplyDestination, spec_followup};
use crate::submit::checks::{ShellFacts, SubmitTx};
use crate::submit::flags::ApplyFlags;
use crate::submit::outcome::{OuterRun, submit_outcome};
use crate::submit::shell::ShellRun;
use crate::ter::{Ter, admits_apply, is_tes_success};

verus! {

/// A transaction that has failed for good.
#[derive(Clone, Copy, Debug, PartialEq, Eq, Structural)]
pub struct FailedTx {
    pub transaction_id: Uint256,
    pub result: Ter,
}

/// What the parent ledger says about a transaction.
#[derive(Clone, Copy, Debug, PartialEq, Eq, Structural)]
pub enum InParent {
    /// There is no parent.
    NoParent,
    Absent,
    Held,
    Unreadable(ViewError),
}

/// One attempt at a transaction. Each answer counts only where the question comes up: the
/// preclaim only after a good preflight, the run only of a transaction that may be applied,
/// and whether to try again only of one that was not.
pub struct Attempt {
    pub in_parent: InParent,
    pub preflight: Ter,
    pub preclaim: Ter,
    pub run: AppliedRun,
    /// An entry of the ledger was already threaded by this transaction.
    pub replayed: bool,
    /// The result is one that may heal.
    pub retryable: bool,
}

/// What becomes of a transaction in one pass.
#[derive(Clone, Copy, Debug, PartialEq, Eq, Structural)]
pub enum Verdict {
    /// It was applied before, and is done with.
    Existing,
    /// It will be tried again.
    Retry,
    /// It has failed for good.
    Failed(Ter),
    /// It is part of the ledger.
    Accepted(Ter),
}

/// Whether a transaction may be applied at all.
pub open spec fn may_apply(preflight: Ter, preclaim: Ter) -> bool {
    preflight.success() && preclaim.likely_to_claim_fee()
}

impl Attempt {
    pub open spec fn attempt_result(self) -> Ter {
        if may_apply(self.preflight, self.preclaim) {
            self.run.result
        } else if self.preflight.success() {
            self.preclaim
        } else {
            self.preflight
        }
    }

    /// What becomes of the transaction in a pass; in the first one, what the parent holds is
    /// left out.
    pub open spec fn verdict(self, transaction_id: Uint256, first_pass: bool) -> Result<
        Verdict,
        BuildError,
    > {
        let applied = may_apply(self.preflight, self.preclaim) && self.run.applied;
        match self.in_parent {
            InParent::Unreadable(error) => Err(
                BuildError::ParentUnreadable { transaction_id, error },
            ),
            _ => if first_pass && self.in_parent == InParent::Held {
                Ok(Verdict::Existing)
            } else if applied && self.replayed {
                Ok(Verdict::Existing)
            } else if applied {
                match self.run.commit_fault(transaction_id) {
                    Some(fault) => Err(fault),
                    None => Ok(Verdict::Accepted(self.run.result)),
                }
            } else if self.retryable {
                Ok(Verdict::Retry)
            } else {
                Ok(Verdict::Failed(self.attempt_result()))
            },
        }
    }
}

/// What becomes of a transaction in a pass.
pub fn judge(attempt: &Attempt, transaction_id: Uint256, first_pass: bool) -> (r: Result<
    Verdict,
    BuildError,
>)
    ensures
        r == attempt.verdict(transaction_id, first_pass),
{
    if let InParent::Unreadable(error) = attempt.in_parent {
        return Err(BuildError::ParentUnreadable { transaction_id, error });
    }
    if first_pass && attempt.in_parent == InParent::Held {
        return Ok(Verdict::Existing);
    }
    let preflighted = is_tes_success(attempt.preflight);
    let admitted = preflighted && admits_apply(attempt.preclaim);
    if admitted && attempt.run.applied {
        if attempt.replayed {
            return Ok(Verdict::Existing);
        }
        return match attempt.run.commit_error(transaction_id) {
            Some(fault) => Err(fault),
            None => Ok(Verdict::Accepted(attempt.run.result)),
        };
    }
    let result = if admitted {
        attempt.run.result
    } else if preflighted {
        attempt.preclaim
    } else {
        attempt.preflight
    };
    if attempt.retryable {
        Ok(Verdict::Retry)
    } else {
        Ok(Verdict::Failed(result))
    }
}

/// A ledger being built.
pub struct LedgerBuild {
    pub closed_seq: u32,
    /// How many passes there may be.
    pub total_passes: usize,
    pub pass: usize,
    /// A transaction may still be held back for the next pass.
    pub certain_retry: bool,
    /// How many transactions this pass has put into the ledger.
    pub changes: usize,
    /// The transactions of this pass, and how many of them are through.
    pub pending: Vec<Uint256>,
    pub next: usize,
    /// Those that will be tried again.
    pub retries: Vec<Uint256>,
    /// Those that are done with, one way or the other.
    pub completed: Vec<Uint256>,
    pub failed: Vec<FailedTx>,
    pub accepted: Vec<AcceptedEntry>,
    /// No further pass begins.
    pub over: bool,
    /// The transactions that are held back are still to be brought in, for the open ledger on top
    /// of this one.
    pub held_for: Option<Uint256>,
}

/// A ledger being built, as plain sequences.
#[verifier::ext_equal]
pub struct BuildView {
    pub closed_seq: u32,
    pub total_passes: usize,
    pub pass: usize,
    pub certain_retry: bool,
    pub changes: int,
    pub pending: Seq<Uint256>,
    pub next: int,
    pub retries: Seq<Uint256>,
    pub completed: Seq<Uint256>,
    pub failed: Seq<FailedTx>,
    pub accepted: Seq<AcceptedEntry>,
    pub over: bool,
    pub held_for: Option<Uint256>,
}

/// What is to be done next.
#[derive(Clone, Copy, Debug, PartialEq, Eq, Structural)]
pub enum BuildStep {
    /// The transactions that are held back are to be brought in, for the open ledger on top of
    /// this one.
    BringInHeld(Uint256),
    /// This transaction is to be tried.
    Attempt(Uint256),
    /// The pass is through.
    EndPass,
    /// The ledger is complete.
    Done,
}

impl View for LedgerBuild {
    type V = BuildView;

    open spec fn view(&self) -> BuildView {
        BuildView {
            closed_seq: self.closed_seq,
            total_passes: self.total_passes,
            pass: self.pass,
            certain_retry: self.certain_retry,
            changes: self.changes as int,
            pending: self.pending@,
            next: self.next as int,
            retries: self.retries@,
            completed: self.completed@,
            failed: self.failed@,
            accepted: self.accepted@,
            over: self.over,
            held_for: self.held_for,
        }
    }
}

impl BuildView {
    pub open spec fn wf(self) -> bool {
        &&& 0 <= self.next <= self.pending.len()
        &&& 0 <= self.changes <= self.next
        &&& self.over ==> self.next == 0 && self.retries.len() == 0
        &&& !self.over ==> self.pass < self.total_passes
        &&& in_place(self.accepted)
        &&& self.held_for is Some ==> self.pass == 0 && self.next == 0 && self.completed.len() == 0
    }

    pub open spec fn step(self) -> BuildStep {
        if let Some(hash) = self.held_for {
            BuildStep::BringInHeld(hash)
        } else if self.over {
            BuildStep::Done
        } else if self.next < self.pending.len() {
            BuildStep::Attempt(self.pending[self.next])
        } else {
            BuildStep::EndPass
        }
    }

    /// The build once the transactions that are held back have been brought in.
    pub open spec fn with_held(self) -> BuildView {
        BuildView { held_for: None, ..self }
    }

    /// The build once the transaction at hand has come to a verdict. `inner` are the parts of an
    /// accepted batch.
    pub open spec fn settled(
        self,
        verdict: Verdict,
        inner: Seq<AppliedBatchInnerTransaction>,
    ) -> BuildView {
        let id = self.pending[self.next];
        let moved = BuildView { next: self.next + 1, ..self };
        match verdict {
            Verdict::Existing => BuildView { completed: self.completed.push(id), ..moved },
            Verdict::Retry => BuildView { retries: self.retries.push(id), ..moved },
            Verdict::Failed(result) => BuildView {
                completed: self.completed.push(id),
                failed: self.failed.push(FailedTx { transaction_id: id, result }),
                ..moved
            },
            Verdict::Accepted(result) => BuildView {
                completed: self.completed.push(id),
                accepted: with_inner(with_entry(self.accepted, id, result), inner),
                changes: self.changes + 1,
                ..moved
            },
        }
    }

    /// The build at the end of a pass.
    pub open spec fn passed(self, advance: bool, certain_retry: bool) -> BuildView {
        BuildView {
            pass: (self.pass + 1) as usize,
            certain_retry,
            changes: 0,
            pending: self.retries,
            next: 0,
            retries: Seq::empty(),
            over: !advance || self.pass + 1 >= self.total_passes || self.retries.len() == 0,
            ..self
        }
    }

    /// The transactions that the build still has in its hands, each as often as it was given:
    /// done with, to be tried again, or not yet tried.
    pub open spec fn carried(self) -> Multiset<Uint256> {
        self.completed.to_multiset().add(self.retries.to_multiset()).add(
            self.pending.skip(self.next).to_multiset(),
        )
    }
}

/// The sequence of the ledger being built: one after its parent.
pub fn closed_sequence(parent_seq: Option<u32>, closed_seq: u32) -> (r: u32)
    ensures
        r == (match parent_seq {
            Some(seq) => if seq < u32::MAX {
                (seq + 1) as u32
            } else {
                u32::MAX
            },
            None => closed_seq,
        }),
{
    match parent_seq {
        Some(seq) => seq.saturating_add(1),
        None => closed_seq,
    }
}

/// The ledger under the open one, for which transactions that are held back are brought in: the last
/// closed one, or else the validated one.
pub fn held_parent(closed: Option<Uint256>, validated: Option<Uint256>) -> (r: Uint256)
    ensures
        r == (match (closed, validated) {
            (Some(hash), _) => hash,
            (None, Some(hash)) => hash,
            (None, None) => Uint256::spec_zero(),
        }),
{
    match (closed, validated) {
        (Some(hash), _) => hash,
        (None, Some(hash)) => hash,
        (None, None) => Uint256::zero(),
    }
}

impl LedgerBuild {
    /// A ledger that holds nothing yet, and the transactions that it is to hold. `held_for` is the
    /// ledger under the open one, for which what is held back is brought in first.
    pub fn start(closed_seq: u32, held_for: Uint256, txns: Vec<Uint256>, total_passes: usize) -> (r:
        LedgerBuild)
        ensures
            r@.wf(),
            r@ == (BuildView {
                closed_seq,
                total_passes,
                pass: 0,
                certain_retry: true,
                changes: 0,
                pending: txns@,
                next: 0,
                retries: Seq::empty(),
                completed: Seq::empty(),
                failed: Seq::empty(),
                accepted: Seq::empty(),
                over: txns@.len() == 0 || total_passes == 0,
                held_for: Some(held_for),
            }),
    {
        let over = txns.len() == 0 || total_passes == 0;
        LedgerBuild {
            closed_seq,
            total_passes,
            pass: 0,
            certain_retry: true,
            changes: 0,
            pending: txns,
            next: 0,
            retries: Vec::new(),
            completed: Vec::new(),
            failed: Vec::new(),
            accepted: Vec::new(),
            over,
            held_for: Some(held_for),
        }
    }

    /// What was held back has been brought in.
    pub fn held_brought_in(&mut self)
        requires
            old(self)@.wf(),
            old(self)@.step() is BringInHeld,
        ensures
            final(self)@.wf(),
            final(self)@ == old(self)@.with_held(),
    {
        self.held_for = None;
        proof {
            assert(self@ =~= old(self)@.with_held());
        }
    }

    /// What is to be done next.
    pub fn step(&self) -> (r: BuildStep)
        requires
            self@.wf(),
        ensures
            r == self@.step(),
    {
        if let Some(hash) = self.held_for {
            BuildStep::BringInHeld(hash)
        } else if self.over {
            BuildStep::Done
        } else if self.next < self.pending.len() {
            BuildStep::Attempt(self.pending[self.next])
        } else {
            BuildStep::EndPass
        }
    }

    /// Takes in one attempt at the transaction at hand. An error ends the build; it is told and
    /// nothing else changes.
    pub fn settle(&mut self, attempt: &Attempt) -> (r: Result<Verdict, BuildError>)
        requires
            old(self)@.wf(),
            old(self)@.step() is Attempt,
        ensures
            final(self)@.wf(),
            r == attempt.verdict(old(self)@.pending[old(self)@.next], old(self)@.pass == 0),
            match r {
                Ok(verdict) => final(self)@ == old(self)@.settled(verdict, attempt.run.inner@),
                Err(_) => final(self)@ == old(self)@,
            },
    {
        let count: usize = self.pending.len();
        assert(self.next < count);
        let id = self.pending[self.next];
        let verdict = match judge(attempt, id, self.pass == 0) {
            Ok(verdict) => verdict,
            Err(error) => return Err(error),
        };
        match verdict {
            Verdict::Existing => {
                self.completed.push(id);
            },
            Verdict::Retry => {
                self.retries.push(id);
            },
            Verdict::Failed(result) => {
                self.completed.push(id);
                self.failed.push(FailedTx { transaction_id: id, result });
            },
            Verdict::Accepted(result) => {
                self.changes = self.changes + 1;
                self.completed.push(id);
                push_entry(&mut self.accepted, id, result);
                stage_accepted_batch_inner_transactions(&mut self.accepted, &attempt.run.inner);
            },
        }
        self.next = self.next + 1;
        proof {
            assert(self@ =~= old(self)@.settled(verdict, attempt.run.inner@));
        }
        Ok(verdict)
    }

    /// Ends a pass. `advance` says whether another one is worth it, and `certain_retry` whether
    /// a transaction may be held back in it.
    pub fn end_pass(&mut self, advance: bool, certain_retry: bool)
        requires
            old(self)@.wf(),
            old(self)@.step() is EndPass,
        ensures
            final(self)@.wf(),
            final(self)@ == old(self)@.passed(advance, certain_retry),
    {
        let mut taken: Vec<Uint256> = Vec::new();
        std::mem::swap(&mut taken, &mut self.retries);
        self.pending = taken;
        self.next = 0;
        self.changes = 0;
        self.pass = self.pass + 1;
        self.certain_retry = certain_retry;
        self.over = !advance || self.pass >= self.total_passes || self.pending.len() == 0;
        proof {
            assert(self@ =~= old(self)@.passed(advance, certain_retry));
        }
    }
}

proof fn nothing_counts_nothing()
    ensures
        Seq::<Uint256>::empty().to_multiset() == Multiset::<Uint256>::empty(),
{
    let none = Seq::<Uint256>::empty();
    vstd::seq_lib::to_multiset_len(none);
    vstd::multiset::lemma_multiset_empty_len(none.to_multiset());
}

proof fn skipping_one(s: Seq<Uint256>, i: int)
    requires
        0 <= i < s.len(),
    ensures
        s.skip(i).to_multiset() == s.skip(i + 1).to_multiset().insert(s[i]),
{
    assert(s.skip(i) =~= s.skip(i + 1).insert(0, s[i]));
    vstd::seq_lib::to_multiset_insert(s.skip(i + 1), 0, s[i]);
}

/// Nothing is lost and nothing comes twice: whatever a transaction comes to, the build has the
/// same transactions in its hands as before.
pub proof fn settling_loses_nothing(
    build: BuildView,
    verdict: Verdict,
    inner: Seq<AppliedBatchInnerTransaction>,
)
    requires
        build.wf(),
        build.step() is Attempt,
    ensures
        build.settled(verdict, inner).carried() == build.carried(),
{
    let id = build.pending[build.next];
    skipping_one(build.pending, build.next);
    vstd::seq_lib::to_multiset_build(build.completed, id);
    vstd::seq_lib::to_multiset_build(build.retries, id);
    assert(build.settled(verdict, inner).carried() =~= build.carried());
}

/// The end of a pass loses nothing either.
pub proof fn passing_loses_nothing(build: BuildView, advance: bool, certain_retry: bool)
    requires
        build.wf(),
        build.step() is EndPass,
    ensures
        build.passed(advance, certain_retry).carried() == build.carried(),
{
    assert(build.pending.skip(build.next) =~= Seq::<Uint256>::empty());
    assert(build.retries.skip(0) =~= build.retries);
    let after = build.passed(advance, certain_retry);
    assert(after.carried() =~= build.carried());
}

/// A new build has in its hands what it was given.
pub proof fn starting_carries_everything(build: BuildView, txns: Seq<Uint256>)
    requires
        build.pending == txns,
        build.next == 0,
        build.retries.len() == 0,
        build.completed.len() == 0,
    ensures
        build.carried() == txns.to_multiset(),
{
    assert(txns.skip(0) =~= txns);
    assert(build.retries =~= Seq::<Uint256>::empty());
    assert(build.completed =~= Seq::<Uint256>::empty());
    nothing_counts_nothing();
    assert(build.carried() =~= txns.to_multiset());
}

/// Once the ledger is complete, every transaction that was given is either done with or left for
/// the next ledger, as often as it was given.
pub proof fn complete_build_accounts_for_all(build: BuildView)
    requires
        build.wf(),
        build.step() is Done,
    ensures
        build.carried() == build.completed.to_multiset().add(build.pending.to_multiset()),
{
    assert(build.pending.skip(0) =~= build.pending);
    assert(build.retries =~= Seq::<Uint256>::empty());
    nothing_counts_nothing();
    assert(build.carried() =~= build.completed.to_multiset().add(build.pending.to_multiset()));
}

/// Every step brings the end nearer: a pass ends after as many attempts as it has transactions,
/// and there is no pass beyond the last.
pub proof fn every_step_leads_on(
    build: BuildView,
    verdict: Verdict,
    inner: Seq<AppliedBatchInnerTransaction>,
    advance: bool,
    certain_retry: bool,
)
    requires
        build.wf(),
    ensures
        build.step() is BringInHeld ==> !(build.with_held().step() is BringInHeld)
            && build.with_held().carried() == build.carried(),
        build.step() is Attempt ==> ({
            let after = build.settled(verdict, inner);
            after.pass == build.pass && after.pending == build.pending && after.next == build.next
                + 1
        }),
        build.step() is EndPass ==> ({
            let after = build.passed(advance, certain_retry);
            after.pass == build.pass + 1 && (after.over || after.pass < after.total_passes)
        }),
{
}

/// A batch brings its inside along: behind a batch that is accepted stand those of its transactions
/// that applying it left, each with its own result, and no others.
pub proof fn accepted_batch_brings_its_inside(
    build: BuildView,
    tx: SubmitTx,
    facts: ShellFacts,
    flags: ApplyFlags,
    run: ShellRun,
    outer: OuterRun,
    applied: AppliedRun,
)
    requires
        applied.is_of(submit_outcome(tx, facts, flags, run, outer), applied.commit),
        applied.prebuilt,
    ensures
        ({
            let id = build.pending[build.next];
            let verdict = Verdict::Accepted(applied.result);
            build.settled(verdict, applied.inner@).accepted == with_inner(
                with_entry(build.accepted, id, applied.result),
                spec_followup(outer.batch, BatchApplyDestination::Closed).1,
            )
        }),
{
}

/// A transaction that the parent holds is not applied a second time in the first pass.
pub proof fn held_by_parent_is_done_with(attempt: Attempt, transaction_id: Uint256)
    requires
        attempt.in_parent == InParent::Held,
    ensures
        attempt.verdict(transaction_id, true) == Ok::<Verdict, BuildError>(Verdict::Existing),
{
}

/// Only what was admitted and applied, and is no repetition, becomes part of the ledger.
pub proof fn only_applied_is_accepted(attempt: Attempt, transaction_id: Uint256, first_pass: bool)
    requires
        attempt.verdict(transaction_id, first_pass) matches Ok(verdict) && verdict is Accepted,
    ensures
        may_apply(attempt.preflight, attempt.preclaim),
        attempt.run.applied,
        !attempt.replayed,
        attempt.run.commit is Ok,
{
}

} // verus!
