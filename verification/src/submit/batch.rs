//! Applying the transactions inside a batch.
use vstd::prelude::*;
use crate::ids::Uint256;
use crate::submit::calls::{Scope, ShellCall};
use crate::submit::checks::{ShellFacts, SubmitTx};
use crate::submit::flags::ApplyFlags;
use crate::submit::shell::{
    ShellRun, admission_result, admitted_with, apply_submit_transactor_shell_impl,
    captures_delivered_amount, forget_after_panic, shell_calls, shell_outcome, shell_wf,
    spec_captures_delivered_amount, up_to_panic, with_preclaim,
};
use crate::ter::{Ter, admits_apply, is_tes_success};

verus! {

/// Where the effects of a transaction go.
#[derive(Clone, Copy, Debug, PartialEq, Eq, Structural)]
pub enum BatchApplyDestination {
    Open,
    Closed,
    DryRun,
}

impl BatchApplyDestination {
    pub open spec fn spec_for_view(open: bool, flags: ApplyFlags) -> BatchApplyDestination {
        if flags.dry_run {
            BatchApplyDestination::DryRun
        } else if open {
            BatchApplyDestination::Open
        } else {
            BatchApplyDestination::Closed
        }
    }

    /// Where the effects go from a ledger that is open or closed.
    pub fn for_view(open: bool, flags: ApplyFlags) -> (r: BatchApplyDestination)
        ensures
            r == BatchApplyDestination::spec_for_view(open, flags),
    {
        if flags.dry_run {
            BatchApplyDestination::DryRun
        } else if open {
            BatchApplyDestination::Open
        } else {
            BatchApplyDestination::Closed
        }
    }

    /// Whether the effects are written down entry by entry.
    pub fn builds_metadata(self) -> (r: bool)
        ensures
            r == (self != BatchApplyDestination::Open),
    {
        matches!(self, BatchApplyDestination::Closed | BatchApplyDestination::DryRun)
    }
}

/// What holds between the transactions of a batch.
#[derive(Clone, Copy, Debug, PartialEq, Eq, Structural)]
pub struct BatchMode {
    pub all_or_nothing: bool,
    pub only_one: bool,
    pub until_failure: bool,
}

/// One inner transaction that has been run.
#[derive(Clone, Copy, Debug, PartialEq, Eq, Structural)]
pub struct InnerRun {
    pub result: Ter,
    /// Its effects could be written down.
    pub described: bool,
    /// Its effects could be put into the state of the batch.
    pub committed: bool,
}

/// How far a batch has come.
#[derive(Clone, Copy, Debug, PartialEq, Eq, Structural)]
pub enum BatchProgress {
    /// The next transaction is to be run.
    Running,
    /// No further transaction is run; what was applied stays.
    Stopped,
    /// Nothing of the batch stays, and that is as it should be.
    Discarded,
    /// Nothing of the batch stays, because the ledger failed.
    Failed,
}

impl InnerRun {
    pub open spec fn applied(self) -> bool {
        self.result.likely_to_claim_fee()
    }

    /// The ledger failed while the transaction was being applied.
    pub open spec fn broken(self, destination: BatchApplyDestination) -> bool {
        self.applied() && !(self.committed && (destination == BatchApplyDestination::Open
            || self.described))
    }

    /// How far the batch has come with this transaction.
    pub open spec fn leads_to(self, mode: BatchMode, destination: BatchApplyDestination) -> BatchProgress {
        if self.broken(destination) {
            BatchProgress::Failed
        } else if self.result.success() {
            if mode.only_one {
                BatchProgress::Stopped
            } else {
                BatchProgress::Running
            }
        } else if mode.all_or_nothing {
            BatchProgress::Discarded
        } else if mode.until_failure {
            BatchProgress::Stopped
        } else {
            BatchProgress::Running
        }
    }
}

/// How far the batch has come with one more transaction.
pub fn followup_step(
    run: &InnerRun,
    mode: BatchMode,
    destination: BatchApplyDestination,
) -> (r: BatchProgress)
    ensures
        r == run.leads_to(mode, destination),
{
    if admits_apply(run.result) {
        if destination.builds_metadata() && !run.described {
            return BatchProgress::Failed;
        }
        if !run.committed {
            return BatchProgress::Failed;
        }
    }
    if !is_tes_success(run.result) {
        if mode.all_or_nothing {
            return BatchProgress::Discarded;
        }
        if mode.until_failure {
            return BatchProgress::Stopped;
        }
    } else if mode.only_one {
        return BatchProgress::Stopped;
    }
    BatchProgress::Running
}

/// How far the batch has come after `n` transactions.
pub open spec fn progress_after(
    runs: Seq<InnerRun>,
    mode: BatchMode,
    destination: BatchApplyDestination,
    n: int,
) -> BatchProgress
    decreases n,
{
    if n <= 0 {
        BatchProgress::Running
    } else {
        let before = progress_after(runs, mode, destination, n - 1);
        if before == BatchProgress::Running {
            runs[n - 1].leads_to(mode, destination)
        } else {
            before
        }
    }
}

/// Which of the first `n` transactions were applied: an index each, in order.
pub open spec fn applied_among(
    runs: Seq<InnerRun>,
    mode: BatchMode,
    destination: BatchApplyDestination,
    n: int,
) -> Seq<usize>
    decreases n,
{
    if n <= 0 {
        Seq::empty()
    } else {
        let before = applied_among(runs, mode, destination, n - 1);
        if progress_after(runs, mode, destination, n - 1) == BatchProgress::Running
            && runs[n - 1].applied() && !runs[n - 1].broken(destination) {
            before.push((n - 1) as usize)
        } else {
            before
        }
    }
}

/// A transaction that was applied as a part of a batch, and what it came to.
#[derive(Clone, Copy, Debug, PartialEq, Eq, Structural)]
pub struct AppliedBatchInnerTransaction {
    pub transaction_id: Uint256,
    pub result: Ter,
}

/// What applying the inside of a batch came to, and the transactions that stay.
pub struct BatchFollowupOutcome {
    pub result: Ter,
    pub applied_inner_transactions: Vec<AppliedBatchInnerTransaction>,
}

pub open spec fn followup_result(
    runs: Seq<InnerRun>,
    mode: BatchMode,
    destination: BatchApplyDestination,
    whole_committed: bool,
) -> Ter {
    let end = progress_after(runs, mode, destination, runs.len() as int);
    let applied = applied_among(runs, mode, destination, runs.len() as int);
    if end == BatchProgress::Failed {
        Ter::TEF_INTERNAL
    } else if end == BatchProgress::Discarded || applied.len() == 0 || whole_committed {
        Ter::TES_SUCCESS
    } else {
        Ter::TEF_INTERNAL
    }
}

pub open spec fn followup_applied(
    runs: Seq<InnerRun>,
    mode: BatchMode,
    destination: BatchApplyDestination,
    whole_committed: bool,
) -> Seq<usize> {
    let end = progress_after(runs, mode, destination, runs.len() as int);
    if (end == BatchProgress::Running || end == BatchProgress::Stopped) && whole_committed {
        applied_among(runs, mode, destination, runs.len() as int)
    } else {
        Seq::empty()
    }
}

/// One transaction inside a batch, and what the ledger answers while it is applied on the state
/// that those before it left. Each answer counts only where the question comes up.
pub struct InnerTx {
    pub tx: SubmitTx,
    /// What was found of its fields, and of its place in the ledger.
    pub preflight: Ter,
    pub preclaim: Ter,
    pub facts: ShellFacts,
    pub run: ShellRun,
    /// Applying it panicked, with the last of so many calls.
    pub panicked: Option<usize>,
    /// Its handler told how much it delivered.
    pub delivered: Option<u64>,
    /// Its effects could be written down, and put into the state of the batch.
    pub described: bool,
    pub committed: bool,
}

/// The inside of a batch, or why it could not be taken apart.
pub struct BatchRun {
    pub inner: Result<Vec<InnerTx>, Ter>,
    pub mode: BatchMode,
    /// The state of the whole batch could be kept.
    pub whole_committed: bool,
}

/// How the transactions inside a batch are applied.
pub open spec fn spec_inner_flags(destination: BatchApplyDestination) -> ApplyFlags {
    ApplyFlags {
        batch: true,
        dry_run: destination == BatchApplyDestination::DryRun,
        ..ApplyFlags::spec_none()
    }
}

/// How the transactions inside a batch are applied.
pub fn inner_flags(destination: BatchApplyDestination) -> (r: ApplyFlags)
    ensures
        r == spec_inner_flags(destination),
{
    ApplyFlags {
        batch: true,
        dry_run: destination == BatchApplyDestination::DryRun,
        ..ApplyFlags::none()
    }
}

impl InnerTx {
    /// What was found before the transaction is applied.
    pub open spec fn found(&self) -> Ter {
        admitted_with(self.preflight, self.preclaim)
    }

    /// The transaction is applied at all.
    pub open spec fn is_applied(&self) -> bool {
        self.found().likely_to_claim_fee()
    }

    pub open spec fn wf(&self) -> bool {
        shell_wf(self.tx, with_preclaim(self.facts, self.found()), self.run)
    }

    /// What the transaction comes to: what was found against it, a failure where it panicked, or
    /// what applying it came to.
    pub open spec fn result(&self, destination: BatchApplyDestination) -> Ter {
        if !self.is_applied() {
            self.found()
        } else if self.panicked is Some {
            Ter::TEF_EXCEPTION
        } else {
            shell_outcome(
                self.tx,
                with_preclaim(self.facts, self.found()),
                spec_inner_flags(destination),
                self.run,
            ).result
        }
    }

    pub open spec fn as_run(&self, destination: BatchApplyDestination) -> InnerRun {
        InnerRun {
            result: self.result(destination),
            described: self.described,
            committed: self.committed,
        }
    }

    /// What the transaction delivered, where it tells.
    pub open spec fn delivered_amount(&self, destination: BatchApplyDestination) -> Option<u64> {
        if self.result(destination).success() && self.is_applied() && self.panicked is None
            && spec_captures_delivered_amount(self.tx.txn_type) {
            self.delivered
        } else {
            None
        }
    }

    /// What is asked for while the transaction is applied.
    pub open spec fn shell_part(&self, destination: BatchApplyDestination) -> Seq<ShellCall> {
        if self.is_applied() {
            up_to_panic(
                shell_calls(
                    self.tx,
                    with_preclaim(self.facts, self.found()),
                    spec_inner_flags(destination),
                    self.run,
                ),
                self.panicked,
            )
        } else {
            seq![]
        }
    }

    /// What is asked for to keep what the transaction did.
    pub open spec fn keep_part(&self, position: usize, destination: BatchApplyDestination) -> Seq<
        ShellCall,
    > {
        if !self.as_run(destination).applied() {
            seq![]
        } else if destination == BatchApplyDestination::Open {
            seq![ShellCall::Keep(Scope::Inner(position))]
        } else {
            let describe = ShellCall::Describe {
                inner: Some(position),
                delivered: self.delivered_amount(destination),
            };
            if self.described {
                seq![describe, ShellCall::Keep(Scope::Inner(position))]
            } else {
                seq![describe]
            }
        }
    }

    /// All that is asked for with the transaction, in order.
    pub open spec fn calls(&self, position: usize, destination: BatchApplyDestination) -> Seq<ShellCall> {
        seq![ShellCall::Open(Scope::Inner(position))] + self.shell_part(destination) + self.keep_part(
            position,
            destination,
        )
    }
}

pub open spec fn inner_runs(inner: Seq<InnerTx>, destination: BatchApplyDestination) -> Seq<InnerRun> {
    Seq::new(inner.len(), |i: int| inner[i].as_run(destination))
}

/// What is asked for with the first `n` transactions of a batch.
pub open spec fn calls_among(
    inner: Seq<InnerTx>,
    mode: BatchMode,
    destination: BatchApplyDestination,
    n: int,
) -> Seq<ShellCall>
    decreases n,
{
    if n <= 0 {
        seq![]
    } else {
        let before = calls_among(inner, mode, destination, n - 1);
        if progress_after(inner_runs(inner, destination), mode, destination, n - 1)
            == BatchProgress::Running {
            before + inner[n - 1].calls((n - 1) as usize, destination)
        } else {
            before
        }
    }
}

/// The transactions inside the batch can be applied.
pub open spec fn batch_wf(batch: BatchRun) -> bool {
    batch.inner matches Ok(inner) ==> forall|i: int|
        0 <= i < inner@.len() ==> (#[trigger] inner@[i]).wf()
}

/// The transactions at the given places, each with what it comes to.
pub open spec fn inner_at(
    inner: Seq<InnerTx>,
    destination: BatchApplyDestination,
    places: Seq<usize>,
) -> Seq<AppliedBatchInnerTransaction> {
    Seq::new(
        places.len(),
        |k: int|
            AppliedBatchInnerTransaction {
                transaction_id: inner[places[k] as int].tx.id,
                result: inner[places[k] as int].result(destination),
            },
    )
}

/// What the inside of a batch comes to: the result, and the transactions that stay.
pub open spec fn spec_followup(batch: BatchRun, destination: BatchApplyDestination) -> (
    Ter,
    Seq<AppliedBatchInnerTransaction>,
) {
    match batch.inner {
        Err(error) => (error, Seq::empty()),
        Ok(inner) => {
            let runs = inner_runs(inner@, destination);
            (
                followup_result(runs, batch.mode, destination, batch.whole_committed),
                inner_at(
                    inner@,
                    destination,
                    followup_applied(runs, batch.mode, destination, batch.whole_committed),
                ),
            )
        },
    }
}

/// What is asked for while the inside of a batch is applied, in order. The whole of it is kept
/// where something was applied.
pub open spec fn followup_calls(batch: BatchRun, destination: BatchApplyDestination) -> Seq<ShellCall> {
    let opened = seq![ShellCall::Open(Scope::Batch)];
    match batch.inner {
        Err(_) => opened,
        Ok(inner) => {
            let runs = inner_runs(inner@, destination);
            let end = progress_after(runs, batch.mode, destination, runs.len() as int);
            let asked = opened + calls_among(inner@, batch.mode, destination, inner@.len() as int);
            if (end == BatchProgress::Running || end == BatchProgress::Stopped) && applied_among(
                runs,
                batch.mode,
                destination,
                runs.len() as int,
            ).len() > 0 {
                asked.push(ShellCall::Keep(Scope::Batch))
            } else {
                asked
            }
        },
    }
}

fn run_inner(
    inner: &InnerTx,
    position: usize,
    destination: BatchApplyDestination,
    calls: &mut Vec<ShellCall>,
) -> (r: InnerRun)
    requires
        inner.wf(),
    ensures
        r == inner.as_run(destination),
        final(calls)@ == old(calls)@ + inner.calls(position, destination),
{
    let ghost start = calls@;
    calls.push(ShellCall::Open(Scope::Inner(position)));
    let found = admission_result(inner.preflight, inner.preclaim);
    let mut result = found;
    let mut delivered: Option<u64> = None;
    let before: usize = calls.len();
    let ghost opened = calls@;
    if admits_apply(found) {
        let mut facts = inner.facts;
        facts.preclaim_result = found;
        assert(facts == with_preclaim(inner.facts, found));
        let settled = apply_submit_transactor_shell_impl(
            &inner.tx,
            &facts,
            inner_flags(destination),
            &inner.run,
            calls,
        );
        proof {
            assert(calls@.take(before as int) =~= opened);
            assert(calls@.skip(before as int) =~= shell_calls(
                inner.tx,
                with_preclaim(inner.facts, inner.found()),
                spec_inner_flags(destination),
                inner.run,
            ));
        }
        forget_after_panic(calls, before, inner.panicked);
        if inner.panicked.is_some() {
            result = Ter::TEF_EXCEPTION;
        } else {
            result = settled.result;
            if captures_delivered_amount(inner.tx.txn_type) && is_tes_success(result) {
                delivered = inner.delivered;
            }
        }
    }
    assert(calls@ =~= opened + inner.shell_part(destination));
    if admits_apply(result) {
        let mut keeps = true;
        if destination.builds_metadata() {
            calls.push(ShellCall::Describe { inner: Some(position), delivered });
            keeps = inner.described;
        }
        if keeps {
            calls.push(ShellCall::Keep(Scope::Inner(position)));
        }
    }
    assert(calls@ =~= start + inner.calls(position, destination));
    InnerRun { result, described: inner.described, committed: inner.committed }
}

/// Applies the inside of a batch: its transactions one after the other, as far as its mode goes.
/// What is asked for on the way is added to the calls.
pub fn apply_submit_batch_followup(
    batch: &BatchRun,
    destination: BatchApplyDestination,
    calls: &mut Vec<ShellCall>,
) -> (r: BatchFollowupOutcome)
    requires
        batch_wf(*batch),
    ensures
        r.result == spec_followup(*batch, destination).0,
        r.applied_inner_transactions@ == spec_followup(*batch, destination).1,
        final(calls)@ == old(calls)@ + followup_calls(*batch, destination),
{
    calls.push(ShellCall::Open(Scope::Batch));
    let inner = match &batch.inner {
        Ok(inner) => inner,
        Err(error) => {
            return BatchFollowupOutcome {
                result: *error,
                applied_inner_transactions: Vec::new(),
            };
        },
    };
    let mode = batch.mode;
    let ghost runs = inner_runs(inner@, destination);
    let ghost start = calls@;
    let mut applied: Vec<AppliedBatchInnerTransaction> = Vec::new();
    let mut progress = BatchProgress::Running;
    let mut i: usize = 0;
    while i < inner.len() && matches!(progress, BatchProgress::Running)
        invariant
            i <= inner@.len(),
            runs == inner_runs(inner@, destination),
            forall|k: int| 0 <= k < inner@.len() ==> (#[trigger] inner@[k]).wf(),
            progress == progress_after(runs, mode, destination, i as int),
            applied@ == inner_at(
                inner@,
                destination,
                applied_among(runs, mode, destination, i as int),
            ),
            calls@ == start + calls_among(inner@, mode, destination, i as int),
        decreases inner@.len() - i,
    {
        let run = run_inner(&inner[i], i, destination, calls);
        assert(run == runs[i as int]);
        progress = followup_step(&run, mode, destination);
        if admits_apply(run.result) && !matches!(progress, BatchProgress::Failed) {
            applied.push(
                AppliedBatchInnerTransaction {
                    transaction_id: inner[i].tx.id,
                    result: run.result,
                },
            );
        }
        i = i + 1;
        assert(applied@ =~= inner_at(
            inner@,
            destination,
            applied_among(runs, mode, destination, i as int),
        ));
        assert(calls@ =~= start + calls_among(inner@, mode, destination, i as int));
    }
    proof {
        stopped_stays_stopped(runs, mode, destination, i as int, inner@.len() as int);
        calls_end_with_the_batch(inner@, mode, destination, i as int, inner@.len() as int);
    }
    let stays = matches!(progress, BatchProgress::Running | BatchProgress::Stopped);
    if stays && applied.len() > 0 {
        calls.push(ShellCall::Keep(Scope::Batch));
    }
    if matches!(progress, BatchProgress::Failed) || (stays && applied.len() > 0
        && !batch.whole_committed) {
        return BatchFollowupOutcome {
            result: Ter::TEF_INTERNAL,
            applied_inner_transactions: Vec::new(),
        };
    }
    if stays && batch.whole_committed {
        BatchFollowupOutcome { result: Ter::TES_SUCCESS, applied_inner_transactions: applied }
    } else {
        BatchFollowupOutcome { result: Ter::TES_SUCCESS, applied_inner_transactions: Vec::new() }
    }
}

proof fn calls_end_with_the_batch(
    inner: Seq<InnerTx>,
    mode: BatchMode,
    destination: BatchApplyDestination,
    n: int,
    m: int,
)
    requires
        0 <= n <= m,
        n == m || progress_after(inner_runs(inner, destination), mode, destination, n)
            != BatchProgress::Running,
    ensures
        calls_among(inner, mode, destination, m) == calls_among(inner, mode, destination, n),
    decreases m,
{
    if n < m {
        stopped_stays_stopped(inner_runs(inner, destination), mode, destination, n, m - 1);
        calls_end_with_the_batch(inner, mode, destination, n, m - 1);
    }
}

/// Once a batch is no longer running, further transactions change nothing.
pub proof fn stopped_stays_stopped(
    runs: Seq<InnerRun>,
    mode: BatchMode,
    destination: BatchApplyDestination,
    n: int,
    m: int,
)
    requires
        0 <= n <= m,
        n == m || progress_after(runs, mode, destination, n) != BatchProgress::Running,
    ensures
        progress_after(runs, mode, destination, m) == progress_after(runs, mode, destination, n),
        applied_among(runs, mode, destination, m) == applied_among(runs, mode, destination, n),
    decreases m,
{
    if n < m {
        stopped_stays_stopped(runs, mode, destination, n, m - 1);
    }
}

proof fn running_means_all_pass(
    runs: Seq<InnerRun>,
    mode: BatchMode,
    destination: BatchApplyDestination,
    n: int,
)
    requires
        0 <= n <= runs.len(),
        mode.all_or_nothing,
        progress_after(runs, mode, destination, n) == BatchProgress::Running,
    ensures
        forall|i: int| 0 <= i < n ==> (#[trigger] runs[i]).result.success(),
        applied_among(runs, mode, destination, n) =~= Seq::new(n as nat, |i: int| i as usize),
    decreases n,
{
    if n > 0 {
        running_means_all_pass(runs, mode, destination, n - 1);
    }
}

/// All or nothing: what stays of such a batch is either every transaction of it, all of them
/// successful, or none. This leaves out batches that are at the same time to stop at their first
/// success.
pub proof fn all_or_nothing_holds(
    runs: Seq<InnerRun>,
    mode: BatchMode,
    destination: BatchApplyDestination,
    whole_committed: bool,
)
    requires
        mode.all_or_nothing,
        !mode.only_one,
        runs.len() <= usize::MAX,
    ensures
        ({
            let applied = followup_applied(runs, mode, destination, whole_committed);
            applied.len() > 0 ==> applied.len() == runs.len() && forall|i: int|
                0 <= i < runs.len() ==> (#[trigger] runs[i]).result.success()
        }),
{
    let n = runs.len() as int;
    never_stopped(runs, mode, destination, n);
    if progress_after(runs, mode, destination, n) == BatchProgress::Running {
        running_means_all_pass(runs, mode, destination, n);
    }
}

proof fn never_stopped(
    runs: Seq<InnerRun>,
    mode: BatchMode,
    destination: BatchApplyDestination,
    n: int,
)
    requires
        0 <= n <= runs.len(),
        mode.all_or_nothing,
        !mode.only_one,
    ensures
        progress_after(runs, mode, destination, n) != BatchProgress::Stopped,
    decreases n,
{
    if n > 0 {
        never_stopped(runs, mode, destination, n - 1);
    }
}

proof fn applied_runs_are_applied(
    runs: Seq<InnerRun>,
    mode: BatchMode,
    destination: BatchApplyDestination,
    n: int,
)
    requires
        0 <= n <= runs.len() <= usize::MAX,
    ensures
        ({
            let applied = applied_among(runs, mode, destination, n);
            &&& forall|k: int|
                0 <= k < applied.len() ==> (#[trigger] applied[k]) < n
                    && runs[applied[k] as int].applied()
            &&& forall|k: int, l: int|
                0 <= k < l < applied.len() ==> (#[trigger] applied[k]) < (#[trigger] applied[l])
        }),
    decreases n,
{
    if n > 0 {
        applied_runs_are_applied(runs, mode, destination, n - 1);
        let before = applied_among(runs, mode, destination, n - 1);
        let applied = applied_among(runs, mode, destination, n);
        assert forall|k: int| 0 <= k < applied.len() implies (#[trigger] applied[k]) < n
            && runs[applied[k] as int].applied() by {
            if k < before.len() {
                assert(applied[k] == before[k]);
            }
        }
        assert forall|k: int, l: int| 0 <= k < l < applied.len() implies (#[trigger] applied[k]) < (
        #[trigger] applied[l]) by {
            assert(applied[k] == before[k]);
            if l < before.len() {
                assert(applied[l] == before[l]);
            }
        }
    }
}

/// Each transaction that stays of a batch is handed on under its own identifier, with its own result:
/// a success or a claimed fee.
pub proof fn inner_results_are_their_own(batch: BatchRun, destination: BatchApplyDestination, k: int)
    requires
        batch.inner matches Ok(inner) && inner@.len() <= usize::MAX,
        0 <= k < spec_followup(batch, destination).1.len(),
    ensures
        batch.inner matches Ok(inner) && {
            let runs = inner_runs(inner@, destination);
            let places = followup_applied(runs, batch.mode, destination, batch.whole_committed);
            let handed_on = spec_followup(batch, destination).1[k];
            &&& places.len() == spec_followup(batch, destination).1.len()
            &&& places[k] < inner@.len()
            &&& handed_on.transaction_id == inner@[places[k] as int].tx.id
            &&& handed_on.result == inner@[places[k] as int].result(destination)
            &&& handed_on.result.likely_to_claim_fee()
        },
{
    if let Ok(inner) = batch.inner {
        let runs = inner_runs(inner@, destination);
        followup_keeps_order(runs, batch.mode, destination, batch.whole_committed);
        let places = followup_applied(runs, batch.mode, destination, batch.whole_committed);
        assert(runs[places[k] as int].applied());
    }
}

/// What stays of a batch are transactions of it that were applied, in their order, each once.
pub proof fn followup_keeps_order(
    runs: Seq<InnerRun>,
    mode: BatchMode,
    destination: BatchApplyDestination,
    whole_committed: bool,
)
    requires
        runs.len() <= usize::MAX,
    ensures
        ({
            let applied = followup_applied(runs, mode, destination, whole_committed);
            &&& forall|k: int|
                0 <= k < applied.len() ==> (#[trigger] applied[k]) < runs.len()
                    && runs[applied[k] as int].applied()
            &&& forall|k: int, l: int|
                0 <= k < l < applied.len() ==> (#[trigger] applied[k]) < (#[trigger] applied[l])
        }),
{
    applied_runs_are_applied(runs, mode, destination, runs.len() as int);
}

proof fn at_most_one_success(
    runs: Seq<InnerRun>,
    mode: BatchMode,
    destination: BatchApplyDestination,
    n: int,
)
    requires
        mode.only_one,
        0 <= n <= runs.len() <= usize::MAX,
    ensures
        ({
            let applied = applied_among(runs, mode, destination, n);
            &&& progress_after(runs, mode, destination, n) == BatchProgress::Running
                ==> forall|k: int| 0 <= k < applied.len() ==> !runs[(#[trigger] applied[k]) as int].result.success()
            &&& forall|k: int|
                0 <= k < applied.len() - 1 ==> !runs[(#[trigger] applied[k]) as int].result.success()
        }),
    decreases n,
{
    if n > 0 {
        at_most_one_success(runs, mode, destination, n - 1);
    }
}

/// Only one: of such a batch at most one transaction is successful, and it is the last to stay.
pub proof fn only_one_holds(
    runs: Seq<InnerRun>,
    mode: BatchMode,
    destination: BatchApplyDestination,
    whole_committed: bool,
)
    requires
        mode.only_one,
        runs.len() <= usize::MAX,
    ensures
        ({
            let applied = followup_applied(runs, mode, destination, whole_committed);
            forall|k: int|
                0 <= k < applied.len() - 1 ==> !runs[(#[trigger] applied[k]) as int].result.success()
        }),
{
    at_most_one_success(runs, mode, destination, runs.len() as int);
}

proof fn successes_until_failure(
    runs: Seq<InnerRun>,
    mode: BatchMode,
    destination: BatchApplyDestination,
    n: int,
)
    requires
        mode.until_failure,
        0 <= n <= runs.len() <= usize::MAX,
    ensures
        ({
            let applied = applied_among(runs, mode, destination, n);
            &&& progress_after(runs, mode, destination, n) == BatchProgress::Running
                ==> applied.len() == n && forall|k: int|
                0 <= k < applied.len() ==> runs[(#[trigger] applied[k]) as int].result.success()
            &&& forall|k: int|
                0 <= k < applied.len() - 1 ==> runs[(#[trigger] applied[k]) as int].result.success()
            &&& forall|k: int| 0 <= k < applied.len() ==> (#[trigger] applied[k]) == k
        }),
    decreases n,
{
    if n > 0 {
        successes_until_failure(runs, mode, destination, n - 1);
    }
}

/// Until failure: what stays of such a batch is a front of it, in its order. Every transaction that
/// stays is successful, but for the last, which may be the failure that stopped it.
pub proof fn until_failure_holds(
    runs: Seq<InnerRun>,
    mode: BatchMode,
    destination: BatchApplyDestination,
    whole_committed: bool,
)
    requires
        mode.until_failure,
        runs.len() <= usize::MAX,
    ensures
        ({
            let applied = followup_applied(runs, mode, destination, whole_committed);
            &&& forall|k: int| 0 <= k < applied.len() ==> (#[trigger] applied[k]) == k
            &&& forall|k: int|
                0 <= k < applied.len() - 1 ==> runs[(#[trigger] applied[k]) as int].result.success()
        }),
{
    successes_until_failure(runs, mode, destination, runs.len() as int);
}

} // verus!
