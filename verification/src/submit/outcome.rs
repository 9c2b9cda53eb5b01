//! What the ledger keeps of a transaction in the end.
use vstd::prelude::*;
use crate::submit::batch::{
    AppliedBatchInnerTransaction, BatchApplyDestination, BatchRun, apply_submit_batch_followup,
    batch_wf, followup_calls, spec_followup,
};
use crate::submit::calls::{Scope, ShellCall};
use crate::submit::checks::{ShellFacts, SubmitTx};
use crate::submit::flags::{ApplyFlags, likely_to_claim_fee, spec_likely_to_claim_fee};
use crate::submit::settle::Settled;
use crate::submit::shell::{
    ShellRun, admission_result, admitted_with, apply_submit_transactor_shell_impl,
    captures_delivered_amount, forget_after_panic, shell_calls, shell_outcome, shell_wf,
    spec_captures_delivered_amount, up_to_panic, with_preclaim,
};
use crate::ter::{Ter, admits_apply, is_tec_claim, is_tes_success};
use crate::tx_type::TxType;

verus! {

pub open spec fn spec_submit_gate(
    tx: SubmitTx,
    preclaim: Ter,
    batch_preflight: Ter,
    batch_preclaim: Ter,
) -> Result<Ter, Ter> {
    if tx.txn_type != TxType::BATCH {
        if tx.inner_batch {
            Err(Ter::TEM_INVALID_INNER_BATCH)
        } else {
            Ok(preclaim)
        }
    } else if !batch_preflight.success() {
        Err(batch_preflight)
    } else if !preclaim.success() {
        Ok(preclaim)
    } else if batch_preclaim.likely_to_claim_fee() {
        Ok(batch_preclaim)
    } else {
        Err(batch_preclaim)
    }
}

/// What a transaction is let in with. A transaction of a batch never comes in by itself; a batch
/// is looked at as a whole first.
pub fn submit_gate(
    tx: &SubmitTx,
    preclaim: Ter,
    batch_preflight: Ter,
    batch_preclaim: Ter,
) -> (r: Result<Ter, Ter>)
    ensures
        r == spec_submit_gate(*tx, preclaim, batch_preflight, batch_preclaim),
{
    if tx.txn_type != TxType::BATCH && tx.inner_batch {
        return Err(Ter::TEM_INVALID_INNER_BATCH);
    }
    if tx.txn_type == TxType::BATCH {
        if !is_tes_success(batch_preflight) {
            return Err(batch_preflight);
        }
        if is_tes_success(preclaim) {
            if !admits_apply(batch_preclaim) {
                return Err(batch_preclaim);
            }
            return Ok(batch_preclaim);
        }
    }
    Ok(preclaim)
}

pub open spec fn persistent_cleanup(result: Ter) -> bool {
    result == Ter::TEC_OVERSIZE || result == Ter::TEC_KILLED || result == Ter::TEC_INCOMPLETE
        || result == Ter::TEC_EXPIRED
}

pub open spec fn spec_keeps_result(settled: Settled, flags: ApplyFlags) -> bool {
    let reset = settled.invariant_fee_reset && settled.result == Ter::TEC_INVARIANT_FAILED;
    &&& spec_likely_to_claim_fee(settled.result, flags) || persistent_cleanup(settled.result)
        || reset
    &&& !(settled.result.claim() && flags.fail_hard) || reset
}

/// Whether the ledger keeps what the transaction did. A claimed fee is kept unless the transaction
/// will be tried again or is to fail hard; what a cleanup removed is kept even if it will be
/// tried again, and a fee after a failed invariant in any case.
pub fn keeps_result(settled: &Settled, flags: ApplyFlags) -> (r: bool)
    ensures
        r == spec_keeps_result(*settled, flags),
{
    let result = settled.result;
    let fail_hard_tec = is_tec_claim(result) && flags.fail_hard;
    let persistent_cleanup_tec = matches!(
        result,
        Ter::TEC_OVERSIZE | Ter::TEC_KILLED | Ter::TEC_INCOMPLETE | Ter::TEC_EXPIRED
    );
    let invariant_fee_reset_applies = settled.invariant_fee_reset && result
        == Ter::TEC_INVARIANT_FAILED;
    (likely_to_claim_fee(result, flags) || persistent_cleanup_tec || invariant_fee_reset_applies)
        && (!fail_hard_tec || invariant_fee_reset_applies)
}

/// What the ledger answers around one transaction. Each answer counts only where the question
/// comes up.
pub struct OuterRun {
    pub batch_preflight: Ter,
    pub batch_preclaim: Ter,
    /// Applying the transaction panicked, with the last of so many calls.
    pub panicked: Option<usize>,
    /// The effects of a batch itself could be written down.
    pub described: bool,
    /// The transaction was put into what belongs to it, and that into the ledger.
    pub transaction_kept: bool,
    pub whole_kept: bool,
    /// The inside of a batch.
    pub batch: BatchRun,
    /// The handler told how much it delivered.
    pub delivered: Option<u64>,
}

/// What applying a transaction came to.
pub struct SubmitApplyOutcome {
    pub result: Ter,
    pub applied: bool,
    /// What was delivered, by the number under which the caller keeps the amount.
    pub delivered_amount: Option<u64>,
    /// The effects of a batch itself have been written down already.
    pub prebuilt_outer_metadata: bool,
    /// The transactions of a batch that were applied, each with what it came to.
    pub applied_batch_inner_transactions: Vec<AppliedBatchInnerTransaction>,
}

/// What applying a transaction came to, with the applied transactions as a sequence.
#[verifier::ext_equal]
pub struct SubmitOutcomeView {
    pub result: Ter,
    pub applied: bool,
    pub delivered_amount: Option<u64>,
    pub prebuilt_outer_metadata: bool,
    pub applied_batch_inner_transactions: Seq<AppliedBatchInnerTransaction>,
}

impl View for SubmitApplyOutcome {
    type V = SubmitOutcomeView;

    open spec fn view(&self) -> SubmitOutcomeView {
        SubmitOutcomeView {
            result: self.result,
            applied: self.applied,
            delivered_amount: self.delivered_amount,
            prebuilt_outer_metadata: self.prebuilt_outer_metadata,
            applied_batch_inner_transactions: self.applied_batch_inner_transactions@,
        }
    }
}

/// Nothing was applied.
pub open spec fn unapplied(ter: Ter) -> SubmitOutcomeView {
    SubmitOutcomeView {
        result: ter,
        applied: false,
        delivered_amount: None,
        prebuilt_outer_metadata: false,
        applied_batch_inner_transactions: Seq::empty(),
    }
}

fn not_applied(ter: Ter) -> (r: SubmitApplyOutcome)
    ensures
        r@ == unapplied(ter),
{
    let r = SubmitApplyOutcome {
        result: ter,
        applied: false,
        delivered_amount: None,
        prebuilt_outer_metadata: false,
        applied_batch_inner_transactions: Vec::new(),
    };
    assert(r@ =~= unapplied(ter));
    r
}

/// What a successful batch into a closed ledger comes to: first its own effects are kept, then
/// its inside is applied on top of them.
pub open spec fn closed_batch_outcome(outer: OuterRun) -> SubmitOutcomeView {
    let followup = spec_followup(outer.batch, BatchApplyDestination::Closed);
    if !outer.described || !outer.transaction_kept {
        unapplied(Ter::TEF_INTERNAL)
    } else if !followup.0.success() {
        unapplied(followup.0)
    } else if !outer.whole_kept {
        unapplied(Ter::TEF_INTERNAL)
    } else {
        SubmitOutcomeView {
            result: followup.0,
            applied: true,
            delivered_amount: None,
            prebuilt_outer_metadata: true,
            applied_batch_inner_transactions: followup.1,
        }
    }
}

/// What is asked for once a batch into a closed ledger has been successful itself.
pub open spec fn closed_batch_calls(outer: OuterRun) -> Seq<ShellCall> {
    seq![ShellCall::Describe { inner: None, delivered: None }] + if !outer.described {
        seq![]
    } else {
        seq![ShellCall::Keep(Scope::Transaction)] + if !outer.transaction_kept {
            seq![]
        } else {
            followup_calls(outer.batch, BatchApplyDestination::Closed) + if spec_followup(
                outer.batch,
                BatchApplyDestination::Closed,
            ).0.success() {
                seq![ShellCall::Keep(Scope::Whole)]
            } else {
                seq![]
            }
        }
    }
}

/// What every other transaction comes to.
pub open spec fn single_outcome(
    tx: SubmitTx,
    flags: ApplyFlags,
    settled: Settled,
    outer: OuterRun,
) -> SubmitOutcomeView {
    let kept = spec_keeps_result(settled, flags);
    let written = outer.transaction_kept && outer.whole_kept;
    let result = if kept && !written {
        Ter::TEF_INTERNAL
    } else {
        settled.result
    };
    SubmitOutcomeView {
        result,
        applied: kept && written && !flags.dry_run,
        delivered_amount: if result.success() && spec_captures_delivered_amount(tx.txn_type) {
            outer.delivered
        } else {
            None
        },
        prebuilt_outer_metadata: false,
        applied_batch_inner_transactions: Seq::empty(),
    }
}

/// What is asked for at the end of every other transaction.
pub open spec fn single_calls(flags: ApplyFlags, settled: Settled, outer: OuterRun) -> Seq<ShellCall> {
    if !spec_keeps_result(settled, flags) {
        seq![]
    } else if !outer.transaction_kept {
        seq![ShellCall::Keep(Scope::Transaction)]
    } else {
        seq![ShellCall::Keep(Scope::Transaction), ShellCall::Keep(Scope::Whole)]
    }
}

/// A batch whose own part was successful goes into a closed ledger.
pub open spec fn opens_batch(
    tx: SubmitTx,
    facts: ShellFacts,
    flags: ApplyFlags,
    settled: Settled,
) -> bool {
    settled.result.success() && tx.txn_type == TxType::BATCH && BatchApplyDestination::spec_for_view(
        facts.open,
        flags,
    ) == BatchApplyDestination::Closed
}

/// What applying a transaction comes to.
pub open spec fn submit_outcome(
    tx: SubmitTx,
    facts: ShellFacts,
    flags: ApplyFlags,
    run: ShellRun,
    outer: OuterRun,
) -> SubmitOutcomeView {
    match spec_submit_gate(tx, facts.preclaim_result, outer.batch_preflight, outer.batch_preclaim) {
        Err(ter) => unapplied(ter),
        Ok(preclaim) => {
            let settled = shell_outcome(tx, with_preclaim(facts, preclaim), flags, run);
            if outer.panicked is Some {
                unapplied(Ter::TEF_EXCEPTION)
            } else if opens_batch(tx, facts, flags, settled) {
                closed_batch_outcome(outer)
            } else {
                single_outcome(tx, flags, settled, outer)
            }
        },
    }
}

/// What is asked for while a transaction is applied, in order.
pub open spec fn submit_calls(
    tx: SubmitTx,
    facts: ShellFacts,
    flags: ApplyFlags,
    run: ShellRun,
    outer: OuterRun,
) -> Seq<ShellCall> {
    match spec_submit_gate(tx, facts.preclaim_result, outer.batch_preflight, outer.batch_preclaim) {
        Err(_) => seq![],
        Ok(preclaim) => {
            let settled = shell_outcome(tx, with_preclaim(facts, preclaim), flags, run);
            let asked = shell_calls(tx, with_preclaim(facts, preclaim), flags, run);
            seq![ShellCall::Open(Scope::Whole), ShellCall::Open(Scope::Transaction)]
                + if outer.panicked is Some {
                up_to_panic(asked, outer.panicked)
            } else if opens_batch(tx, facts, flags, settled) {
                asked + closed_batch_calls(outer)
            } else {
                asked + single_calls(flags, settled, outer)
            }
        },
    }
}

/// The transaction, and those of a batch, can be applied whichever way they are let in.
pub open spec fn submit_wf(tx: SubmitTx, facts: ShellFacts, run: ShellRun, outer: OuterRun) -> bool {
    &&& shell_wf(tx, facts, run)
    &&& shell_wf(tx, with_preclaim(facts, outer.batch_preclaim), run)
    &&& batch_wf(outer.batch)
}

fn apply_closed_batch(outer: &OuterRun, calls: &mut Vec<ShellCall>) -> (r: SubmitApplyOutcome)
    requires
        batch_wf(outer.batch),
    ensures
        r@ == closed_batch_outcome(*outer),
        final(calls)@ == old(calls)@ + closed_batch_calls(*outer),
{
    calls.push(ShellCall::Describe { inner: None, delivered: None });
    if !outer.described {
        return not_applied(Ter::TEF_INTERNAL);
    }
    calls.push(ShellCall::Keep(Scope::Transaction));
    if !outer.transaction_kept {
        return not_applied(Ter::TEF_INTERNAL);
    }
    let followup = apply_submit_batch_followup(&outer.batch, BatchApplyDestination::Closed, calls);
    if !is_tes_success(followup.result) {
        return not_applied(followup.result);
    }
    calls.push(ShellCall::Keep(Scope::Whole));
    if !outer.whole_kept {
        return not_applied(Ter::TEF_INTERNAL);
    }
    let r = SubmitApplyOutcome {
        result: followup.result,
        applied: true,
        delivered_amount: None,
        prebuilt_outer_metadata: true,
        applied_batch_inner_transactions: followup.applied_inner_transactions,
    };
    assert(r@ =~= closed_batch_outcome(*outer));
    r
}

fn apply_single(
    tx: &SubmitTx,
    flags: ApplyFlags,
    settled: &Settled,
    outer: &OuterRun,
    calls: &mut Vec<ShellCall>,
) -> (r: SubmitApplyOutcome)
    ensures
        r@ == single_outcome(*tx, flags, *settled, *outer),
        final(calls)@ == old(calls)@ + single_calls(flags, *settled, *outer),
{
    let mut result = settled.result;
    let mut applied = false;
    if keeps_result(settled, flags) {
        calls.push(ShellCall::Keep(Scope::Transaction));
        let mut written = false;
        if outer.transaction_kept {
            calls.push(ShellCall::Keep(Scope::Whole));
            written = outer.whole_kept;
        }
        if written {
            applied = !flags.dry_run;
        } else {
            result = Ter::TEF_INTERNAL;
        }
    }
    let delivered_amount = if captures_delivered_amount(tx.txn_type) && is_tes_success(result) {
        outer.delivered
    } else {
        None
    };
    let r = SubmitApplyOutcome {
        result,
        applied,
        delivered_amount,
        prebuilt_outer_metadata: false,
        applied_batch_inner_transactions: Vec::new(),
    };
    assert(r@ =~= single_outcome(*tx, flags, *settled, *outer));
    r
}

/// Applies a transaction, from the door to what the ledger keeps of it. What is asked for on the
/// way is added to the calls.
#[verifier::rlimit(60)]
pub fn apply_submit_transactor_shell_with_flags_batch_outcome_and_preclaim(
    tx: &SubmitTx,
    facts: &ShellFacts,
    flags: ApplyFlags,
    run: &ShellRun,
    outer: &OuterRun,
    calls: &mut Vec<ShellCall>,
) -> (r: SubmitApplyOutcome)
    requires
        submit_wf(*tx, *facts, *run, *outer),
    ensures
        r@ == submit_outcome(*tx, *facts, flags, *run, *outer),
        final(calls)@ == old(calls)@ + submit_calls(*tx, *facts, flags, *run, *outer),
{
    let preclaim = match submit_gate(
        tx,
        facts.preclaim_result,
        outer.batch_preflight,
        outer.batch_preclaim,
    ) {
        Ok(preclaim) => preclaim,
        Err(ter) => {
            return not_applied(ter);
        },
    };
    let mut facts_in = *facts;
    facts_in.preclaim_result = preclaim;
    assert(facts_in == with_preclaim(*facts, preclaim));
    calls.push(ShellCall::Open(Scope::Whole));
    calls.push(ShellCall::Open(Scope::Transaction));
    let ghost opened = calls@;
    let before: usize = calls.len();
    let settled = apply_submit_transactor_shell_impl(tx, &facts_in, flags, run, calls);
    if outer.panicked.is_some() {
        assert(calls@.take(before as int) =~= opened);
        assert(calls@.skip(before as int) =~= shell_calls(*tx, facts_in, flags, *run));
        forget_after_panic(calls, before, outer.panicked);
        return not_applied(Ter::TEF_EXCEPTION);
    }
    let destination = BatchApplyDestination::for_view(facts.open, flags);
    if is_tes_success(settled.result) && tx.txn_type == TxType::BATCH && destination
        == BatchApplyDestination::Closed {
        return apply_closed_batch(outer, calls);
    }
    apply_single(tx, flags, &settled, outer, calls)
}

/// Applies a transaction of which nothing was found before, and tells the result and what was
/// delivered.
pub fn apply_submit_transactor_shell_with_delivered_amount(
    tx: &SubmitTx,
    facts: &ShellFacts,
    run: &ShellRun,
    outer: &OuterRun,
    calls: &mut Vec<ShellCall>,
) -> (r: (Ter, Option<u64>))
    requires
        submit_wf(*tx, with_preclaim(*facts, Ter::TES_SUCCESS), *run, *outer),
    ensures
        ({
            let clean = with_preclaim(*facts, Ter::TES_SUCCESS);
            let o = submit_outcome(*tx, clean, ApplyFlags::spec_none(), *run, *outer);
            &&& r == (o.result, o.delivered_amount)
            &&& final(calls)@ == old(calls)@ + submit_calls(
                *tx,
                clean,
                ApplyFlags::spec_none(),
                *run,
                *outer,
            )
        }),
{
    let mut clean = *facts;
    clean.preclaim_result = Ter::TES_SUCCESS;
    assert(clean == with_preclaim(*facts, Ter::TES_SUCCESS));
    let o = apply_submit_transactor_shell_with_flags_batch_outcome_and_preclaim(
        tx,
        &clean,
        ApplyFlags::none(),
        run,
        outer,
        calls,
    );
    (o.result, o.delivered_amount)
}

/// Applies a transaction of which nothing was found before, under the given conditions.
pub fn apply_submit_transactor_shell_with_flags(
    tx: &SubmitTx,
    facts: &ShellFacts,
    flags: ApplyFlags,
    run: &ShellRun,
    outer: &OuterRun,
    calls: &mut Vec<ShellCall>,
) -> (r: Ter)
    requires
        submit_wf(*tx, with_preclaim(*facts, Ter::TES_SUCCESS), *run, *outer),
    ensures
        ({
            let clean = with_preclaim(*facts, Ter::TES_SUCCESS);
            &&& r == submit_outcome(*tx, clean, flags, *run, *outer).result
            &&& final(calls)@ == old(calls)@ + submit_calls(*tx, clean, flags, *run, *outer)
        }),
{
    let mut clean = *facts;
    clean.preclaim_result = Ter::TES_SUCCESS;
    assert(clean == with_preclaim(*facts, Ter::TES_SUCCESS));
    let o = apply_submit_transactor_shell_with_flags_batch_outcome_and_preclaim(
        tx,
        &clean,
        flags,
        run,
        outer,
        calls,
    );
    o.result
}

/// Applies a transaction of which nothing was found before.
pub fn apply_submit_transactor_shell(
    tx: &SubmitTx,
    facts: &ShellFacts,
    run: &ShellRun,
    outer: &OuterRun,
    calls: &mut Vec<ShellCall>,
) -> (r: Ter)
    requires
        submit_wf(*tx, with_preclaim(*facts, Ter::TES_SUCCESS), *run, *outer),
    ensures
        ({
            let clean = with_preclaim(*facts, Ter::TES_SUCCESS);
            &&& r == submit_outcome(*tx, clean, ApplyFlags::spec_none(), *run, *outer).result
            &&& final(calls)@ == old(calls)@ + submit_calls(
                *tx,
                clean,
                ApplyFlags::spec_none(),
                *run,
                *outer,
            )
        }),
{
    apply_submit_transactor_shell_with_flags(tx, facts, ApplyFlags::none(), run, outer, calls)
}

/// Applies a transaction without keeping anything of it. `preflight` is what was found of its
/// fields; what was found of its place in the ledger is among the facts.
pub fn apply_simulated_transaction(
    tx: &SubmitTx,
    preflight: Ter,
    facts: &ShellFacts,
    run: &ShellRun,
    outer: &OuterRun,
    calls: &mut Vec<ShellCall>,
) -> (r: (Ter, Option<u64>))
    requires
        submit_wf(
            *tx,
            with_preclaim(*facts, admitted_with(preflight, facts.preclaim_result)),
            *run,
            *outer,
        ),
    ensures
        ({
            let found = admitted_with(preflight, facts.preclaim_result);
            let flags = ApplyFlags::spec_dry_run();
            if found.likely_to_claim_fee() {
                let o = submit_outcome(*tx, with_preclaim(*facts, found), flags, *run, *outer);
                &&& r == (o.result, o.delivered_amount)
                &&& final(calls)@ == old(calls)@ + submit_calls(
                    *tx,
                    with_preclaim(*facts, found),
                    flags,
                    *run,
                    *outer,
                )
            } else {
                r == (found, None::<u64>) && final(calls)@ == old(calls)@
            }
        }),
{
    let found = admission_result(preflight, facts.preclaim_result);
    if !admits_apply(found) {
        return (found, None);
    }
    let mut facts_in = *facts;
    facts_in.preclaim_result = found;
    assert(facts_in == with_preclaim(*facts, found));
    let o = apply_submit_transactor_shell_with_flags_batch_outcome_and_preclaim(
        tx,
        &facts_in,
        ApplyFlags::dry_run(),
        run,
        outer,
        calls,
    );
    (o.result, o.delivered_amount)
}

/// A simulation is never applied.
pub proof fn dry_run_applies_nothing(
    tx: SubmitTx,
    facts: ShellFacts,
    flags: ApplyFlags,
    run: ShellRun,
    outer: OuterRun,
)
    requires
        flags.dry_run,
    ensures
        ({
            let r = submit_outcome(tx, facts, flags, run, outer);
            !r.applied && r.applied_batch_inner_transactions.len() == 0
        }),
{
}

/// A transaction that belongs into a batch is refused at the door.
pub proof fn inner_transactions_stay_out(
    tx: SubmitTx,
    facts: ShellFacts,
    flags: ApplyFlags,
    run: ShellRun,
    outer: OuterRun,
)
    requires
        tx.inner_batch,
        tx.txn_type != TxType::BATCH,
    ensures
        submit_outcome(tx, facts, flags, run, outer) == unapplied(Ter::TEM_INVALID_INNER_BATCH),
{
}

/// Only a success or a claimed fee is ever applied, and a claimed fee is not where it is to fail
/// hard, unless an invariant has failed.
pub proof fn applied_results(
    tx: SubmitTx,
    facts: ShellFacts,
    flags: ApplyFlags,
    run: ShellRun,
    outer: OuterRun,
)
    requires
        submit_outcome(tx, facts, flags, run, outer).applied,
    ensures
        ({
            let r = submit_outcome(tx, facts, flags, run, outer);
            &&& r.result.likely_to_claim_fee()
            &&& flags.fail_hard ==> r.result.success() || r.result == Ter::TEC_INVARIANT_FAILED
        }),
{
}

/// Into an open ledger, and into a simulation, goes only a batch itself: none of the transactions
/// inside it.
pub proof fn open_ledgers_take_no_inner(
    tx: SubmitTx,
    facts: ShellFacts,
    flags: ApplyFlags,
    run: ShellRun,
    outer: OuterRun,
)
    requires
        facts.open || flags.dry_run,
    ensures
        submit_outcome(tx, facts, flags, run, outer).applied_batch_inner_transactions.len() == 0,
        !submit_outcome(tx, facts, flags, run, outer).prebuilt_outer_metadata,
{
}

/// An ordinary claimed fee is not taken while the transaction will be tried again.
pub proof fn retry_takes_no_fee(
    tx: SubmitTx,
    facts: ShellFacts,
    flags: ApplyFlags,
    run: ShellRun,
    outer: OuterRun,
)
    requires
        flags.retry,
        submit_outcome(tx, facts, flags, run, outer).applied,
        !submit_outcome(tx, facts, flags, run, outer).result.success(),
    ensures
        ({
            let r = submit_outcome(tx, facts, flags, run, outer);
            persistent_cleanup(r.result) || r.result == Ter::TEC_INVARIANT_FAILED
        }),
{
}

} // verus!
