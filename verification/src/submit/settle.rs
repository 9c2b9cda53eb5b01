//! What the ledger keeps once the handler of a transaction has run.
use vstd::prelude::*;
use crate::ids::{AccountID, Key, Uint256};
use crate::limits::OVERSIZE_METADATA_CAP;
use crate::submit::calls::{InvariantScope, Scope, ShellCall, writes};
use crate::submit::cleanup::{
    CleanupPlan, CleanupRun, clean_up, cleanup_asks_for_removals, cleanup_plan, preserved_offer,
    spec_cleanup_plan, spec_preserved_offer,
};
use crate::submit::flags::{ApplyFlags, likely_to_claim_fee, spec_likely_to_claim_fee};
use crate::ter::{Ter, is_tec_claim, is_tef_failure, is_tem_malformed, is_tes_success};
use crate::tx_type::TxType;

verus! {

/// Whether the handler runs, or what stands in place of its result.
#[derive(Clone, Copy, Debug, PartialEq, Eq, Structural)]
pub enum ApplyStep {
    Dispatch,
    Settled(Ter),
}

pub open spec fn spec_next_step(fee: Ter, preclaim: Ter, offer: Ter, oracle: Ter) -> ApplyStep {
    if fee.claim() {
        ApplyStep::Settled(fee)
    } else if preclaim.claim() {
        ApplyStep::Settled(preclaim)
    } else if offer.claim() {
        ApplyStep::Settled(offer)
    } else if oracle.success() {
        ApplyStep::Dispatch
    } else {
        ApplyStep::Settled(oracle)
    }
}

/// The handler runs unless something before it has already claimed the fee: the fee itself, what
/// was found before, the check of an offer or that of an oracle, in this order.
pub fn next_step(fee: Ter, preclaim: Ter, offer: Ter, oracle: Ter) -> (r: ApplyStep)
    ensures
        r == spec_next_step(fee, preclaim, offer, oracle),
{
    if is_tec_claim(fee) {
        ApplyStep::Settled(fee)
    } else if is_tec_claim(preclaim) {
        ApplyStep::Settled(preclaim)
    } else if is_tec_claim(offer) {
        ApplyStep::Settled(offer)
    } else if is_tes_success(oracle) {
        ApplyStep::Dispatch
    } else {
        ApplyStep::Settled(oracle)
    }
}

/// The entries in ascending order, each once.
pub open spec fn ascending(keys: Seq<Uint256>) -> bool {
    forall|i: int, j: int|
        0 <= i < j < keys.len() ==> (#[trigger] keys[i]).rank() < (#[trigger] keys[j]).rank()
}

/// How many entries the transaction touched: before its handler, in it, or both.
pub fn transaction_item_count(preamble: &Vec<Uint256>, handler: &Vec<Uint256>) -> (count: usize)
    requires
        ascending(preamble@),
        ascending(handler@),
        preamble@.len() + handler@.len() <= usize::MAX,
    ensures
        count == preamble@.to_set().union(handler@.to_set()).len(),
{
    let mut i: usize = 0;
    let mut j: usize = 0;
    let mut count: usize = 0;
    let ghost mut seen: Set<Uint256> = Set::empty();
    while i < preamble.len() || j < handler.len()
        invariant
            ascending(preamble@),
            ascending(handler@),
            preamble@.len() + handler@.len() <= usize::MAX,
            i <= preamble@.len(),
            j <= handler@.len(),
            count <= i + j,
            seen.finite(),
            count == seen.len(),
            forall|k: int| 0 <= k < i ==> seen.contains(#[trigger] preamble@[k]),
            forall|k: int| 0 <= k < j ==> seen.contains(#[trigger] handler@[k]),
            forall|x: Uint256| #[trigger]
                seen.contains(x) ==> preamble@.contains(x) || handler@.contains(x),
            forall|x: Uint256, k: int|
                #[trigger] seen.contains(x) && i <= k < preamble@.len() ==> x.rank() < (
                #[trigger] preamble@[k]).rank(),
            forall|x: Uint256, k: int|
                #[trigger] seen.contains(x) && j <= k < handler@.len() ==> x.rank() < (
                #[trigger] handler@[k]).rank(),
        decreases preamble@.len() - i + handler@.len() - j,
    {
        let take_preamble = i < preamble.len() && (j >= handler.len() || !handler[j].precedes(
            &preamble[i],
        ));
        let take_handler = j < handler.len() && (i >= preamble.len() || !preamble[i].precedes(
            &handler[j],
        ));
        let ghost next = if take_preamble {
            preamble@[i as int]
        } else {
            handler@[j as int]
        };
        proof {
            if take_preamble && take_handler {
                preamble@[i as int].rank_is_injective(handler@[j as int]);
            }
            if seen.contains(next) {
                assert(next.rank() < next.rank());
            }
            seen = seen.insert(next);
            assert(preamble@.contains(next) || handler@.contains(next));
        }
        if take_preamble {
            i = i + 1;
        }
        if take_handler {
            j = j + 1;
        }
        count = count + 1;
    }
    proof {
        assert(seen =~= preamble@.to_set().union(handler@.to_set())) by {
            assert forall|x: Uint256| preamble@.contains(x) || handler@.contains(x) implies #[trigger] seen.contains(x) by {
                if preamble@.contains(x) {
                    let k = choose|k: int| 0 <= k < preamble@.len() && preamble@[k] == x;
                    assert(seen.contains(preamble@[k]));
                } else {
                    let k = choose|k: int| 0 <= k < handler@.len() && handler@[k] == x;
                    assert(seen.contains(handler@[k]));
                }
            }
        }
    }
    count
}

/// Whether the transaction touched more entries than it may.
pub fn exceeds_oversize_metadata_cap(item_count: usize) -> (r: bool)
    ensures
        r == (item_count > OVERSIZE_METADATA_CAP),
{
    item_count > OVERSIZE_METADATA_CAP
}

/// What follows the handler.
#[derive(Clone, Copy, Debug, PartialEq, Eq, Structural)]
pub enum AfterHandler {
    /// The account gets its sequence and its fee back; nothing of the transaction stays.
    Restore(Ter),
    /// The invariants are checked over everything that the handler did.
    CheckInvariants,
    /// The result stands as it is for now.
    Settle(Ter),
}

pub open spec fn spec_after_handler(result: Ter, item_count: nat) -> AfterHandler {
    if result.failure() || result.malformed() {
        AfterHandler::Restore(result)
    } else if item_count > OVERSIZE_METADATA_CAP {
        AfterHandler::Settle(Ter::TEC_OVERSIZE)
    } else if result.success() {
        AfterHandler::CheckInvariants
    } else {
        AfterHandler::Settle(result)
    }
}

/// What follows the handler. That too many entries were touched counts before the invariants.
pub fn after_handler(result: Ter, item_count: usize) -> (r: AfterHandler)
    ensures
        r == spec_after_handler(result, item_count as nat),
{
    if is_tef_failure(result) || is_tem_malformed(result) {
        return AfterHandler::Restore(result);
    }
    if exceeds_oversize_metadata_cap(item_count) {
        return AfterHandler::Settle(Ter::TEC_OVERSIZE);
    }
    if is_tes_success(result) {
        AfterHandler::CheckInvariants
    } else {
        AfterHandler::Settle(result)
    }
}

/// What is done with what the handler did.
#[derive(Clone, Copy, Debug, PartialEq, Eq, Structural)]
pub enum Settlement {
    /// It is dropped, and the invariants are checked again over the fee alone.
    Reset,
    /// It is kept.
    Commit,
    /// It is dropped; the invariants are checked over the fee alone where the fee is claimed.
    Discard { recheck: bool },
    /// It is dropped but for what is removed.
    Cleanup(CleanupPlan),
}

pub open spec fn spec_settlement(result: Ter, flags: ApplyFlags) -> Settlement {
    if result == Ter::TEC_INVARIANT_FAILED {
        Settlement::Reset
    } else if spec_cleanup_plan(result, flags).any() {
        Settlement::Cleanup(spec_cleanup_plan(result, flags))
    } else if result.success() {
        Settlement::Commit
    } else {
        Settlement::Discard {
            recheck: spec_likely_to_claim_fee(result, flags) && !flags.fail_hard,
        }
    }
}

/// What is done with what the handler did.
pub fn settlement(result: Ter, flags: ApplyFlags) -> (r: Settlement)
    ensures
        r == spec_settlement(result, flags),
{
    if result == Ter::TEC_INVARIANT_FAILED {
        return Settlement::Reset;
    }
    let plan = cleanup_plan(result, flags);
    if plan.has_any() {
        return Settlement::Cleanup(plan);
    }
    if is_tes_success(result) {
        Settlement::Commit
    } else {
        Settlement::Discard { recheck: likely_to_claim_fee(result, flags) && !flags.fail_hard }
    }
}

/// What the ledger and the invariants answer while a transaction is being settled. Each answer
/// counts only where the question comes up.
pub struct SettleRun {
    /// What the handler came to.
    pub handler: Ter,
    /// The entries that were touched before the handler, and in it.
    pub preamble_keys: Vec<Uint256>,
    pub handler_keys: Vec<Uint256>,
    /// The account got its sequence and its fee back.
    pub restored: bool,
    /// The invariants over everything that the handler did.
    pub invariants: Ter,
    /// The invariants over the fee alone.
    pub reset_invariants: Ter,
    /// What the handler did was put into the ledger.
    pub committed: bool,
    /// What the cleanup meets.
    pub cleanup: CleanupRun,
    /// The invariants over what the cleanup removed.
    pub cleanup_invariants: Ter,
    /// What the cleanup did was put into the ledger.
    pub cleanup_committed: bool,
}

/// What a transaction came to, and whether that is a claimed fee after an invariant has failed.
#[derive(Clone, Copy, Debug, PartialEq, Eq, Structural)]
pub struct Settled {
    pub result: Ter,
    pub invariant_fee_reset: bool,
}

/// The transaction that is being settled.
#[derive(Clone, Copy, Debug, PartialEq, Eq, Structural)]
pub struct SettleContext {
    pub account: AccountID,
    pub txn_type: TxType,
    /// The offer that the transaction was to replace.
    pub replaced_offer: Option<Uint256>,
    /// The fee that was taken.
    pub fee: i64,
    pub pre_fee_balance: Option<i64>,
}

impl SettleRun {
    pub open spec fn wf(&self) -> bool {
        &&& ascending(self.preamble_keys@)
        &&& ascending(self.handler_keys@)
        &&& self.preamble_keys@.len() + self.handler_keys@.len() <= usize::MAX
    }

    /// How many entries the transaction touched.
    pub open spec fn item_count(&self) -> nat {
        self.preamble_keys@.to_set().union(self.handler_keys@.to_set()).len()
    }
}

/// What the cleanup comes to.
pub open spec fn cleaned_up(
    result: Ter,
    plan: CleanupPlan,
    context: SettleContext,
    run: SettleRun,
    reset: bool,
) -> Settled {
    if run.cleanup.failed(plan, spec_preserved_offer(result, context.txn_type, context.replaced_offer)) {
        Settled { result: Ter::TEF_BAD_LEDGER, invariant_fee_reset: reset }
    } else if run.cleanup_invariants == Ter::TEC_INVARIANT_FAILED {
        Settled { result: run.reset_invariants, invariant_fee_reset: true }
    } else if run.cleanup_invariants.claim() && !run.cleanup_committed {
        Settled { result: Ter::TEF_INTERNAL, invariant_fee_reset: false }
    } else {
        Settled { result: run.cleanup_invariants, invariant_fee_reset: false }
    }
}

/// What is asked for in the cleanup.
pub open spec fn cleanup_calls(
    result: Ter,
    plan: CleanupPlan,
    context: SettleContext,
    run: SettleRun,
) -> Seq<ShellCall> {
    let preserved = spec_preserved_offer(result, context.txn_type, context.replaced_offer);
    seq![ShellCall::Drop(Scope::Handler), ShellCall::Open(Scope::Cleanup)] + run.cleanup.calls(
        plan,
        preserved,
    ) + if run.cleanup.failed(plan, preserved) {
        seq![]
    } else {
        seq![check_call(InvariantScope::Cleanup, result, context)]
            + if run.cleanup_invariants == Ter::TEC_INVARIANT_FAILED {
            seq![
                ShellCall::Drop(Scope::Cleanup),
                check_call(InvariantScope::Fee, run.cleanup_invariants, context),
            ]
        } else if run.cleanup_invariants.claim() {
            seq![ShellCall::Keep(Scope::Cleanup)]
        } else {
            seq![]
        }
    }
}

pub open spec fn check_call(scope: InvariantScope, result: Ter, context: SettleContext) -> ShellCall {
    ShellCall::CheckInvariants { scope, result, fee: context.fee }
}

/// What the transaction comes to, from the result that is to be settled.
pub open spec fn settled_as(
    result: Ter,
    flags: ApplyFlags,
    context: SettleContext,
    run: SettleRun,
    reset: bool,
) -> Settled {
    match spec_settlement(result, flags) {
        Settlement::Reset => Settled { result: run.reset_invariants, invariant_fee_reset: reset },
        Settlement::Commit => Settled {
            result: if run.committed {
                result
            } else {
                Ter::TEF_INTERNAL
            },
            invariant_fee_reset: reset,
        },
        Settlement::Discard { recheck } => Settled {
            result: if recheck {
                run.reset_invariants
            } else {
                result
            },
            invariant_fee_reset: reset,
        },
        Settlement::Cleanup(plan) => cleaned_up(result, plan, context, run, reset),
    }
}

/// What is asked for to settle a result.
pub open spec fn settled_calls(
    result: Ter,
    flags: ApplyFlags,
    context: SettleContext,
    run: SettleRun,
) -> Seq<ShellCall> {
    match spec_settlement(result, flags) {
        Settlement::Reset => seq![
            ShellCall::Drop(Scope::Handler),
            check_call(InvariantScope::Fee, result, context),
        ],
        Settlement::Commit => seq![ShellCall::Keep(Scope::Handler)],
        Settlement::Discard { recheck } => if recheck {
            seq![
                ShellCall::Drop(Scope::Handler),
                check_call(InvariantScope::Fee, result, context),
            ]
        } else {
            seq![ShellCall::Drop(Scope::Handler)]
        },
        Settlement::Cleanup(plan) => cleanup_calls(result, plan, context, run),
    }
}

/// What the handler came to, or what stands in place of that.
pub open spec fn first_result(step: ApplyStep, run: SettleRun) -> Ter {
    match step {
        ApplyStep::Dispatch => run.handler,
        ApplyStep::Settled(ter) => ter,
    }
}

/// What the transaction comes to.
pub open spec fn spec_settle(
    step: ApplyStep,
    flags: ApplyFlags,
    context: SettleContext,
    run: SettleRun,
) -> Settled {
    match spec_after_handler(first_result(step, run), run.item_count()) {
        AfterHandler::Restore(ter) => Settled {
            result: if run.restored {
                ter
            } else {
                Ter::TEF_BAD_LEDGER
            },
            invariant_fee_reset: false,
        },
        AfterHandler::CheckInvariants => settled_as(
            run.invariants,
            flags,
            context,
            run,
            run.invariants == Ter::TEC_INVARIANT_FAILED,
        ),
        AfterHandler::Settle(ter) => settled_as(ter, flags, context, run, false),
    }
}

/// What is asked for after the fee was taken, in order.
pub open spec fn settle_calls(
    step: ApplyStep,
    flags: ApplyFlags,
    context: SettleContext,
    run: SettleRun,
) -> Seq<ShellCall> {
    let dispatch = if step is Dispatch {
        seq![ShellCall::Dispatch { pre_fee_balance: context.pre_fee_balance }]
    } else {
        seq![]
    };
    match spec_after_handler(first_result(step, run), run.item_count()) {
        AfterHandler::Restore(_) => dispatch + seq![
            ShellCall::Drop(Scope::Handler),
            ShellCall::RestoreAccount { account: context.account },
        ],
        AfterHandler::CheckInvariants => dispatch.push(
            check_call(InvariantScope::Handler, first_result(step, run), context),
        ) + settled_calls(run.invariants, flags, context, run),
        AfterHandler::Settle(ter) => dispatch + settled_calls(ter, flags, context, run),
    }
}

fn settle_cleanup(
    result: Ter,
    plan: CleanupPlan,
    context: &SettleContext,
    run: &SettleRun,
    reset: bool,
    calls: &mut Vec<ShellCall>,
) -> (r: Settled)
    ensures
        r == cleaned_up(result, plan, *context, *run, reset),
        final(calls)@ == old(calls)@ + cleanup_calls(result, plan, *context, *run),
{
    let preserved = preserved_offer(result, context.txn_type, context.replaced_offer);
    calls.push(ShellCall::Drop(Scope::Handler));
    calls.push(ShellCall::Open(Scope::Cleanup));
    if clean_up(&run.cleanup, plan, preserved, calls) {
        return Settled { result: Ter::TEF_BAD_LEDGER, invariant_fee_reset: reset };
    }
    calls.push(
        ShellCall::CheckInvariants { scope: InvariantScope::Cleanup, result, fee: context.fee },
    );
    if run.cleanup_invariants == Ter::TEC_INVARIANT_FAILED {
        calls.push(ShellCall::Drop(Scope::Cleanup));
        calls.push(
            ShellCall::CheckInvariants {
                scope: InvariantScope::Fee,
                result: run.cleanup_invariants,
                fee: context.fee,
            },
        );
        return Settled { result: run.reset_invariants, invariant_fee_reset: true };
    }
    let mut result = run.cleanup_invariants;
    if is_tec_claim(result) {
        calls.push(ShellCall::Keep(Scope::Cleanup));
        if !run.cleanup_committed {
            result = Ter::TEF_INTERNAL;
        }
    }
    Settled { result, invariant_fee_reset: false }
}

fn settle_result(
    result: Ter,
    flags: ApplyFlags,
    context: &SettleContext,
    run: &SettleRun,
    reset: bool,
    calls: &mut Vec<ShellCall>,
) -> (r: Settled)
    ensures
        r == settled_as(result, flags, *context, *run, reset),
        final(calls)@ == old(calls)@ + settled_calls(result, flags, *context, *run),
{
    let fee: i64 = context.fee;
    match settlement(result, flags) {
        Settlement::Reset => {
            calls.push(ShellCall::Drop(Scope::Handler));
            calls.push(ShellCall::CheckInvariants { scope: InvariantScope::Fee, result, fee });
            Settled { result: run.reset_invariants, invariant_fee_reset: reset }
        },
        Settlement::Commit => {
            calls.push(ShellCall::Keep(Scope::Handler));
            let kept = if run.committed {
                result
            } else {
                Ter::TEF_INTERNAL
            };
            Settled { result: kept, invariant_fee_reset: reset }
        },
        Settlement::Discard { recheck } => {
            calls.push(ShellCall::Drop(Scope::Handler));
            if recheck {
                calls.push(ShellCall::CheckInvariants { scope: InvariantScope::Fee, result, fee });
                Settled { result: run.reset_invariants, invariant_fee_reset: reset }
            } else {
                Settled { result, invariant_fee_reset: reset }
            }
        },
        Settlement::Cleanup(plan) => settle_cleanup(result, plan, context, run, reset, calls),
    }
}

/// Settles a transaction. What is asked for on the way is added to the calls.
pub fn settle(
    step: ApplyStep,
    flags: ApplyFlags,
    context: &SettleContext,
    run: &SettleRun,
    calls: &mut Vec<ShellCall>,
) -> (r: Settled)
    requires
        run.wf(),
    ensures
        r == spec_settle(step, flags, *context, *run),
        final(calls)@ == old(calls)@ + settle_calls(step, flags, *context, *run),
{
    let first = match step {
        ApplyStep::Dispatch => {
            calls.push(ShellCall::Dispatch { pre_fee_balance: context.pre_fee_balance });
            run.handler
        },
        ApplyStep::Settled(ter) => ter,
    };
    let item_count: usize = transaction_item_count(&run.preamble_keys, &run.handler_keys);
    match after_handler(first, item_count) {
        AfterHandler::Restore(ter) => {
            calls.push(ShellCall::Drop(Scope::Handler));
            calls.push(ShellCall::RestoreAccount { account: context.account });
            let result = if run.restored {
                ter
            } else {
                Ter::TEF_BAD_LEDGER
            };
            Settled { result, invariant_fee_reset: false }
        },
        AfterHandler::CheckInvariants => {
            calls.push(
                ShellCall::CheckInvariants {
                    scope: InvariantScope::Handler,
                    result: first,
                    fee: context.fee,
                },
            );
            let reset = run.invariants == Ter::TEC_INVARIANT_FAILED;
            settle_result(run.invariants, flags, context, run, reset, calls)
        },
        AfterHandler::Settle(ter) => settle_result(ter, flags, context, run, false, calls),
    }
}

/// A transaction succeeds only if its handler did, touched no more than it may, kept every
/// invariant and was put into the ledger: provided that a check of the invariants never turns a
/// claimed fee into a success.
pub proof fn success_needs_every_step(
    step: ApplyStep,
    flags: ApplyFlags,
    context: SettleContext,
    run: SettleRun,
)
    requires
        !run.reset_invariants.success(),
        !run.cleanup_invariants.success(),
        step matches ApplyStep::Settled(ter) ==> !ter.success(),
        spec_settle(step, flags, context, run).result.success(),
    ensures
        step == ApplyStep::Dispatch,
        run.handler.success(),
        run.item_count() <= OVERSIZE_METADATA_CAP,
        run.invariants.success(),
        run.committed,
{
}

/// A failure or a malformed transaction leaves nothing behind: the account is put back, and
/// nothing is kept.
pub proof fn failure_is_undone(flags: ApplyFlags, context: SettleContext, run: SettleRun)
    requires
        run.handler.failure() || run.handler.malformed(),
        run.restored,
    ensures
        spec_settle(ApplyStep::Dispatch, flags, context, run) == (Settled {
            result: run.handler,
            invariant_fee_reset: false,
        }),
        settle_calls(ApplyStep::Dispatch, flags, context, run) == seq![
            ShellCall::Dispatch { pre_fee_balance: context.pre_fee_balance },
            ShellCall::Drop(Scope::Handler),
            ShellCall::RestoreAccount { account: context.account },
        ],
{
}

/// What a handler did is kept only where it was successful, touched no more than it may and kept
/// every invariant.
pub proof fn only_success_is_kept(
    step: ApplyStep,
    flags: ApplyFlags,
    context: SettleContext,
    run: SettleRun,
)
    requires
        settle_calls(step, flags, context, run).contains(ShellCall::Keep(Scope::Handler)),
    ensures
        first_result(step, run).success(),
        run.item_count() <= OVERSIZE_METADATA_CAP,
        run.invariants.success(),
{
    let calls = settle_calls(step, flags, context, run);
    let i = choose|i: int| 0 <= i < calls.len() && calls[i] == ShellCall::Keep(Scope::Handler);
    assert forall|result: Ter, plan: CleanupPlan, k: int|
        0 <= k < cleanup_calls(result, plan, context, run).len() implies #[trigger] cleanup_calls(
        result,
        plan,
        context,
        run,
    )[k] != ShellCall::Keep(Scope::Handler) by {
        let preserved = spec_preserved_offer(result, context.txn_type, context.replaced_offer);
        cleanup_asks_for_removals(run.cleanup, plan, preserved);
    }
    assert(calls[i] == ShellCall::Keep(Scope::Handler));
}

/// A transaction whose fee is claimed asks for nothing of its handler to be kept, and for no write
/// after the handler but the removals of a cleanup.
pub proof fn claimed_fee_drops_the_handler(
    step: ApplyStep,
    flags: ApplyFlags,
    context: SettleContext,
    run: SettleRun,
)
    requires
        spec_settle(step, flags, context, run).result.claim(),
    ensures
        ({
            let calls = settle_calls(step, flags, context, run);
            forall|i: int|
                0 <= i < calls.len() ==> (#[trigger] calls[i]) != ShellCall::Keep(Scope::Handler)
                    && (writes(calls[i]) ==> calls[i] is Remove || (i == 0 && step is Dispatch))
        }),
{
    let calls = settle_calls(step, flags, context, run);
    assert forall|i: int| 0 <= i < calls.len() implies (#[trigger] calls[i]) != ShellCall::Keep(
        Scope::Handler,
    ) && (writes(calls[i]) ==> calls[i] is Remove || (i == 0 && step is Dispatch)) by {
        assert forall|result: Ter, plan: CleanupPlan, k: int|
            0 <= k < cleanup_calls(result, plan, context, run).len() implies (
        #[trigger] cleanup_calls(result, plan, context, run)[k]) != ShellCall::Keep(Scope::Handler)
            && (writes(cleanup_calls(result, plan, context, run)[k]) ==> cleanup_calls(
            result,
            plan,
            context,
            run,
        )[k] is Remove) by {
            let preserved = spec_preserved_offer(result, context.txn_type, context.replaced_offer);
            cleanup_asks_for_removals(run.cleanup, plan, preserved);
        }
    }
}

} // verus!
