//! One transaction from end to end.
use vstd::prelude::*;
use crate::submit::calls::{AccountChange, Scope, ShellCall, made_in, stays, writes};
use crate::submit::checks::{
    Admission, Preamble, ShellFacts, SubmitTx, check_submission, offer_check, oracle_check,
};
use crate::submit::fee::{FeeCharge, FeePayer, PayerAccount, SponsorFunds, charge_fee, fee_taken};
use crate::submit::flags::{ApplyFlags, Present, Read};
use crate::submit::settle::{
    ApplyStep, SettleContext, SettleRun, Settled, claimed_fee_drops_the_handler, next_step, settle,
    settle_calls, spec_next_step, spec_settle,
};
use crate::submit::ticket::{
    AccountOrder, TicketRun, consume_seq_proxy, order_calls, order_can_be_taken, order_taken,
};
use crate::ter::{Ter, is_tes_success};
use crate::tx_type::TxType;

verus! {

/// What the ledger answers while a transaction is being applied. Each answer counts only where
/// the question comes up.
pub struct ShellRun {
    pub ticket: TicketRun,
    pub sponsor_funds: Read<SponsorFunds>,
    pub payer_account: Read<PayerAccount>,
    /// The payer, where it is not the account itself, was written back.
    pub payer_updated: bool,
    pub account_updated: bool,
    pub fee_destroyed: bool,
    /// What changed so far was taken down for the invariants.
    pub prefix_captured: bool,
    /// The account was read once more, to chain the transaction to it.
    pub account_again: Read<Present>,
    pub account_chained: bool,
    pub settle: SettleRun,
}

/// Who pays the fee of an admitted transaction.
pub open spec fn spec_fee_payer(tx: SubmitTx, preamble: Preamble, run: ShellRun) -> FeePayer {
    if tx.fee_payer == preamble.account {
        FeePayer::Own { balance: preamble.account_root.balance }
    } else if preamble.prefunded {
        FeePayer::Prefunded(run.sponsor_funds)
    } else {
        FeePayer::Other { account: run.payer_account, fee_sponsored: preamble.fee_sponsored }
    }
}

pub open spec fn stated_fee(tx: SubmitTx) -> Option<i64> {
    match tx.fee {
        Some(fee) => Some(fee.drops),
        None => None,
    }
}

/// Who pays the fee of an admitted transaction: its account, what a sponsor has set aside, or
/// another account.
pub fn fee_payer(tx: &SubmitTx, preamble: &Preamble, run: &ShellRun) -> (r: FeePayer)
    ensures
        r == spec_fee_payer(*tx, *preamble, *run),
{
    if tx.fee_payer == preamble.account {
        FeePayer::Own { balance: preamble.account_root.balance }
    } else if preamble.prefunded {
        FeePayer::Prefunded(run.sponsor_funds)
    } else {
        FeePayer::Other { account: run.payer_account, fee_sponsored: preamble.fee_sponsored }
    }
}

/// What is asked for to take the fee from where it comes.
pub open spec fn payer_calls(tx: SubmitTx, payer: FeePayer, charge: FeeCharge) -> Seq<ShellCall> {
    match payer {
        FeePayer::Own { .. } => seq![],
        FeePayer::Prefunded(_) => seq![ShellCall::UpdateSponsorship { left: charge.balance_after }],
        FeePayer::Other { .. } => match charge.balance_after {
            Some(balance) => seq![ShellCall::UpdatePayer { account: tx.fee_payer, balance }],
            None => seq![],
        },
    }
}

/// The account once its place and its fee have been taken. Who does not pay keeps its balance.
pub open spec fn account_change(
    preamble: Preamble,
    order: AccountOrder,
    payer: FeePayer,
    charge: FeeCharge,
) -> AccountChange {
    AccountChange {
        account: preamble.account,
        sequence: order.sequence,
        ticket_count: order.ticket_count,
        owner_count: order.owner_count,
        balance: if payer is Own {
            charge.balance_after
        } else {
            preamble.account_root.balance
        },
    }
}

/// Why the sequence and the fee could not be written into the ledger.
pub open spec fn write_fault(tx: SubmitTx, preamble: Preamble, charged: i64, run: ShellRun) -> Option<Ter> {
    if tx.fee_payer != preamble.account && !run.payer_updated {
        Some(Ter::TEF_BAD_LEDGER)
    } else if !run.account_updated {
        Some(Ter::TEF_BAD_LEDGER)
    } else if tx.fee is Some && charged > 0 && !run.fee_destroyed {
        Some(Ter::TEF_BAD_LEDGER)
    } else if !run.prefix_captured {
        Some(Ter::TEF_BAD_LEDGER)
    } else if preamble.account_root.account_txn_id is Some {
        match run.account_again {
            Read::Missing => Some(Ter::TEF_INTERNAL),
            Read::Failed => Some(Ter::TEF_BAD_LEDGER),
            Read::Found(_) => if run.account_chained {
                None
            } else {
                Some(Ter::TEF_BAD_LEDGER)
            },
        }
    } else {
        None
    }
}

/// What is asked for to write the sequence and the fee into the ledger, in order, up to the first
/// thing that fails.
pub open spec fn write_calls(
    tx: SubmitTx,
    preamble: Preamble,
    change: AccountChange,
    payer: FeePayer,
    charge: FeeCharge,
    run: ShellRun,
) -> Seq<ShellCall> {
    payer_calls(tx, payer, charge) + if tx.fee_payer != preamble.account && !run.payer_updated {
        seq![]
    } else {
        seq![ShellCall::UpdateAccount(change)] + if !run.account_updated {
            seq![]
        } else {
            (if tx.fee is Some && charge.charged > 0 {
                seq![ShellCall::DestroyXrp { drops: charge.charged }]
            } else {
                seq![]
            }) + if tx.fee is Some && charge.charged > 0 && !run.fee_destroyed {
                seq![]
            } else {
                seq![ShellCall::CapturePrefix] + if !run.prefix_captured {
                    seq![]
                } else {
                    seq![ShellCall::Open(Scope::Handler)]
                        + if preamble.account_root.account_txn_id is Some
                        && run.account_again is Found {
                        seq![ShellCall::Chain { account: preamble.account, id: tx.id }]
                    } else {
                        seq![]
                    }
                }
            }
        }
    }
}

pub open spec fn refused(ter: Ter) -> Settled {
    Settled { result: ter, invariant_fee_reset: false }
}

/// The transaction, as it is settled once its fee has been taken.
pub open spec fn settle_context(tx: SubmitTx, preamble: Preamble, charged: i64) -> SettleContext {
    SettleContext {
        account: preamble.account,
        txn_type: tx.txn_type,
        replaced_offer: tx.replaced_offer,
        fee: charged,
        pre_fee_balance: preamble.account_root.balance,
    }
}

/// Whether the handler of an admitted transaction runs.
pub open spec fn preamble_step(tx: SubmitTx, facts: ShellFacts, charge: FeeCharge) -> ApplyStep {
    spec_next_step(
        charge.result,
        facts.preclaim_result,
        tx.offer_check(facts),
        tx.oracle_check(facts),
    )
}

/// What an admitted transaction comes to.
pub open spec fn preamble_outcome(
    tx: SubmitTx,
    facts: ShellFacts,
    flags: ApplyFlags,
    preamble: Preamble,
    run: ShellRun,
) -> Settled {
    match order_taken(tx.seq_proxy, preamble.account_root, run.ticket) {
        Err(ter) => refused(ter),
        Ok(_) => match fee_taken(spec_fee_payer(tx, preamble, run), stated_fee(tx), facts.open) {
            Err(ter) => refused(ter),
            Ok(charge) => match write_fault(tx, preamble, charge.charged, run) {
                Some(ter) => refused(ter),
                None => spec_settle(
                    preamble_step(tx, facts, charge),
                    flags,
                    settle_context(tx, preamble, charge.charged),
                    run.settle,
                ),
            },
        },
    }
}

/// What is asked for while an admitted transaction is applied, in order.
pub open spec fn preamble_calls(
    tx: SubmitTx,
    facts: ShellFacts,
    flags: ApplyFlags,
    preamble: Preamble,
    run: ShellRun,
) -> Seq<ShellCall> {
    let payer = spec_fee_payer(tx, preamble, run);
    let place = order_calls(preamble.account, tx.seq_proxy, preamble.account_root, run.ticket);
    match (
        order_taken(tx.seq_proxy, preamble.account_root, run.ticket),
        fee_taken(payer, stated_fee(tx), facts.open),
    ) {
        (Ok(order), Ok(charge)) => {
            let change = account_change(preamble, order, payer, charge);
            place + write_calls(tx, preamble, change, payer, charge, run) + if write_fault(
                tx,
                preamble,
                charge.charged,
                run,
            ) is Some {
                seq![]
            } else {
                settle_calls(
                    preamble_step(tx, facts, charge),
                    flags,
                    settle_context(tx, preamble, charge.charged),
                    run.settle,
                )
            }
        },
        _ => place,
    }
}

/// What a transaction comes to.
pub open spec fn shell_outcome(
    tx: SubmitTx,
    facts: ShellFacts,
    flags: ApplyFlags,
    run: ShellRun,
) -> Settled {
    match tx.admission(facts) {
        Admission::Refused(ter) => refused(ter),
        Admission::Direct => refused(run.settle.handler),
        Admission::Preamble(preamble) => preamble_outcome(tx, facts, flags, preamble, run),
    }
}

/// What is asked for while a transaction is applied, in order.
pub open spec fn shell_calls(
    tx: SubmitTx,
    facts: ShellFacts,
    flags: ApplyFlags,
    run: ShellRun,
) -> Seq<ShellCall> {
    match tx.admission(facts) {
        Admission::Refused(_) => seq![],
        Admission::Direct => seq![ShellCall::Dispatch { pre_fee_balance: None }],
        Admission::Preamble(preamble) => preamble_calls(tx, facts, flags, preamble, run),
    }
}

/// The place of the transaction can be taken, and what its payer has left can be written down.
pub open spec fn shell_wf(tx: SubmitTx, facts: ShellFacts, run: ShellRun) -> bool {
    &&& run.settle.wf()
    &&& tx.admission(facts) matches Admission::Preamble(preamble) ==> {
        &&& order_can_be_taken(tx.seq_proxy, preamble.account_root)
        &&& spec_fee_payer(tx, preamble, run).wf(stated_fee(tx))
    }
}

fn write_preamble(
    tx: &SubmitTx,
    preamble: &Preamble,
    change: AccountChange,
    payer: FeePayer,
    charge: &FeeCharge,
    run: &ShellRun,
    calls: &mut Vec<ShellCall>,
) -> (r: Option<Ter>)
    ensures
        r == write_fault(*tx, *preamble, charge.charged, *run),
        final(calls)@ == old(calls)@ + write_calls(*tx, *preamble, change, payer, *charge, *run),
{
    match payer {
        FeePayer::Own { .. } => {},
        FeePayer::Prefunded(_) => {
            calls.push(ShellCall::UpdateSponsorship { left: charge.balance_after });
        },
        FeePayer::Other { .. } => {
            if let Some(balance) = charge.balance_after {
                calls.push(ShellCall::UpdatePayer { account: tx.fee_payer, balance });
            }
        },
    }
    if tx.fee_payer != preamble.account && !run.payer_updated {
        return Some(Ter::TEF_BAD_LEDGER);
    }
    calls.push(ShellCall::UpdateAccount(change));
    if !run.account_updated {
        return Some(Ter::TEF_BAD_LEDGER);
    }
    if tx.fee.is_some() && charge.charged > 0 {
        calls.push(ShellCall::DestroyXrp { drops: charge.charged });
        if !run.fee_destroyed {
            return Some(Ter::TEF_BAD_LEDGER);
        }
    }
    calls.push(ShellCall::CapturePrefix);
    if !run.prefix_captured {
        return Some(Ter::TEF_BAD_LEDGER);
    }
    calls.push(ShellCall::Open(Scope::Handler));
    if preamble.account_root.account_txn_id.is_some() {
        match run.account_again {
            Read::Found(_) => {
                calls.push(ShellCall::Chain { account: preamble.account, id: tx.id });
                if !run.account_chained {
                    return Some(Ter::TEF_BAD_LEDGER);
                }
            },
            Read::Missing => {
                return Some(Ter::TEF_INTERNAL);
            },
            Read::Failed => {
                return Some(Ter::TEF_BAD_LEDGER);
            },
        }
    }
    None
}

/// Applies one transaction: checks it, takes its place and its fee, and settles what its handler
/// did. What is asked for on the way is added to the calls.
pub fn apply_submit_transactor_shell_impl(
    tx: &SubmitTx,
    facts: &ShellFacts,
    flags: ApplyFlags,
    run: &ShellRun,
    calls: &mut Vec<ShellCall>,
) -> (r: Settled)
    requires
        shell_wf(*tx, *facts, *run),
    ensures
        r == shell_outcome(*tx, *facts, flags, *run),
        final(calls)@ == old(calls)@ + shell_calls(*tx, *facts, flags, *run),
{
    let preamble = match check_submission(tx, facts) {
        Admission::Refused(ter) => {
            return Settled { result: ter, invariant_fee_reset: false };
        },
        Admission::Direct => {
            calls.push(ShellCall::Dispatch { pre_fee_balance: None });
            return Settled { result: run.settle.handler, invariant_fee_reset: false };
        },
        Admission::Preamble(preamble) => preamble,
    };
    let order = match consume_seq_proxy(
        preamble.account,
        tx.seq_proxy,
        &preamble.account_root,
        &run.ticket,
        calls,
    ) {
        Ok(order) => order,
        Err(ter) => {
            return Settled { result: ter, invariant_fee_reset: false };
        },
    };
    let fee = match tx.fee {
        Some(fee) => Some(fee.drops),
        None => None,
    };
    let payer = fee_payer(tx, &preamble, run);
    let charge = match charge_fee(payer, fee, facts.open) {
        Ok(charge) => charge,
        Err(ter) => {
            return Settled { result: ter, invariant_fee_reset: false };
        },
    };
    let change = AccountChange {
        account: preamble.account,
        sequence: order.sequence,
        ticket_count: order.ticket_count,
        owner_count: order.owner_count,
        balance: if matches!(payer, FeePayer::Own { .. }) {
            charge.balance_after
        } else {
            preamble.account_root.balance
        },
    };
    if let Some(ter) = write_preamble(tx, &preamble, change, payer, &charge, run, calls) {
        return Settled { result: ter, invariant_fee_reset: false };
    }
    let step = next_step(
        charge.result,
        facts.preclaim_result,
        offer_check(tx, facts),
        oracle_check(tx, facts),
    );
    let context = SettleContext {
        account: preamble.account,
        txn_type: tx.txn_type,
        replaced_offer: tx.replaced_offer,
        fee: charge.charged,
        pre_fee_balance: preamble.account_root.balance,
    };
    settle(step, flags, &context, &run.settle, calls)
}

pub open spec fn spec_captures_delivered_amount(txn_type: TxType) -> bool {
    txn_type is PAYMENT || txn_type is CHECK_CASH || txn_type is ACCOUNT_DELETE
}

/// Whether a transaction of this type tells how much it delivered.
pub fn captures_delivered_amount(txn_type: TxType) -> (r: bool)
    ensures
        r == spec_captures_delivered_amount(txn_type),
{
    matches!(txn_type, TxType::PAYMENT | TxType::CHECK_CASH | TxType::ACCOUNT_DELETE)
}

/// What was found before, as the transaction is let in with it.
pub open spec fn with_preclaim(facts: ShellFacts, preclaim: Ter) -> ShellFacts {
    ShellFacts { preclaim_result: preclaim, ..facts }
}

pub open spec fn admitted_with(preflight: Ter, preclaim: Ter) -> Ter {
    if preflight.success() {
        preclaim
    } else {
        preflight
    }
}

/// What a transaction comes to its application with: what was found of its fields, or else what
/// was found of its place in the ledger.
pub fn admission_result(preflight: Ter, preclaim: Ter) -> (r: Ter)
    ensures
        r == admitted_with(preflight, preclaim),
{
    if is_tes_success(preflight) {
        preclaim
    } else {
        preflight
    }
}

/// What was asked for up to a panic: so many calls.
pub open spec fn up_to_panic(calls: Seq<ShellCall>, panicked: Option<usize>) -> Seq<ShellCall> {
    match panicked {
        Some(made) => if made <= calls.len() {
            calls.take(made as int)
        } else {
            calls
        },
        None => calls,
    }
}

/// Takes back the calls that a panic kept from being made: those after so many, of the ones that
/// were added after `before`.
pub fn forget_after_panic(calls: &mut Vec<ShellCall>, before: usize, panicked: Option<usize>)
    requires
        before <= old(calls)@.len(),
    ensures
        final(calls)@ == old(calls)@.take(before as int) + up_to_panic(
            old(calls)@.skip(before as int),
            panicked,
        ),
{
    let total: usize = calls.len();
    if let Some(made) = panicked {
        if made <= total - before {
            calls.truncate(before + made);
        }
    }
    assert(calls@ =~= old(calls)@.take(before as int) + up_to_panic(
        old(calls)@.skip(before as int),
        panicked,
    ));
}

/// No fee is destroyed but what was taken from the payer: never more than the transaction states,
/// and once at most.
#[verifier::rlimit(60)]
pub proof fn destroyed_is_what_was_charged(
    tx: SubmitTx,
    preamble: Preamble,
    change: AccountChange,
    payer: FeePayer,
    charge: FeeCharge,
    run: ShellRun,
    i: int,
)
    requires
        0 <= i < write_calls(tx, preamble, change, payer, charge, run).len(),
        write_calls(tx, preamble, change, payer, charge, run)[i] is DestroyXrp,
    ensures
        write_calls(tx, preamble, change, payer, charge, run)[i] == (ShellCall::DestroyXrp {
            drops: charge.charged,
        }),
        forall|j: int|
            0 <= j < write_calls(tx, preamble, change, payer, charge, run).len() && (
            #[trigger] write_calls(tx, preamble, change, payer, charge, run)[j] is DestroyXrp)
                ==> j == i,
{
}

/// A transaction that is refused asks for nothing.
pub proof fn refused_asks_for_nothing(tx: SubmitTx, facts: ShellFacts, flags: ApplyFlags, run: ShellRun)
    requires
        tx.admission(facts) is Refused,
    ensures
        shell_calls(tx, facts, flags, run).len() == 0,
{
}

/// Where in the calls of an admitted transaction the state of the handler is opened, where it is.
pub open spec fn handler_opened(
    tx: SubmitTx,
    preamble: Preamble,
    charge: FeeCharge,
    run: ShellRun,
) -> nat {
    let payer = spec_fee_payer(tx, preamble, run);
    order_calls(preamble.account, tx.seq_proxy, preamble.account_root, run.ticket).len()
        + payer_calls(tx, payer, charge).len() + 2 + if tx.fee is Some && charge.charged > 0 {
        1nat
    } else {
        0nat
    }
}

/// A transaction whose fee is claimed leaves nothing but its place, its fee and what a cleanup
/// removed: its sequence or ticket and its fee are written before the state of the handler is
/// opened, and stay. Of what is asked for from there on, neither what the handler did nor that the
/// account remembers the transaction stays.
pub proof fn claimed_fee_leaves_only_the_preamble(
    tx: SubmitTx,
    facts: ShellFacts,
    flags: ApplyFlags,
    run: ShellRun,
    preamble: Preamble,
    charge: FeeCharge,
)
    requires
        tx.admission(facts) == Admission::Preamble(preamble),
        fee_taken(spec_fee_payer(tx, preamble, run), stated_fee(tx), facts.open) == Ok::<
            FeeCharge,
            Ter,
        >(charge),
        shell_outcome(tx, facts, flags, run).result.claim(),
    ensures
        ({
            let calls = shell_calls(tx, facts, flags, run);
            let opened = handler_opened(tx, preamble, charge, run) as int;
            &&& opened < calls.len()
            &&& calls[opened] == ShellCall::Open(Scope::Handler)
            &&& forall|i: int| 0 <= i < opened ==> #[trigger] stays(calls, i)
            &&& forall|i: int|
                opened < i < calls.len() && #[trigger] stays(calls, i) && writes(calls[i])
                    ==> calls[i] is Remove
        }),
{
    let calls = shell_calls(tx, facts, flags, run);
    let payer = spec_fee_payer(tx, preamble, run);
    let place = order_calls(preamble.account, tx.seq_proxy, preamble.account_root, run.ticket);
    let order = order_taken(tx.seq_proxy, preamble.account_root, run.ticket)->Ok_0;
    let change = account_change(preamble, order, payer, charge);
    let written = write_calls(tx, preamble, change, payer, charge, run);
    let step = preamble_step(tx, facts, charge);
    let context = settle_context(tx, preamble, charge.charged);
    let settled = settle_calls(step, flags, context, run.settle);
    let opened = handler_opened(tx, preamble, charge, run) as int;
    assert(calls =~= place + written + settled);
    claimed_fee_drops_the_handler(step, flags, context, run.settle);
    let start = place.len() + written.len();
    assert(start == opened + 1 || start == opened + 2);
    assert(calls[opened] == ShellCall::Open(Scope::Handler));
    assert forall|i: int| 0 <= i < opened implies #[trigger] stays(calls, i) by {
        assert forall|j: int| 0 <= j < i implies !((#[trigger] calls[j]) is Open) by {}
    }
    assert forall|i: int| 0 <= i < calls.len() implies (#[trigger] calls[i]) != ShellCall::Keep(
        Scope::Handler,
    ) by {
        if i >= start {
            assert(calls[i] == settled[i - start]);
        }
    }
    assert forall|i: int|
        opened < i < calls.len() && #[trigger] stays(calls, i) && writes(calls[i]) implies calls[i] is Remove by {
        if i >= start {
            assert(calls[i] == settled[i - start]);
        }
        if !(calls[i] is Remove) {
            assert(i <= start);
            assert forall|k: int| opened < k < i implies (#[trigger] calls[k]) != ShellCall::Keep(
                Scope::Handler,
            ) && calls[k] != ShellCall::Drop(Scope::Handler) by {}
            assert(made_in(calls, Scope::Handler, i));
            let rest = calls.skip(i);
            assert(rest.contains(ShellCall::Keep(Scope::Handler)));
            let k = choose|k: int|
                0 <= k < rest.len() && rest[k] == ShellCall::Keep(Scope::Handler);
            assert(calls[i + k] == ShellCall::Keep(Scope::Handler));
        }
    }
}

} // verus!
