//! What holds of every transaction that is applied, over what was there before and what is there
//! after.
use vstd::prelude::*;
use crate::ids::{AccountID, Uint256};
use crate::limits::{EXPIRED_OFFER_REMOVE_LIMIT, OVERSIZE_METADATA_CAP, UNFUNDED_OFFER_REMOVE_LIMIT};
use crate::submit::batch::{
    BatchApplyDestination, BatchMode, BatchProgress, BatchRun, InnerRun, InnerTx, applied_among,
    followup_applied, followup_calls, followup_result, inner_runs, progress_after, spec_followup,
    spec_inner_flags, stopped_stays_stopped,
};
use crate::submit::calls::{AccountChange, InvariantScope, RemovedKind, Scope, ShellCall};
use crate::submit::checks::{AccountRoot, Admission, Preamble, SeqProxy, ShellFacts, SubmitTx};
use crate::submit::cleanup::{
    CleanupPlan, CleanupRun, ErasedEntry, ErasedKind, RemovalEvent, Removals, picked, removal_calls,
    removals_after, removes_trust_lines, spec_cleanup_plan, spec_preserved_offer,
};
use crate::submit::fee::{FeeCharge, FeePayer, PayerAccount, SponsorFunds, fee_taken};
use crate::submit::flags::{ApplyFlags, Read};
use crate::submit::outcome::{OuterRun, apply_simulated_transaction, submit_calls, submit_outcome};
use crate::submit::settle::{
    ApplyStep, SettleContext, SettleRun, ascending, exceeds_oversize_metadata_cap, settle_calls,
    spec_next_step, spec_settle, transaction_item_count,
};
use crate::submit::shell::{
    ShellRun, account_change, preamble_step, settle_context, shell_calls, shell_outcome,
    spec_fee_payer, stated_fee, write_calls, write_fault,
};
use crate::submit::ticket::{
    AccountOrder, TicketRun, delete_submit_ticket, is_reserve_sufficient, order_calls, order_taken,
    submit_confine_owner_count,
};
use crate::ter::{Ter, TerClass};
use crate::tx_type::TxType;

verus! {

/// Every result belongs to the class that its name begins with.
pub proof fn results_belong_to_their_class(code: i32)
    ensures
        forall|t: Ter| #[trigger] t.spec_class() == TerClass::Success <==> t == Ter::TES_SUCCESS,
        Ter::TEL_INSUF_FEE_P.spec_class() == TerClass::Local,
        Ter::OtherTel(code).spec_class() == TerClass::Local,
        Ter::TEM_BAD_AMOUNT.malformed() && Ter::TEM_BAD_FEE.malformed()
            && Ter::TEM_BAD_OFFER.malformed() && Ter::TEM_BAD_SRC_ACCOUNT.malformed()
            && Ter::TEM_DISABLED.malformed() && Ter::TEM_INVALID.malformed()
            && Ter::TEM_INVALID_FLAG.malformed() && Ter::TEM_INVALID_INNER_BATCH.malformed()
            && Ter::TEM_MALFORMED.malformed() && Ter::TEM_UNKNOWN.malformed() && Ter::OtherTem(
            code,
        ).malformed(),
        Ter::TEF_ALREADY.failure() && Ter::TEF_BAD_LEDGER.failure() && Ter::TEF_EXCEPTION.failure()
            && Ter::TEF_INTERNAL.failure() && Ter::TEF_MAX_LEDGER.failure()
            && Ter::TEF_NO_TICKET.failure() && Ter::TEF_WRONG_PRIOR.failure() && Ter::OtherTef(
            code,
        ).failure(),
        Ter::TER_INSUF_FEE_B.retry() && Ter::TER_NO_ACCOUNT.retry()
            && Ter::TER_NO_PERMISSION.retry() && Ter::TER_QUEUED.retry() && Ter::OtherTer(
            code,
        ).retry(),
        Ter::TEC_DIR_FULL.claim() && Ter::TEC_EXPIRED.claim() && Ter::TEC_INCOMPLETE.claim()
            && Ter::TEC_INSUFF_FEE.claim() && Ter::TEC_INSUFFICIENT_PAYMENT.claim()
            && Ter::TEC_INSUF_RESERVE_OFFER.claim() && Ter::TEC_INTERNAL.claim()
            && Ter::TEC_INVARIANT_FAILED.claim() && Ter::TEC_KILLED.claim()
            && Ter::TEC_NO_ENTRY.claim() && Ter::TEC_NO_PERMISSION.claim()
            && Ter::TEC_OBJECT_NOT_FOUND.claim() && Ter::TEC_OVERSIZE.claim()
            && Ter::TEC_PATH_DRY.claim() && Ter::TEC_PRECISION_LOSS.claim()
            && Ter::TEC_TOO_SOON.claim() && Ter::TEC_UNFUNDED_OFFER.claim() && Ter::OtherTec(
            code,
        ).claim(),
{
}

/// Using a ticket leaves the account one ticket fewer, with none counted as zero, and one owned
/// thing fewer, as far as anything is owned. The last ticket leaves no count behind, no sequence is
/// used, and the ticket is first unlisted and then erased.
pub proof fn a_ticket_is_used_once(
    account: AccountID,
    number: u32,
    root: AccountRoot,
    run: TicketRun,
    after: AccountOrder,
)
    requires
        order_taken(SeqProxy::Ticket(number), root, run) == Ok::<AccountOrder, Ter>(after),
        root.ticket_count != Some(0u32),
    ensures
        root.ticket_count matches Some(before) && before == 1 + (match after.ticket_count {
            Some(left) => left as int,
            None => 0,
        }),
        after.ticket_count != Some(0u32),
        root.owner_count > 0 ==> root.owner_count == after.owner_count + 1,
        root.owner_count == 0 ==> after.owner_count == 0,
        after.sequence is None,
        run.ticket is Found && run.unlisted && run.erased,
        order_calls(account, SeqProxy::Ticket(number), root, run) == seq![
            ShellCall::UnlistTicket { account, proxy: SeqProxy::Ticket(number) },
            ShellCall::EraseTicket { account, proxy: SeqProxy::Ticket(number) },
        ],
{
}

/// A ticket that is there, is counted and can be taken out is always used; otherwise the ledger is
/// bad, and nothing is erased that could not be unlisted before.
pub proof fn a_ticket_that_is_there_is_used(
    account: AccountID,
    number: u32,
    root: AccountRoot,
    run: TicketRun,
)
    ensures
        run.ticket is Found && run.unlisted && run.erased && root.ticket_count is Some
            <==> order_taken(SeqProxy::Ticket(number), root, run) is Ok,
        order_taken(SeqProxy::Ticket(number), root, run) matches Err(ter) ==> ter
            == Ter::TEF_BAD_LEDGER,
        !(run.ticket is Found) || !run.unlisted ==> !order_calls(
            account,
            SeqProxy::Ticket(number),
            root,
            run,
        ).contains(ShellCall::EraseTicket { account, proxy: SeqProxy::Ticket(number) }),
{
}

/// Using a sequence makes the next one the account's, and touches no ticket.
pub proof fn a_sequence_is_followed_by_the_next(
    account: AccountID,
    sequence: u32,
    root: AccountRoot,
    run: TicketRun,
)
    requires
        sequence < u32::MAX,
    ensures
        order_taken(SeqProxy::Sequence(sequence), root, run) matches Ok(after) && {
            &&& after.sequence matches Some(next) && next == sequence + 1
            &&& after.ticket_count == root.ticket_count
            &&& after.owner_count == root.owner_count
        },
        order_calls(account, SeqProxy::Sequence(sequence), root, run).len() == 0,
{
}

/// The account pays its own fee out of its balance: all of it where the balance reaches, and
/// otherwise all of the balance in a closed ledger, which then claims. Without a balance, or into
/// an open ledger, it is refused.
pub proof fn own_fee_comes_out_of_the_balance(balance: i64, fee: i64, open: bool)
    requires
        fee >= 0,
    ensures
        ({
            let taken = fee_taken(FeePayer::Own { balance: Some(balance) }, Some(fee), open);
            &&& balance >= fee ==> taken == Ok::<FeeCharge, Ter>(
                FeeCharge {
                    charged: fee,
                    result: Ter::TES_SUCCESS,
                    balance_after: Some((balance - fee) as i64),
                },
            )
            &&& balance < fee && balance > 0 && !open ==> taken == Ok::<FeeCharge, Ter>(
                FeeCharge {
                    charged: balance,
                    result: Ter::TEC_INSUFF_FEE,
                    balance_after: Some(0),
                },
            )
            &&& balance < fee && (balance <= 0 || open) ==> taken == Err::<FeeCharge, Ter>(
                Ter::TER_INSUF_FEE_B,
            )
        }),
        fee_taken(FeePayer::Own { balance: Some(balance) }, None, open) == Ok::<FeeCharge, Ter>(
            FeeCharge { charged: 0, result: Ter::TES_SUCCESS, balance_after: Some(balance) },
        ),
        fee_taken(FeePayer::Own { balance: None }, Some(fee), open) == Ok::<FeeCharge, Ter>(
            FeeCharge { charged: fee, result: Ter::TES_SUCCESS, balance_after: None },
        ),
{
}

/// A sponsor pays out of what it has set aside, and no more for one transaction than it allows;
/// what is then left of nothing is no amount.
pub proof fn sponsored_fee_comes_out_of_the_funds(funds: SponsorFunds, fee: i64, open: bool)
    requires
        fee >= 0,
        funds.funds matches Some(amount) ==> amount >= 0,
    ensures
        ({
            let taken = fee_taken(FeePayer::Prefunded(Read::Found(funds)), Some(fee), open);
            let held: int = match funds.funds {
                Some(amount) => amount as int,
                None => 0,
            };
            let allowed = held >= fee && (funds.max_fee matches Some(most) ==> most >= fee);
            &&& allowed ==> (taken matches Ok(charge) && charge.charged == fee && charge.result
                == Ter::TES_SUCCESS && (held == fee ==> charge.balance_after is None) && (held > fee
                ==> (charge.balance_after matches Some(left) && left == held - fee)))
            &&& !allowed && open ==> taken == Err::<FeeCharge, Ter>(Ter::TER_INSUF_FEE_B)
            &&& !allowed && !open && held > 0 && (funds.max_fee matches Some(most) ==> most > 0)
                ==> (taken matches Ok(charge) && charge.result == Ter::TEC_INSUFF_FEE
                && 0 < charge.charged < fee && charge.charged <= held && (charge.charged == held
                || funds.max_fee == Some(charge.charged)))
        }),
        fee_taken(FeePayer::Prefunded(Read::Missing), Some(fee), open) == Err::<FeeCharge, Ter>(
            Ter::TEF_INTERNAL,
        ),
        fee_taken(FeePayer::Prefunded(Read::Failed), Some(fee), open) == Err::<FeeCharge, Ter>(
            Ter::TEF_BAD_LEDGER,
        ),
{
}

/// Another account pays the whole fee whatever it has, unless it pays as a sponsor: then nothing
/// but what it has above its reserve.
pub proof fn another_account_pays(account: PayerAccount, fee: i64, open: bool)
    requires
        fee >= 0,
        i64::MIN <= account.balance - account.reserve <= i64::MAX,
        i64::MIN <= account.balance - fee,
    ensures
        ({
            let plain = fee_taken(
                FeePayer::Other { account: Read::Found(account), fee_sponsored: false },
                Some(fee),
                open,
            );
            let sponsor = fee_taken(
                FeePayer::Other { account: Read::Found(account), fee_sponsored: true },
                Some(fee),
                open,
            );
            &&& plain == Ok::<FeeCharge, Ter>(
                FeeCharge {
                    charged: fee,
                    result: Ter::TES_SUCCESS,
                    balance_after: Some((account.balance - fee) as i64),
                },
            )
            &&& account.balance - account.reserve >= fee ==> sponsor == plain
            &&& account.balance - account.reserve < fee && fee > 0 && (open || account.balance
                <= account.reserve) ==> sponsor == Err::<FeeCharge, Ter>(Ter::TER_INSUF_FEE_B)
            &&& account.balance - account.reserve < fee && !open && account.balance
                > account.reserve ==> (sponsor matches Ok(charge) && charge.charged
                == account.balance - account.reserve && charge.result == Ter::TEC_INSUFF_FEE
                && charge.balance_after == Some(account.reserve))
        }),
{
}

/// The fee is taken from the account itself where it is the one that pays, from what a sponsor has
/// set aside where there is a standing sponsorship for fees, and else from the account that pays.
pub proof fn fee_is_taken_from_whoever_pays(tx: SubmitTx, preamble: Preamble, run: ShellRun)
    ensures
        tx.fee_payer == preamble.account ==> spec_fee_payer(tx, preamble, run) == (FeePayer::Own {
            balance: preamble.account_root.balance,
        }),
        tx.fee_payer != preamble.account && preamble.prefunded ==> spec_fee_payer(
            tx,
            preamble,
            run,
        ) == FeePayer::Prefunded(run.sponsor_funds),
        tx.fee_payer != preamble.account && !preamble.prefunded ==> spec_fee_payer(
            tx,
            preamble,
            run,
        ) == (FeePayer::Other {
            account: run.payer_account,
            fee_sponsored: preamble.fee_sponsored,
        }),
{
}

/// A transaction takes its place and its fee exactly where nothing is found against it: its fields
/// are good, its account is there, it comes in order and in time and for the first time, what was
/// found of it elsewhere lets it in, and its sponsor may stand in.
pub proof fn admitted_where_nothing_is_against_it(tx: SubmitTx, facts: ShellFacts)
    ensures
        tx.admission(facts) is Preamble <==> {
            &&& tx.txn_type != TxType::AMENDMENT && tx.txn_type != TxType::FEE && tx.txn_type
                != TxType::UNL_MODIFY
            &&& tx.account matches Some(account) && (account.hi != 0 || account.lo != 0)
            &&& tx.fee matches Some(fee) ==> fee.native && fee.drops >= 0
            &&& !(tx.seq_proxy is Ticket && tx.account_txn_id is Some)
            &&& !(facts.fix_cleanup_3_2_0 && facts.invalid_amount)
            &&& facts.account_root matches Read::Found(root) && (tx.account_txn_id matches Some(
                prior,
            ) ==> (root.account_txn_id == Some(prior) || (root.account_txn_id is None && prior.hi
                == 0 && prior.lo == 0)))
            &&& tx.last_ledger_sequence matches Some(last) ==> facts.ledger_seq <= last
            &&& facts.recorded is Missing
            &&& tx.txn_type == TxType::OFFER_CREATE
                ==> facts.offer_preclaim.likely_to_claim_fee()
            &&& tx.txn_type == TxType::ORACLE_SET ==> facts.oracle_preclaim.likely_to_claim_fee()
            &&& tx.sponsor matches Some(sponsor) ==> {
                &&& Some(sponsor.account) != tx.account
                &&& facts.sponsor_root is Found
                &&& !(facts.sponsorship is Failed)
                &&& sponsor.flags matches Some(flags) && !flags.unknown && (flags.fee
                    || flags.reserve) && !(tx.has_delegate && flags.reserve) && (sponsor.signed || (
                facts.sponsorship matches Read::Found(standing) && (flags.fee
                    ==> !standing.require_sign_for_fee) && (flags.reserve
                    ==> !standing.require_sign_for_reserve)))
            }
        },
        tx.admission(facts) matches Admission::Preamble(preamble) ==> {
            &&& Some(preamble.account) == tx.account
            &&& facts.account_root == Read::Found(preamble.account_root)
            &&& preamble.fee_sponsored == (tx.sponsor matches Some(sponsor) && (
            sponsor.flags matches Some(flags) && flags.fee))
            &&& preamble.prefunded == (preamble.fee_sponsored && facts.sponsorship is Found)
        },
{
}

/// Why a transaction is refused before anything is taken from it: the first of these that holds.
pub proof fn refused_for_the_first_reason(tx: SubmitTx, facts: ShellFacts, account: AccountID)
    requires
        tx.txn_type != TxType::AMENDMENT,
        tx.txn_type != TxType::FEE,
        tx.txn_type != TxType::UNL_MODIFY,
        tx.account == Some(account),
    ensures
        ({
            let said = |ter: Ter| tx.admission(facts) == Admission::Refused(ter);
            let known = account.hi != 0 || account.lo != 0;
            let fair = tx.fee matches Some(fee) ==> fee.native && fee.drops >= 0;
            let single = !(tx.seq_proxy is Ticket && tx.account_txn_id is Some);
            let whole = !(facts.fix_cleanup_3_2_0 && facts.invalid_amount);
            &&& !known ==> said(Ter::TEM_BAD_SRC_ACCOUNT)
            &&& known && !fair ==> said(Ter::TEM_BAD_FEE)
            &&& known && fair && !single ==> said(Ter::TEM_INVALID)
            &&& known && fair && single && !whole ==> said(Ter::TEM_BAD_AMOUNT)
            &&& known && fair && single && whole && facts.account_root is Missing ==> said(
                Ter::TER_NO_ACCOUNT,
            )
            &&& known && fair && single && whole && facts.account_root is Failed ==> said(
                Ter::TEF_BAD_LEDGER,
            )
            &&& known && fair && single && whole ==> (facts.account_root matches Read::Found(root)
                ==> {
                let prior = tx.account_txn_id matches Some(id) && !(root.account_txn_id == Some(id)
                    || (root.account_txn_id is None && id.hi == 0 && id.lo == 0));
                let late = tx.last_ledger_sequence matches Some(last) && facts.ledger_seq > last;
                &&& prior ==> said(Ter::TEF_WRONG_PRIOR)
                &&& !prior && late ==> said(Ter::TEF_MAX_LEDGER)
                &&& !prior && !late && facts.recorded is Found ==> said(Ter::TEF_ALREADY)
                &&& !prior && !late && facts.recorded is Failed ==> said(Ter::TEF_BAD_LEDGER)
                &&& !prior && !late && facts.recorded is Missing && tx.txn_type
                    == TxType::OFFER_CREATE && !facts.offer_preclaim.likely_to_claim_fee() ==> said(
                    facts.offer_preclaim,
                )
                &&& !prior && !late && facts.recorded is Missing && tx.txn_type
                    == TxType::ORACLE_SET && !facts.oracle_preclaim.likely_to_claim_fee() ==> said(
                    facts.oracle_preclaim,
                )
            })
        }),
{
}

/// Why a sponsor may not stand in, where nothing else is found against the transaction.
pub proof fn sponsors_are_refused_for_the_first_reason(
    tx: SubmitTx,
    facts: ShellFacts,
    account: AccountID,
    sponsor: crate::submit::checks::Sponsor,
)
    requires
        tx.sponsor == Some(sponsor),
        tx.account == Some(account),
        (SubmitTx { sponsor: None, ..tx }).admission(facts) is Preamble,
    ensures
        ({
            let said = |ter: Ter| tx.admission(facts) == Admission::Refused(ter);
            &&& sponsor.account == account ==> said(Ter::TEM_MALFORMED)
            &&& sponsor.account != account && sponsor.flags is None ==> said(Ter::TEM_INVALID_FLAG)
            &&& sponsor.account != account ==> (sponsor.flags matches Some(flags) ==> {
                let odd = flags.unknown || (!flags.fee && !flags.reserve);
                let both = tx.has_delegate && flags.reserve;
                &&& odd ==> said(Ter::TEM_INVALID_FLAG)
                &&& !odd && both ==> said(Ter::TEM_INVALID)
                &&& !odd && !both && facts.sponsor_root is Missing ==> said(Ter::TER_NO_ACCOUNT)
                &&& !odd && !both && facts.sponsor_root is Failed ==> said(Ter::TEF_BAD_LEDGER)
                &&& !odd && !both && facts.sponsor_root is Found && facts.sponsorship is Failed
                    ==> said(Ter::TEF_BAD_LEDGER)
                &&& !odd && !both && facts.sponsor_root is Found && facts.sponsorship is Missing
                    && !sponsor.signed ==> said(Ter::TER_NO_PERMISSION)
                &&& !odd && !both && facts.sponsor_root is Found && !sponsor.signed ==> (
                facts.sponsorship matches Read::Found(standing) ==> ((flags.fee
                    && standing.require_sign_for_fee) || (flags.reserve
                    && standing.require_sign_for_reserve) ==> said(Ter::TER_NO_PERMISSION)))
            })
        }),
{
}

/// The network's own transactions, and those without an account, are handled at once, where what
/// was found lets them: nothing is taken from anybody.
pub proof fn nobodys_transactions_are_handled_at_once(
    tx: SubmitTx,
    facts: ShellFacts,
    flags: ApplyFlags,
    run: ShellRun,
)
    requires
        tx.txn_type == TxType::AMENDMENT || tx.txn_type == TxType::FEE || tx.txn_type
            == TxType::UNL_MODIFY,
    ensures
        facts.pseudo_preflight.success() && facts.preclaim_result.success() ==> shell_outcome(
            tx,
            facts,
            flags,
            run,
        ).result == run.settle.handler && shell_calls(tx, facts, flags, run) == seq![
            ShellCall::Dispatch { pre_fee_balance: None },
        ],
        !facts.pseudo_preflight.success() ==> shell_outcome(tx, facts, flags, run).result
            == facts.pseudo_preflight && shell_calls(tx, facts, flags, run).len() == 0,
        facts.pseudo_preflight.success() && !facts.preclaim_result.success() ==> shell_outcome(
            tx,
            facts,
            flags,
            run,
        ).result == facts.preclaim_result && shell_calls(tx, facts, flags, run).len() == 0,
{
}

/// The account that is written back is the one of the transaction, with its place and its fee
/// taken: the sequence after the one it used, or one ticket fewer; and less by the fee where it
/// pays itself, unchanged where another does.
pub proof fn account_is_written_back(
    tx: SubmitTx,
    facts: ShellFacts,
    run: ShellRun,
    preamble: Preamble,
    order: AccountOrder,
    charge: FeeCharge,
)
    requires
        tx.admission(facts) == Admission::Preamble(preamble),
        order_taken(tx.seq_proxy, preamble.account_root, run.ticket) == Ok::<AccountOrder, Ter>(
            order,
        ),
        fee_taken(spec_fee_payer(tx, preamble, run), stated_fee(tx), facts.open) == Ok::<
            FeeCharge,
            Ter,
        >(charge),
    ensures
        ({
            let change = account_change(preamble, order, spec_fee_payer(tx, preamble, run), charge);
            &&& Some(change.account) == tx.account
            &&& change.sequence == order.sequence
            &&& change.ticket_count == order.ticket_count
            &&& change.owner_count == order.owner_count
            &&& tx.fee_payer == preamble.account ==> change.balance == charge.balance_after
            &&& tx.fee_payer != preamble.account ==> change.balance
                == preamble.account_root.balance
            &&& forall|flags: ApplyFlags|
                (tx.fee_payer == preamble.account || run.payer_updated) ==> #[trigger] shell_calls(
                    tx,
                    facts,
                    flags,
                    run,
                ).contains(ShellCall::UpdateAccount(change))
            &&& forall|flags: ApplyFlags|
                (tx.fee_payer == preamble.account || run.payer_updated) && run.account_updated
                    && tx.fee is Some && charge.charged > 0 ==> #[trigger] shell_calls(
                    tx,
                    facts,
                    flags,
                    run,
                ).contains(ShellCall::DestroyXrp { drops: charge.charged })
        }),
{
    let payer = spec_fee_payer(tx, preamble, run);
    let change = account_change(preamble, order, payer, charge);
    let place = order_calls(preamble.account, tx.seq_proxy, preamble.account_root, run.ticket);
    let written = write_calls(tx, preamble, change, payer, charge, run);
    let paid = crate::submit::shell::payer_calls(tx, payer, charge);
    assert forall|flags: ApplyFlags|
        (tx.fee_payer == preamble.account || run.payer_updated) implies #[trigger] shell_calls(
        tx,
        facts,
        flags,
        run,
    ).contains(ShellCall::UpdateAccount(change)) by {
        let calls = shell_calls(tx, facts, flags, run);
        assert(calls[(place.len() + paid.len()) as int] == ShellCall::UpdateAccount(change));
    }
    assert forall|flags: ApplyFlags|
        (tx.fee_payer == preamble.account || run.payer_updated) && run.account_updated && tx.fee
            is Some && charge.charged > 0 implies #[trigger] shell_calls(
        tx,
        facts,
        flags,
        run,
    ).contains(ShellCall::DestroyXrp { drops: charge.charged }) by {
        let calls = shell_calls(tx, facts, flags, run);
        assert(calls[(place.len() + paid.len() + 1) as int] == (ShellCall::DestroyXrp {
            drops: charge.charged,
        }));
    }
}

/// Whoever else pays is written back with what it has left: a sponsor in what it has set aside, and
/// another account in its balance.
pub proof fn payer_is_written_back(
    tx: SubmitTx,
    facts: ShellFacts,
    flags: ApplyFlags,
    run: ShellRun,
    preamble: Preamble,
    charge: FeeCharge,
)
    requires
        tx.admission(facts) == Admission::Preamble(preamble),
        tx.fee_payer != preamble.account,
        order_taken(tx.seq_proxy, preamble.account_root, run.ticket) is Ok,
        fee_taken(spec_fee_payer(tx, preamble, run), stated_fee(tx), facts.open) == Ok::<
            FeeCharge,
            Ter,
        >(charge),
    ensures
        preamble.prefunded ==> shell_calls(tx, facts, flags, run).contains(
            ShellCall::UpdateSponsorship { left: charge.balance_after },
        ),
        !preamble.prefunded ==> (charge.balance_after matches Some(balance) && shell_calls(
            tx,
            facts,
            flags,
            run,
        ).contains(ShellCall::UpdatePayer { account: tx.fee_payer, balance })),
{
    let place = order_calls(preamble.account, tx.seq_proxy, preamble.account_root, run.ticket);
    let calls = shell_calls(tx, facts, flags, run);
    let at = calls[place.len() as int];
    if preamble.prefunded {
        assert(at == ShellCall::UpdateSponsorship { left: charge.balance_after });
    } else {
        assert(at is UpdatePayer);
    }
}

/// An account that remembers transactions remembers this one, and the state of its handler is
/// opened only once all before it has been written.
pub proof fn transactions_are_remembered(
    tx: SubmitTx,
    preamble: Preamble,
    change: AccountChange,
    payer: FeePayer,
    charge: FeeCharge,
    run: ShellRun,
)
    requires
        write_fault(tx, preamble, charge.charged, run) is None,
    ensures
        ({
            let calls = write_calls(tx, preamble, change, payer, charge, run);
            let remembered = ShellCall::Chain { account: preamble.account, id: tx.id };
            &&& preamble.account_root.account_txn_id is Some ==> calls.last() == remembered
                && calls[calls.len() - 2] == ShellCall::Open(Scope::Handler)
            &&& preamble.account_root.account_txn_id is None ==> calls.last() == ShellCall::Open(
                Scope::Handler,
            )
        }),
        run.account_updated,
        run.prefix_captured,
        tx.fee_payer != preamble.account ==> run.payer_updated,
        tx.fee is Some && charge.charged > 0 ==> run.fee_destroyed,
        preamble.account_root.account_txn_id is Some ==> run.account_again is Found
            && run.account_chained,
{
}

/// The handler runs exactly where nothing before it has claimed the fee already; and what has is
/// what the transaction goes on with.
pub proof fn handler_runs_where_nothing_was_claimed(fee: Ter, preclaim: Ter, offer: Ter, oracle: Ter)
    ensures
        spec_next_step(fee, preclaim, offer, oracle) == ApplyStep::Dispatch <==> !fee.claim()
            && !preclaim.claim() && !offer.claim() && oracle.success(),
        fee.claim() ==> spec_next_step(fee, preclaim, offer, oracle) == ApplyStep::Settled(fee),
        !fee.claim() && preclaim.claim() ==> spec_next_step(fee, preclaim, offer, oracle)
            == ApplyStep::Settled(preclaim),
        !fee.claim() && !preclaim.claim() && offer.claim() ==> spec_next_step(
            fee,
            preclaim,
            offer,
            oracle,
        ) == ApplyStep::Settled(offer),
        !fee.claim() && !preclaim.claim() && !offer.claim() && !oracle.success() ==> spec_next_step(
            fee,
            preclaim,
            offer,
            oracle,
        ) == ApplyStep::Settled(oracle),
{
}

/// A good transaction is kept: a handler that succeeds, touches no more than it may and breaks no
/// invariant is put into the ledger, and the transaction succeeds.
pub proof fn a_good_transaction_is_kept(flags: ApplyFlags, context: SettleContext, run: SettleRun)
    requires
        run.handler.success(),
        run.item_count() <= OVERSIZE_METADATA_CAP,
        run.invariants.success(),
        run.committed,
    ensures
        spec_settle(ApplyStep::Dispatch, flags, context, run).result == Ter::TES_SUCCESS,
        !spec_settle(ApplyStep::Dispatch, flags, context, run).invariant_fee_reset,
        settle_calls(ApplyStep::Dispatch, flags, context, run) == seq![
            ShellCall::Dispatch { pre_fee_balance: context.pre_fee_balance },
            ShellCall::CheckInvariants {
                scope: InvariantScope::Handler,
                result: run.handler,
                fee: context.fee,
            },
            ShellCall::Keep(Scope::Handler),
        ],
{
}

/// A transaction that touches too much claims its fee as oversized, and one that breaks an
/// invariant is held to the invariants of its fee alone; in both cases nothing of the handler is
/// kept.
pub proof fn a_bad_success_claims_its_fee(flags: ApplyFlags, context: SettleContext, run: SettleRun)
    requires
        run.handler.success(),
    ensures
        run.item_count() <= OVERSIZE_METADATA_CAP && run.invariants == Ter::TEC_INVARIANT_FAILED
            ==> spec_settle(ApplyStep::Dispatch, flags, context, run).result
            == run.reset_invariants && spec_settle(
            ApplyStep::Dispatch,
            flags,
            context,
            run,
        ).invariant_fee_reset && settle_calls(ApplyStep::Dispatch, flags, context, run)
            == seq![
            ShellCall::Dispatch { pre_fee_balance: context.pre_fee_balance },
            ShellCall::CheckInvariants {
                scope: InvariantScope::Handler,
                result: run.handler,
                fee: context.fee,
            },
            ShellCall::Drop(Scope::Handler),
            ShellCall::CheckInvariants {
                scope: InvariantScope::Fee,
                result: Ter::TEC_INVARIANT_FAILED,
                fee: context.fee,
            },
        ],
        run.item_count() > OVERSIZE_METADATA_CAP && flags.fail_hard ==> spec_settle(
            ApplyStep::Dispatch,
            flags,
            context,
            run,
        ).result == Ter::TEC_OVERSIZE,
        run.item_count() <= OVERSIZE_METADATA_CAP && run.invariants.success() && !run.committed
            ==> spec_settle(ApplyStep::Dispatch, flags, context, run).result == Ter::TEF_INTERNAL,
{
}

/// An ordinary claim, or one that may heal, drops the handler. Its fee is held to the invariants
/// once more unless the transaction will be tried again or is to fail hard.
pub proof fn an_ordinary_claim_drops_the_handler(
    flags: ApplyFlags,
    context: SettleContext,
    run: SettleRun,
)
    requires
        run.item_count() <= OVERSIZE_METADATA_CAP,
        run.handler.claim() || run.handler.retry(),
        run.handler != Ter::TEC_INVARIANT_FAILED,
        run.handler != Ter::TEC_OVERSIZE,
        run.handler != Ter::TEC_KILLED,
        run.handler != Ter::TEC_INCOMPLETE,
        run.handler != Ter::TEC_EXPIRED,
    ensures
        ({
            let settled = spec_settle(ApplyStep::Dispatch, flags, context, run);
            let calls = settle_calls(ApplyStep::Dispatch, flags, context, run);
            let claims = run.handler.claim() && !flags.retry && !flags.fail_hard;
            &&& claims ==> settled.result == run.reset_invariants && calls == seq![
                ShellCall::Dispatch { pre_fee_balance: context.pre_fee_balance },
                ShellCall::Drop(Scope::Handler),
                ShellCall::CheckInvariants {
                    scope: InvariantScope::Fee,
                    result: run.handler,
                    fee: context.fee,
                },
            ]
            &&& !claims ==> settled.result == run.handler && calls == seq![
                ShellCall::Dispatch { pre_fee_balance: context.pre_fee_balance },
                ShellCall::Drop(Scope::Handler),
            ]
            &&& !settled.invariant_fee_reset
        }),
{
}

/// Which results still remove something: an oversized or killed transaction unfunded offers, an
/// incomplete one trust lines, and one that met something expired token offers and credentials. One
/// that is to fail hard removes nothing.
pub proof fn what_each_claim_removes(result: Ter, flags: ApplyFlags)
    ensures
        ({
            let plan = spec_cleanup_plan(result, flags);
            &&& plan.offers <==> !flags.fail_hard && (result == Ter::TEC_OVERSIZE || result
                == Ter::TEC_KILLED)
            &&& plan.trust_lines <==> !flags.fail_hard && result == Ter::TEC_INCOMPLETE
            &&& plan.nf_token_offers <==> !flags.fail_hard && result == Ter::TEC_EXPIRED
            &&& plan.credentials <==> !flags.fail_hard && result == Ter::TEC_EXPIRED
        }),
{
}

/// The offer that a killed offer was to replace stays; every other transaction spares none.
pub proof fn the_replaced_offer_stays(result: Ter, txn_type: TxType, replaced: Option<Uint256>)
    ensures
        result == Ter::TEC_KILLED && txn_type == TxType::OFFER_CREATE ==> spec_preserved_offer(
            result,
            txn_type,
            replaced,
        ) == replaced,
        result != Ter::TEC_KILLED || txn_type != TxType::OFFER_CREATE ==> spec_preserved_offer(
            result,
            txn_type,
            replaced,
        ) is None,
{
}

proof fn every_match_is_picked(erased: Seq<ErasedEntry>, pick: spec_fn(ErasedEntry) -> bool, i: int)
    requires
        0 <= i < erased.len(),
        pick(erased[i]),
    ensures
        picked(erased, pick).contains(erased[i].index),
    decreases erased.len(),
{
    let all = picked(erased, pick);
    let rest = picked(erased.drop_last(), pick);
    if i == erased.len() - 1 {
        assert(all[all.len() - 1] == erased[i].index);
    } else {
        every_match_is_picked(erased.drop_last(), pick, i);
        let k = choose|k: int| 0 <= k < rest.len() && rest[k] == erased[i].index;
        assert(all[k] == erased[i].index);
    }
}

/// What a cleanup is to remove of each kind is just what the handler erased of it: offers that
/// still asked for what they asked for and are not to stay, token offers, trust lines as long as
/// they are not too many, and credentials.
pub proof fn everything_of_a_kind_is_removed(
    run: CleanupRun,
    plan: CleanupPlan,
    preserved: Option<Uint256>,
    i: int,
)
    requires
        0 <= i < run.erased@.len(),
    ensures
        ({
            let erased = run.erased@[i];
            &&& plan.offers && erased.before == Read::Found(
                ErasedKind::Offer { taker_pays_kept: true },
            ) && preserved != Some(erased.index) ==> run.to_remove(
                RemovedKind::Offer,
                plan,
                preserved,
            ).contains(erased.index)
            &&& plan.nf_token_offers && erased.before == Read::Found(ErasedKind::NFTokenOffer)
                ==> run.to_remove(RemovedKind::NFTokenOffer, plan, preserved).contains(erased.index)
            &&& plan.credentials && erased.before == Read::Found(ErasedKind::Credential)
                ==> run.to_remove(RemovedKind::Credential, plan, preserved).contains(erased.index)
            &&& plan.trust_lines && erased.before == Read::Found(ErasedKind::RippleState)
                && run.erased@.len() <= 512 ==> run.to_remove(
                RemovedKind::TrustLine,
                plan,
                preserved,
            ).contains(erased.index)
        }),
{
    let erased = run.erased@[i];
    let offer = |e: ErasedEntry| e.removes_offer(plan, preserved);
    let token = |e: ErasedEntry| e.removes_nf_token_offer(plan);
    let credential = |e: ErasedEntry| e.removes_credential(plan);
    let line = |e: ErasedEntry| e.removes_trust_line(plan);
    if offer(erased) {
        every_match_is_picked(run.erased@, offer, i);
    }
    if token(erased) {
        every_match_is_picked(run.erased@, token, i);
    }
    if credential(erased) {
        every_match_is_picked(run.erased@, credential, i);
    }
    if line(erased) {
        every_match_is_picked(run.erased@, line, i);
        picking_never_adds(run.erased@, line);
    }
}

proof fn picking_never_adds(erased: Seq<ErasedEntry>, pick: spec_fn(ErasedEntry) -> bool)
    ensures
        picked(erased, pick).len() <= erased.len(),
    decreases erased.len(),
{
    if erased.len() > 0 {
        picking_never_adds(erased.drop_last(), pick);
    }
}

/// Nothing is removed that the plan does not name.
pub proof fn nothing_else_is_removed(run: CleanupRun, plan: CleanupPlan, preserved: Option<Uint256>)
    ensures
        !plan.offers ==> run.to_remove(RemovedKind::Offer, plan, preserved).len() == 0,
        !plan.nf_token_offers ==> run.to_remove(RemovedKind::NFTokenOffer, plan, preserved).len()
            == 0,
        !plan.trust_lines ==> run.to_remove(RemovedKind::TrustLine, plan, preserved).len() == 0,
        !plan.credentials ==> run.to_remove(RemovedKind::Credential, plan, preserved).len() == 0,
        preserved matches Some(index) ==> !run.to_remove(
            RemovedKind::Offer,
            plan,
            preserved,
        ).contains(index),
{
    nothing_matches(run.erased@, |e: ErasedEntry| e.removes_offer(plan, preserved), !plan.offers);
    nothing_matches(
        run.erased@,
        |e: ErasedEntry| e.removes_nf_token_offer(plan),
        !plan.nf_token_offers,
    );
    nothing_matches(run.erased@, |e: ErasedEntry| e.removes_trust_line(plan), !plan.trust_lines);
    nothing_matches(run.erased@, |e: ErasedEntry| e.removes_credential(plan), !plan.credentials);
    if let Some(index) = preserved {
        let offers = run.to_remove(RemovedKind::Offer, plan, preserved);
        if offers.contains(index) {
            crate::submit::cleanup::picked_was_erased(
                run.erased@,
                |e: ErasedEntry| e.removes_offer(plan, preserved),
                index,
            );
        }
    }
}

proof fn nothing_matches(
    erased: Seq<ErasedEntry>,
    pick: spec_fn(ErasedEntry) -> bool,
    barred: bool,
)
    requires
        barred ==> forall|e: ErasedEntry| !(#[trigger] pick(e)),
    ensures
        barred ==> picked(erased, pick).len() == 0,
    decreases erased.len(),
{
    if erased.len() > 0 {
        nothing_matches(erased.drop_last(), pick, barred);
    }
}

/// As long as every removal works and no limit is reached, every entry is removed that is still
/// there, in order.
pub proof fn removals_go_on_while_they_work(
    kind: RemovedKind,
    indexes: Seq<Uint256>,
    events: Seq<RemovalEvent>,
    n: int,
)
    requires
        0 <= n <= indexes.len(),
        n <= events.len(),
        n <= usize::MAX,
        kind is Offer ==> n <= UNFUNDED_OFFER_REMOVE_LIMIT,
        kind is NFTokenOffer ==> n <= EXPIRED_OFFER_REMOVE_LIMIT,
        forall|i: int| 0 <= i < n ==> #[trigger] events[i] == RemovalEvent::Removed(Ter::TES_SUCCESS),
    ensures
        removal_calls(kind, indexes, events, n).len() == n,
        forall|i: int|
            0 <= i < n ==> #[trigger] removal_calls(kind, indexes, events, n)[i] == (
            ShellCall::Remove { kind, index: indexes[i] }),
        !removals_after(kind, events, n).failed,
        removals_after(kind, events, n) == (Removals {
            removed: n as usize,
            ..Removals::of(kind)
        }),
    decreases n,
{
    if n > 0 {
        removals_go_on_while_they_work(kind, indexes, events, n - 1);
        assert(events[n - 1] == RemovalEvent::Removed(Ter::TES_SUCCESS));
        assert(removals_after(kind, events, n - 1).open());
    }
}

/// A removal that cannot be read or written breaks the cleanup of any kind; that the removal itself
/// failed breaks that of offers and trust lines alone.
pub proof fn a_broken_removal_breaks_the_cleanup(kind: RemovedKind, ter: Ter)
    requires
        ter.failure() || ter == Ter::TEC_INTERNAL,
    ensures
        removals_after(kind, seq![RemovalEvent::Unreadable], 1).failed,
        removals_after(kind, seq![RemovalEvent::Broken], 1).failed,
        !removals_after(kind, seq![RemovalEvent::Missing], 1).failed,
        removals_after(kind, seq![RemovalEvent::Removed(ter)], 1).failed <==> kind is Offer
            || kind is TrustLine,
{
    reveal_with_fuel(removals_after, 3);
}

/// What is told to be delivered is what a successful payment, cashed check or deleted account
/// delivered, and nothing of any other transaction.
pub proof fn deliveries_are_told(
    tx: SubmitTx,
    facts: ShellFacts,
    flags: ApplyFlags,
    run: ShellRun,
    outer: OuterRun,
)
    ensures
        ({
            let r = submit_outcome(tx, facts, flags, run, outer);
            let tells = tx.txn_type == TxType::PAYMENT || tx.txn_type == TxType::CHECK_CASH
                || tx.txn_type == TxType::ACCOUNT_DELETE;
            &&& r.delivered_amount is Some ==> tells && r.result.success() && r.delivered_amount
                == outer.delivered
            &&& tells && r.result.success() && outer.panicked is None && !tx.inner_batch
                ==> r.delivered_amount == outer.delivered
        }),
{
}

/// A transaction that is no batch is applied where it succeeds, or claims its fee while it neither
/// will be tried again nor is to fail hard; where it could not be written it fails, and a dry run
/// leaves nothing.
pub proof fn what_is_kept_is_applied(
    tx: SubmitTx,
    facts: ShellFacts,
    flags: ApplyFlags,
    run: ShellRun,
    outer: OuterRun,
)
    requires
        tx.txn_type != TxType::BATCH,
        !tx.inner_batch,
        outer.panicked is None,
    ensures
        ({
            let came_to = shell_outcome(tx, facts, flags, run).result;
            let r = submit_outcome(tx, facts, flags, run, outer);
            let written = outer.transaction_kept && outer.whole_kept;
            let claims = came_to.claim() && came_to != Ter::TEC_INVARIANT_FAILED && came_to
                != Ter::TEC_OVERSIZE && came_to != Ter::TEC_KILLED && came_to
                != Ter::TEC_INCOMPLETE && came_to != Ter::TEC_EXPIRED;
            &&& came_to.success() && written ==> r.result.success() && r.applied == !flags.dry_run
            &&& came_to.success() && !written ==> r.result == Ter::TEF_INTERNAL && !r.applied
            &&& claims && written ==> r.result == came_to && r.applied == (!flags.retry
                && !flags.fail_hard && !flags.dry_run)
            &&& (came_to == Ter::TEC_OVERSIZE || came_to == Ter::TEC_KILLED || came_to
                == Ter::TEC_INCOMPLETE || came_to == Ter::TEC_EXPIRED) && written ==> r.applied == (
            !flags.fail_hard && !flags.dry_run)
            &&& !came_to.likely_to_claim_fee() ==> !r.applied && r.result == came_to
        }),
{
}

/// A transaction that panics leaves nothing, and one that is let in with a claim keeps it.
pub proof fn a_panic_leaves_nothing(
    tx: SubmitTx,
    facts: ShellFacts,
    flags: ApplyFlags,
    run: ShellRun,
    outer: OuterRun,
)
    requires
        tx.txn_type != TxType::BATCH,
        !tx.inner_batch,
        outer.panicked is Some,
    ensures
        submit_outcome(tx, facts, flags, run, outer).result == Ter::TEF_EXCEPTION,
        !submit_outcome(tx, facts, flags, run, outer).applied,
        !submit_calls(tx, facts, flags, run, outer).contains(ShellCall::Keep(Scope::Transaction))
            || shell_calls(tx, facts, flags, run).contains(ShellCall::Keep(Scope::Transaction)),
{
    let asked = shell_calls(tx, facts, flags, run);
    let calls = submit_calls(tx, facts, flags, run, outer);
    let keep = ShellCall::Keep(Scope::Transaction);
    if calls.contains(keep) {
        let i = choose|i: int| 0 <= i < calls.len() && calls[i] == keep;
        assert(asked[i - 2] == keep);
    }
}

/// A batch is looked at as a whole before it is let in: what is found of its fields refuses it, and
/// what is found of its signers too, unless it claims.
pub proof fn a_batch_is_looked_at_first(
    tx: SubmitTx,
    facts: ShellFacts,
    flags: ApplyFlags,
    run: ShellRun,
    outer: OuterRun,
)
    requires
        tx.txn_type == TxType::BATCH,
    ensures
        !outer.batch_preflight.success() ==> submit_outcome(tx, facts, flags, run, outer).result
            == outer.batch_preflight && submit_calls(tx, facts, flags, run, outer).len() == 0,
        outer.batch_preflight.success() && facts.preclaim_result.success()
            && !outer.batch_preclaim.likely_to_claim_fee() ==> submit_outcome(
            tx,
            facts,
            flags,
            run,
            outer,
        ).result == outer.batch_preclaim && submit_calls(tx, facts, flags, run, outer).len() == 0,
{
}

proof fn unbroken_batches_run_on(
    runs: Seq<InnerRun>,
    mode: BatchMode,
    destination: BatchApplyDestination,
    n: int,
)
    requires
        0 <= n <= runs.len() <= usize::MAX,
        !mode.all_or_nothing,
        !mode.only_one,
        !mode.until_failure,
        forall|i: int|
            0 <= i < n ==> (#[trigger] runs[i]).committed && runs[i].described,
    ensures
        progress_after(runs, mode, destination, n) == BatchProgress::Running,
        forall|i: int|
            0 <= i < n && (#[trigger] runs[i]).result.likely_to_claim_fee() ==> applied_among(
                runs,
                mode,
                destination,
                n,
            ).contains(i as usize),
    decreases n,
{
    if n > 0 {
        unbroken_batches_run_on(runs, mode, destination, n - 1);
        let before = applied_among(runs, mode, destination, n - 1);
        let after = applied_among(runs, mode, destination, n);
        assert forall|i: int|
            0 <= i < n && (#[trigger] runs[i]).result.likely_to_claim_fee() implies after.contains(
            i as usize,
        ) by {
            if i == n - 1 {
                assert(after[after.len() - 1] == i as usize);
            } else {
                let k = choose|k: int| 0 <= k < before.len() && before[k] == i as usize;
                assert(after[k] == i as usize);
            }
        }
    }
}

/// Without any bond between them every transaction of a batch stands for itself: each that succeeds
/// or claims its fee stays, whatever becomes of the others.
pub proof fn independent_transactions_all_stay(
    runs: Seq<InnerRun>,
    mode: BatchMode,
    destination: BatchApplyDestination,
)
    requires
        runs.len() <= usize::MAX,
        !mode.all_or_nothing,
        !mode.only_one,
        !mode.until_failure,
        forall|i: int|
            0 <= i < runs.len() ==> (#[trigger] runs[i]).committed && runs[i].described,
    ensures
        followup_result(runs, mode, destination, true) == Ter::TES_SUCCESS,
        forall|i: int|
            0 <= i < runs.len() && (#[trigger] runs[i]).result.likely_to_claim_fee()
                ==> followup_applied(runs, mode, destination, true).contains(i as usize),
{
    unbroken_batches_run_on(runs, mode, destination, runs.len() as int);
}

proof fn successes_run_on(
    runs: Seq<InnerRun>,
    mode: BatchMode,
    destination: BatchApplyDestination,
    n: int,
)
    requires
        0 <= n <= runs.len() <= usize::MAX,
        !mode.only_one,
        forall|i: int|
            0 <= i < n ==> (#[trigger] runs[i]).result.success() && runs[i].committed
                && runs[i].described,
    ensures
        progress_after(runs, mode, destination, n) == BatchProgress::Running,
        applied_among(runs, mode, destination, n) == Seq::new(n as nat, |i: int| i as usize),
    decreases n,
{
    if n > 0 {
        successes_run_on(runs, mode, destination, n - 1);
        assert(applied_among(runs, mode, destination, n) =~= Seq::new(
            n as nat,
            |i: int| i as usize,
        ));
    }
}

/// Where every transaction of a batch succeeds, all of them stay, be it all or nothing or until
/// failure; and one failure leaves nothing of the one and stops the other.
pub proof fn success_throughout_keeps_everything(
    runs: Seq<InnerRun>,
    mode: BatchMode,
    destination: BatchApplyDestination,
)
    requires
        runs.len() <= usize::MAX,
        !mode.only_one,
        forall|i: int|
            0 <= i < runs.len() ==> (#[trigger] runs[i]).result.success() && runs[i].committed
                && runs[i].described,
    ensures
        followup_result(runs, mode, destination, true) == Ter::TES_SUCCESS,
        followup_applied(runs, mode, destination, true).len() == runs.len(),
{
    successes_run_on(runs, mode, destination, runs.len() as int);
}

/// All or nothing: one transaction that does not succeed leaves nothing of the batch, which
/// succeeds itself unless the ledger failed.
pub proof fn one_failure_leaves_nothing(
    runs: Seq<InnerRun>,
    mode: BatchMode,
    destination: BatchApplyDestination,
    whole_committed: bool,
    at: int,
)
    requires
        mode.all_or_nothing,
        !mode.only_one,
        runs.len() <= usize::MAX,
        0 <= at < runs.len(),
        !runs[at].result.success(),
    ensures
        followup_applied(runs, mode, destination, whole_committed).len() == 0,
{
    crate::submit::batch::all_or_nothing_holds(runs, mode, destination, whole_committed);
}

/// Until failure: nothing behind the first transaction that does not succeed is run.
pub proof fn nothing_follows_a_failure(
    runs: Seq<InnerRun>,
    mode: BatchMode,
    destination: BatchApplyDestination,
    whole_committed: bool,
    at: int,
)
    requires
        mode.until_failure,
        !mode.all_or_nothing,
        !mode.only_one,
        runs.len() <= usize::MAX,
        0 <= at < runs.len(),
        !runs[at].result.success(),
        forall|i: int|
            0 <= i < at ==> (#[trigger] runs[i]).result.success() && runs[i].committed
                && runs[i].described,
    ensures
        followup_applied(runs, mode, destination, whole_committed).len() <= at + 1,
        whole_committed && runs[at].committed && runs[at].described ==> followup_applied(
            runs,
            mode,
            destination,
            whole_committed,
        ).len() >= at,
{
    successes_run_on(runs, mode, destination, at);
    assert(progress_after(runs, mode, destination, at + 1) != BatchProgress::Running);
    stopped_stays_stopped(runs, mode, destination, at + 1, runs.len() as int);
}

/// Only one: the first transaction that succeeds ends the batch, and stays.
pub proof fn the_first_success_ends_it(
    runs: Seq<InnerRun>,
    mode: BatchMode,
    destination: BatchApplyDestination,
    at: int,
)
    requires
        mode.only_one,
        !mode.all_or_nothing,
        !mode.until_failure,
        runs.len() <= usize::MAX,
        0 <= at < runs.len(),
        runs[at].result.success(),
        forall|i: int|
            0 <= i <= at ==> (#[trigger] runs[i]).committed && runs[i].described,
        forall|i: int| 0 <= i < at ==> !(#[trigger] runs[i]).result.success(),
    ensures
        ({
            let applied = followup_applied(runs, mode, destination, true);
            &&& followup_result(runs, mode, destination, true) == Ter::TES_SUCCESS
            &&& applied.len() > 0 && applied.last() == at
        }),
{
    failures_run_on(runs, mode, destination, at);
    assert(progress_after(runs, mode, destination, at + 1) == BatchProgress::Stopped);
    stopped_stays_stopped(runs, mode, destination, at + 1, runs.len() as int);
}

proof fn failures_run_on(
    runs: Seq<InnerRun>,
    mode: BatchMode,
    destination: BatchApplyDestination,
    n: int,
)
    requires
        0 <= n <= runs.len() <= usize::MAX,
        !mode.all_or_nothing,
        !mode.until_failure,
        forall|i: int|
            0 <= i < n ==> !(#[trigger] runs[i]).result.success() && runs[i].committed
                && runs[i].described,
    ensures
        progress_after(runs, mode, destination, n) == BatchProgress::Running,
    decreases n,
{
    if n > 0 {
        failures_run_on(runs, mode, destination, n - 1);
    }
}

/// A ledger that fails while a batch is applied fails the batch, and nothing of it stays.
pub proof fn a_broken_batch_leaves_nothing(
    runs: Seq<InnerRun>,
    mode: BatchMode,
    destination: BatchApplyDestination,
)
    requires
        runs.len() > 0,
        runs[0].result.likely_to_claim_fee(),
        !runs[0].committed || (destination != BatchApplyDestination::Open && !runs[0].described),
    ensures
        followup_result(runs, mode, destination, true) == Ter::TEF_INTERNAL,
        followup_applied(runs, mode, destination, true).len() == 0,
{
    reveal_with_fuel(progress_after, 2);
    assert(progress_after(runs, mode, destination, 1) == BatchProgress::Failed);
    stopped_stays_stopped(runs, mode, destination, 1, runs.len() as int);
}

/// The handler of an admitted transaction runs exactly where neither its fee nor what was found of
/// it has claimed already, and it sees the balance that was there before the fee.
pub proof fn admitted_transactions_are_handled(
    tx: SubmitTx,
    facts: ShellFacts,
    flags: ApplyFlags,
    run: ShellRun,
    preamble: Preamble,
    charge: FeeCharge,
)
    requires
        tx.admission(facts) == Admission::Preamble(preamble),
        order_taken(tx.seq_proxy, preamble.account_root, run.ticket) is Ok,
        fee_taken(spec_fee_payer(tx, preamble, run), stated_fee(tx), facts.open) == Ok::<
            FeeCharge,
            Ter,
        >(charge),
        write_fault(tx, preamble, charge.charged, run) is None,
    ensures
        ({
            let handled = !charge.result.claim() && !facts.preclaim_result.claim() && !(tx.txn_type
                == TxType::OFFER_CREATE && facts.offer_preclaim.claim()) && !(tx.txn_type
                == TxType::ORACLE_SET && !facts.oracle_preclaim.success());
            let context = settle_context(tx, preamble, charge.charged);
            &&& handled ==> preamble_step(tx, facts, charge) == ApplyStep::Dispatch
                && shell_calls(tx, facts, flags, run).contains(
                ShellCall::Dispatch { pre_fee_balance: preamble.account_root.balance },
            )
            &&& charge.result.claim() ==> preamble_step(tx, facts, charge) == ApplyStep::Settled(
                charge.result,
            )
            &&& !charge.result.claim() && facts.preclaim_result.claim() ==> preamble_step(
                tx,
                facts,
                charge,
            ) == ApplyStep::Settled(facts.preclaim_result)
            &&& !handled ==> preamble_step(tx, facts, charge) is Settled
            &&& shell_outcome(tx, facts, flags, run) == spec_settle(
                preamble_step(tx, facts, charge),
                flags,
                context,
                run.settle,
            )
            &&& context.fee == charge.charged
            &&& Some(context.account) == tx.account
            &&& context.txn_type == tx.txn_type
            &&& context.replaced_offer == tx.replaced_offer
            &&& context.pre_fee_balance == preamble.account_root.balance
        }),
{
    let order = order_taken(tx.seq_proxy, preamble.account_root, run.ticket)->Ok_0;
    let payer = spec_fee_payer(tx, preamble, run);
    let change = account_change(preamble, order, payer, charge);
    let place = order_calls(preamble.account, tx.seq_proxy, preamble.account_root, run.ticket);
    let written = write_calls(tx, preamble, change, payer, charge, run);
    let calls = shell_calls(tx, facts, flags, run);
    if preamble_step(tx, facts, charge) == ApplyStep::Dispatch {
        assert(calls[(place.len() + written.len()) as int] == (ShellCall::Dispatch {
            pre_fee_balance: preamble.account_root.balance,
        }));
    }
}

/// An admitted transaction ends before its handler where its place or its fee cannot be taken, or
/// where what was taken cannot be written.
pub proof fn admitted_transactions_end_early(
    tx: SubmitTx,
    facts: ShellFacts,
    flags: ApplyFlags,
    run: ShellRun,
    preamble: Preamble,
)
    requires
        tx.admission(facts) == Admission::Preamble(preamble),
    ensures
        ({
            let order = order_taken(tx.seq_proxy, preamble.account_root, run.ticket);
            let fee = fee_taken(spec_fee_payer(tx, preamble, run), stated_fee(tx), facts.open);
            let r = shell_outcome(tx, facts, flags, run);
            &&& order matches Err(ter) ==> r.result == ter
            &&& order is Ok ==> (fee matches Err(ter) ==> r.result == ter)
            &&& order is Ok ==> (fee matches Ok(charge) ==> (write_fault(
                tx,
                preamble,
                charge.charged,
                run,
            ) matches Some(ter) ==> r.result == ter))
        }),
        tx.admission(facts) matches Admission::Refused(ter) ==> shell_outcome(
            tx,
            facts,
            flags,
            run,
        ).result == ter,
        tx.fee matches Some(fee) ==> stated_fee(tx) == Some(fee.drops),
        tx.fee is None ==> stated_fee(tx) is None,
{
}

/// What a transaction is refused with is what it comes to, and nothing is asked for.
pub proof fn refused_transactions_do_nothing(
    tx: SubmitTx,
    facts: ShellFacts,
    flags: ApplyFlags,
    run: ShellRun,
    ter: Ter,
)
    requires
        tx.admission(facts) == Admission::Refused(ter),
    ensures
        shell_outcome(tx, facts, flags, run).result == ter,
        !shell_outcome(tx, facts, flags, run).invariant_fee_reset,
        shell_calls(tx, facts, flags, run).len() == 0,
{
}

/// What was taken cannot be written where the payer, the account, the fee, what the invariants need
/// or the link to the transaction cannot be: then the ledger is bad, or, where the account is gone
/// by the time it is to be linked, something is wrong here.
pub proof fn writing_fails_for_a_reason(
    tx: SubmitTx,
    preamble: Preamble,
    charged: i64,
    run: ShellRun,
)
    ensures
        write_fault(tx, preamble, charged, run) is None <==> {
            &&& tx.fee_payer != preamble.account ==> run.payer_updated
            &&& run.account_updated
            &&& tx.fee is Some && charged > 0 ==> run.fee_destroyed
            &&& run.prefix_captured
            &&& preamble.account_root.account_txn_id is Some ==> run.account_again is Found
                && run.account_chained
        },
        tx.fee_payer != preamble.account && !run.payer_updated ==> write_fault(
            tx,
            preamble,
            charged,
            run,
        ) == Some(Ter::TEF_BAD_LEDGER),
        !run.account_updated || !run.prefix_captured ==> write_fault(tx, preamble, charged, run)
            == Some(Ter::TEF_BAD_LEDGER),
        tx.fee is Some && charged > 0 && !run.fee_destroyed ==> write_fault(
            tx,
            preamble,
            charged,
            run,
        ) == Some(Ter::TEF_BAD_LEDGER),
        write_fault(tx, preamble, charged, run) matches Some(ter) ==> ter == Ter::TEF_BAD_LEDGER || (
        ter == Ter::TEF_INTERNAL && preamble.account_root.account_txn_id is Some
            && run.account_again is Missing),
        preamble.account_root.account_txn_id is Some && run.account_again is Missing
            && run.account_updated && run.prefix_captured && (tx.fee is Some && charged > 0
            ==> run.fee_destroyed) && (tx.fee_payer == preamble.account || run.payer_updated)
            ==> write_fault(tx, preamble, charged, run) == Some(Ter::TEF_INTERNAL),
{
}

/// A handler that fails, or finds the transaction malformed, leaves nothing of it: the account gets
/// its sequence and its fee back, and the result stands where it could.
pub proof fn failures_give_everything_back(
    flags: ApplyFlags,
    context: SettleContext,
    run: SettleRun,
)
    requires
        run.handler.failure() || run.handler.malformed(),
    ensures
        run.restored ==> spec_settle(ApplyStep::Dispatch, flags, context, run).result
            == run.handler,
        !run.restored ==> spec_settle(ApplyStep::Dispatch, flags, context, run).result
            == Ter::TEF_BAD_LEDGER,
        !spec_settle(ApplyStep::Dispatch, flags, context, run).invariant_fee_reset,
        settle_calls(ApplyStep::Dispatch, flags, context, run) == seq![
            ShellCall::Dispatch { pre_fee_balance: context.pre_fee_balance },
            ShellCall::Drop(Scope::Handler),
            ShellCall::RestoreAccount { account: context.account },
        ],
{
}

/// What claimed the fee before the handler is settled as if the handler had come to it, but the
/// handler is not asked.
pub proof fn claims_before_the_handler(
    ter: Ter,
    flags: ApplyFlags,
    context: SettleContext,
    run: SettleRun,
)
    requires
        ter == run.handler,
    ensures
        spec_settle(ApplyStep::Settled(ter), flags, context, run) == spec_settle(
            ApplyStep::Dispatch,
            flags,
            context,
            run,
        ),
        settle_calls(ApplyStep::Dispatch, flags, context, run) == seq![
            ShellCall::Dispatch { pre_fee_balance: context.pre_fee_balance },
        ] + settle_calls(ApplyStep::Settled(ter), flags, context, run),
{
}

/// A claim that removes something drops the handler and removes it in a state of its own, which is
/// kept where the invariants let it be; otherwise the fee alone is held to them.
pub proof fn claims_that_remove_something(
    flags: ApplyFlags,
    context: SettleContext,
    run: SettleRun,
)
    requires
        run.item_count() <= OVERSIZE_METADATA_CAP,
        run.handler == Ter::TEC_OVERSIZE || run.handler == Ter::TEC_KILLED || run.handler
            == Ter::TEC_INCOMPLETE || run.handler == Ter::TEC_EXPIRED,
        !flags.fail_hard,
    ensures
        ({
            let plan = spec_cleanup_plan(run.handler, flags);
            let preserved = spec_preserved_offer(
                run.handler,
                context.txn_type,
                context.replaced_offer,
            );
            let r = spec_settle(ApplyStep::Dispatch, flags, context, run);
            let calls = settle_calls(ApplyStep::Dispatch, flags, context, run);
            let broken = run.cleanup.failed(plan, preserved);
            &&& calls[1] == ShellCall::Drop(Scope::Handler)
            &&& calls[2] == ShellCall::Open(Scope::Cleanup)
            &&& broken ==> r.result == Ter::TEF_BAD_LEDGER
            &&& !broken && run.cleanup_invariants == Ter::TEC_INVARIANT_FAILED ==> r.result
                == run.reset_invariants && r.invariant_fee_reset && calls.last() == (
            ShellCall::CheckInvariants {
                scope: InvariantScope::Fee,
                result: run.cleanup_invariants,
                fee: context.fee,
            })
            &&& !broken && run.cleanup_invariants == run.handler && run.cleanup_committed
                ==> r.result == run.handler && calls.last() == ShellCall::Keep(Scope::Cleanup)
            &&& !broken && run.cleanup_invariants == run.handler && !run.cleanup_committed
                ==> r.result == Ter::TEF_INTERNAL
            &&& !broken ==> calls.contains(
                ShellCall::CheckInvariants {
                    scope: InvariantScope::Cleanup,
                    result: run.handler,
                    fee: context.fee,
                },
            )
        }),
{
    let plan = spec_cleanup_plan(run.handler, flags);
    let preserved = spec_preserved_offer(run.handler, context.txn_type, context.replaced_offer);
    let calls = settle_calls(ApplyStep::Dispatch, flags, context, run);
    let removed = run.cleanup.calls(plan, preserved).len() as int;
    if !run.cleanup.failed(plan, preserved) {
        assert(calls[3 + removed] is CheckInvariants);
    }
}

/// A cleanup cannot be kept exactly where something could not be read, or removing some kind broke
/// something; the kinds are removed in turn, and nothing behind one that broke something.
pub proof fn cleanups_break_with_any_kind(
    run: CleanupRun,
    plan: CleanupPlan,
    preserved: Option<Uint256>,
    i: int,
)
    ensures
        0 <= i < run.erased@.len() && run.erased@[i].before is Failed ==> run.failed(plan, preserved)
            && run.calls(plan, preserved).len() == 0,
        run.breaks_at(RemovedKind::Offer, plan, preserved) ==> run.failed(plan, preserved),
        run.breaks_at(RemovedKind::NFTokenOffer, plan, preserved) ==> run.failed(plan, preserved),
        run.breaks_at(RemovedKind::TrustLine, plan, preserved) ==> run.failed(plan, preserved),
        run.breaks_at(RemovedKind::Credential, plan, preserved) ==> run.failed(plan, preserved),
        !run.failed(plan, preserved) ==> run.calls(plan, preserved) == run.calls_for(
            RemovedKind::Offer,
            plan,
            preserved,
        ) + run.calls_for(RemovedKind::NFTokenOffer, plan, preserved) + run.calls_for(
            RemovedKind::TrustLine,
            plan,
            preserved,
        ) + run.calls_for(RemovedKind::Credential, plan, preserved),
        !run.unreadable() && run.breaks_at(RemovedKind::Offer, plan, preserved) ==> run.calls(
            plan,
            preserved,
        ) == run.calls_for(RemovedKind::Offer, plan, preserved),
        (forall|k: int| 0 <= k < run.erased@.len() ==> !((#[trigger] run.erased@[k]).before is Failed))
            && !run.breaks_at(RemovedKind::Offer, plan, preserved) && !run.breaks_at(
            RemovedKind::NFTokenOffer,
            plan,
            preserved,
        ) && !run.breaks_at(RemovedKind::TrustLine, plan, preserved) && !run.breaks_at(
            RemovedKind::Credential,
            plan,
            preserved,
        ) ==> !run.failed(plan, preserved),
        run.events(RemovedKind::Offer) == run.offers@,
        run.events(RemovedKind::NFTokenOffer) == run.nf_token_offers@,
        run.events(RemovedKind::TrustLine) == run.trust_lines@,
        run.events(RemovedKind::Credential) == run.credentials@,
{
    if 0 <= i < run.erased@.len() && run.erased@[i].before is Failed {
        assert(run.unreadable());
    }
    if !run.failed(plan, preserved) {
        assert(run.calls(plan, preserved) =~= run.calls_for(RemovedKind::Offer, plan, preserved)
            + run.calls_for(RemovedKind::NFTokenOffer, plan, preserved) + run.calls_for(
            RemovedKind::TrustLine,
            plan,
            preserved,
        ) + run.calls_for(RemovedKind::Credential, plan, preserved));
    }
}

/// Where the effects of a batch go, and how its inside is applied: marked as the inside of a batch,
/// and kept unless it is only tried.
pub proof fn where_the_inside_of_a_batch_goes(open: bool, flags: ApplyFlags)
    ensures
        ({
            let to = BatchApplyDestination::spec_for_view(open, flags);
            &&& flags.dry_run ==> to == BatchApplyDestination::DryRun
            &&& !flags.dry_run && open ==> to == BatchApplyDestination::Open
            &&& !flags.dry_run && !open ==> to == BatchApplyDestination::Closed
            &&& spec_inner_flags(to).batch
            &&& spec_inner_flags(to).dry_run == flags.dry_run
            &&& !spec_inner_flags(to).retry
            &&& !spec_inner_flags(to).fail_hard
        }),
{
}

/// A transaction inside a batch comes to what was found against it, to a failure where it panicked,
/// and else to what applying it came to; it is described where its effects are written down, and
/// kept.
pub proof fn what_the_inside_of_a_batch_comes_to(
    inner: InnerTx,
    position: usize,
    destination: BatchApplyDestination,
)
    ensures
        ({
            let found = if inner.preflight.success() {
                inner.preclaim
            } else {
                inner.preflight
            };
            let admitted = found.success() || found.claim();
            let r = inner.result(destination);
            let calls = inner.calls(position, destination);
            let kept = r.success() || r.claim();
            &&& !admitted ==> r == found
            &&& admitted && inner.panicked is Some ==> r == Ter::TEF_EXCEPTION
            &&& admitted && inner.panicked is None ==> r == shell_outcome(
                inner.tx,
                ShellFacts { preclaim_result: found, ..inner.facts },
                spec_inner_flags(destination),
                inner.run,
            ).result
            &&& calls[0] == ShellCall::Open(Scope::Inner(position))
            &&& kept && destination == BatchApplyDestination::Open ==> calls.last()
                == ShellCall::Keep(Scope::Inner(position))
            &&& kept && destination != BatchApplyDestination::Open && inner.described
                ==> calls.last() == ShellCall::Keep(Scope::Inner(position)) && calls[calls.len() - 2]
                == (ShellCall::Describe {
                inner: Some(position),
                delivered: inner.delivered_amount(destination),
            })
            &&& !admitted ==> calls.len() == 1
            &&& inner.delivered_amount(destination) is Some ==> r.success() && (inner.tx.txn_type
                == TxType::PAYMENT || inner.tx.txn_type == TxType::CHECK_CASH || inner.tx.txn_type
                == TxType::ACCOUNT_DELETE) && inner.delivered_amount(destination)
                == inner.delivered
            &&& admitted && inner.panicked is None && r.success() && inner.tx.txn_type
                == TxType::PAYMENT ==> inner.delivered_amount(destination) == inner.delivered
        }),
{
}

/// What stays of a batch is told with its own identity and its own result, and the whole of it is
/// kept where anything stays.
pub proof fn what_stays_of_a_batch(batch: BatchRun, destination: BatchApplyDestination, k: int)
    ensures
        batch.inner matches Err(ter) ==> spec_followup(batch, destination).0 == ter
            && spec_followup(batch, destination).1.len() == 0 && followup_calls(batch, destination)
            == seq![ShellCall::Open(Scope::Batch)],
        batch.inner matches Ok(inner) ==> {
            let runs = inner_runs(inner@, destination);
            let places = followup_applied(runs, batch.mode, destination, batch.whole_committed);
            let stays = spec_followup(batch, destination).1;
            &&& stays.len() == places.len()
            &&& 0 <= k < places.len() ==> stays[k].transaction_id
                == inner@[places[k] as int].tx.id && stays[k].result
                == inner@[places[k] as int].result(destination)
            &&& followup_calls(batch, destination)[0] == ShellCall::Open(Scope::Batch)
            &&& places.len() > 0 ==> followup_calls(batch, destination).last() == ShellCall::Keep(
                Scope::Batch,
            )
            &&& runs.len() == inner@.len()
            &&& 0 <= k < inner@.len() ==> runs[k].result == inner@[k].result(destination)
                && runs[k].described == inner@[k].described && runs[k].committed
                == inner@[k].committed
        },
{
    if let Ok(inner) = batch.inner {
        let calls = followup_calls(batch, destination);
        assert(calls[0] == ShellCall::Open(Scope::Batch));
    }
}

/// A batch into a closed ledger has its own effects kept first and its inside on top of them: it is
/// applied with its inside, or not at all.
pub proof fn a_batch_goes_into_a_closed_ledger(
    tx: SubmitTx,
    facts: ShellFacts,
    flags: ApplyFlags,
    run: ShellRun,
    outer: OuterRun,
)
    requires
        tx.txn_type == TxType::BATCH,
        outer.batch_preflight.success(),
        facts.preclaim_result.success(),
        outer.batch_preclaim.success(),
        outer.panicked is None,
        shell_outcome(
            tx,
            ShellFacts { preclaim_result: outer.batch_preclaim, ..facts },
            flags,
            run,
        ).result.success(),
        !facts.open,
        !flags.dry_run,
    ensures
        ({
            let r = submit_outcome(tx, facts, flags, run, outer);
            let inside = spec_followup(outer.batch, BatchApplyDestination::Closed);
            let written = outer.described && outer.transaction_kept;
            &&& !written ==> r.result == Ter::TEF_INTERNAL && !r.applied
            &&& written && !inside.0.success() ==> r.result == inside.0 && !r.applied
            &&& written && inside.0.success() && !outer.whole_kept ==> r.result
                == Ter::TEF_INTERNAL && !r.applied
            &&& written && inside.0.success() && outer.whole_kept ==> r.result == inside.0
                && r.applied && r.prebuilt_outer_metadata && r.applied_batch_inner_transactions
                == inside.1
            &&& !r.applied ==> r.applied_batch_inner_transactions.len() == 0
        }),
{
}

/// A transaction of a batch never comes in by itself.
pub proof fn parts_of_a_batch_do_not_come_alone(
    tx: SubmitTx,
    facts: ShellFacts,
    flags: ApplyFlags,
    run: ShellRun,
    outer: OuterRun,
)
    requires
        tx.inner_batch,
        tx.txn_type != TxType::BATCH,
    ensures
        submit_outcome(tx, facts, flags, run, outer).result == Ter::TEM_INVALID_INNER_BATCH,
        !submit_outcome(tx, facts, flags, run, outer).applied,
        submit_calls(tx, facts, flags, run, outer).len() == 0,
{
}

/// Every transaction is applied in a state of its own within that of the whole, and both are kept
/// at the end where what it did is.
pub proof fn what_is_done_is_kept(
    tx: SubmitTx,
    facts: ShellFacts,
    flags: ApplyFlags,
    run: ShellRun,
    outer: OuterRun,
)
    requires
        tx.txn_type != TxType::BATCH,
        !tx.inner_batch,
        outer.panicked is None,
    ensures
        ({
            let came_to = shell_outcome(tx, facts, flags, run).result;
            let asked = shell_calls(tx, facts, flags, run);
            let calls = submit_calls(tx, facts, flags, run, outer);
            &&& calls[0] == ShellCall::Open(Scope::Whole)
            &&& calls[1] == ShellCall::Open(Scope::Transaction)
            &&& came_to.success() && outer.transaction_kept ==> calls.len() == asked.len() + 4
                && calls[calls.len() - 2] == ShellCall::Keep(Scope::Transaction) && calls.last()
                == ShellCall::Keep(Scope::Whole)
            &&& came_to.success() && !outer.transaction_kept ==> calls.last() == ShellCall::Keep(
                Scope::Transaction,
            )
            &&& !came_to.likely_to_claim_fee() ==> calls.len() == asked.len() + 2
        }),
{
}

/// A batch into a closed ledger is described first; then its own effects are kept, then its inside
/// is applied, and the whole is kept last. What follows a step that did not work is not asked for.
pub proof fn a_closed_batch_is_kept_in_order(
    tx: SubmitTx,
    facts: ShellFacts,
    flags: ApplyFlags,
    run: ShellRun,
    outer: OuterRun,
)
    requires
        tx.txn_type == TxType::BATCH,
        outer.batch_preflight.success(),
        facts.preclaim_result.success(),
        outer.batch_preclaim.success(),
        outer.panicked is None,
        shell_outcome(
            tx,
            ShellFacts { preclaim_result: outer.batch_preclaim, ..facts },
            flags,
            run,
        ).result.success(),
        !facts.open,
        !flags.dry_run,
    ensures
        ({
            let calls = submit_calls(tx, facts, flags, run, outer);
            let asked = shell_calls(
                tx,
                ShellFacts { preclaim_result: outer.batch_preclaim, ..facts },
                flags,
                run,
            );
            let inside = followup_calls(outer.batch, BatchApplyDestination::Closed);
            let done = spec_followup(outer.batch, BatchApplyDestination::Closed).0.success();
            let n = asked.len() as int + 2;
            let m = inside.len() as int;
            &&& calls[0] == ShellCall::Open(Scope::Whole)
            &&& calls[1] == ShellCall::Open(Scope::Transaction)
            &&& calls.subrange(2, n) == asked
            &&& calls[n] == (ShellCall::Describe { inner: None, delivered: None })
            &&& !outer.described ==> calls.len() == n + 1
            &&& outer.described ==> calls[n + 1] == ShellCall::Keep(Scope::Transaction)
            &&& outer.described && !outer.transaction_kept ==> calls.len() == n + 2
            &&& outer.described && outer.transaction_kept ==> calls.subrange(n + 2, n + 2 + m)
                == inside
            &&& outer.described && outer.transaction_kept && !done ==> calls.len() == n + 2 + m
            &&& outer.described && outer.transaction_kept && done ==> calls.len() == n + 3 + m
                && calls.last() == ShellCall::Keep(Scope::Whole)
        }),
{
}

/// An owner count moves by just its adjustment as far as it can, and stops at nothing and at the
/// most that can be counted.
pub proof fn owner_counts_move_within_bounds(current: u32, adjustment: i32, r: u32)
    requires
        call_ensures(submit_confine_owner_count, (current, adjustment), r),
    ensures
        0 <= current + adjustment <= 0xffff_ffff ==> r - current == adjustment,
        current + adjustment < 0 ==> r == 0,
        current + adjustment > 0xffff_ffff ==> r == 0xffff_ffff,
{
}

/// A reserve is met by just as much as it asks for and by everything above it, and never where less
/// than nothing would be owned.
pub proof fn reserves_are_met_from_their_amount_on(
    balance: i64,
    more: i64,
    owned: u32,
    adjustment: i8,
    reserve: i64,
    met: bool,
    met_by_more: bool,
)
    requires
        call_ensures(is_reserve_sufficient, (balance, owned, adjustment, reserve), met),
        call_ensures(is_reserve_sufficient, (more, owned, adjustment, reserve), met_by_more),
        balance <= more,
    ensures
        met ==> met_by_more,
        met ==> balance - reserve >= 0,
        owned + adjustment < 0 ==> !met,
        balance == reserve && owned + adjustment >= 0 ==> met,
        balance < reserve ==> !met,
{
}

/// Between one and five hundred and twelve trust lines are removed; five thousand two hundred
/// entries are not too many, and one more is.
pub proof fn how_much_a_transaction_may_touch(count: usize, removed: bool, too_many: bool)
    requires
        call_ensures(removes_trust_lines, (count,), removed),
        call_ensures(exceeds_oversize_metadata_cap, (count,), too_many),
    ensures
        removed <==> 1 <= count && count <= 512,
        too_many <==> count >= 5201,
{
}

/// Every entry that a transaction touched counts, and counts once: no fewer than either part of it
/// touched, and no more than both together.
pub proof fn entries_count_once(preamble: Vec<Uint256>, handler: Vec<Uint256>, count: usize)
    requires
        call_ensures(transaction_item_count, (&preamble, &handler), count),
        ascending(preamble@),
        ascending(handler@),
    ensures
        preamble@.len() <= count,
        handler@.len() <= count,
        count <= preamble@.len() + handler@.len(),
        preamble@ == handler@ ==> count == preamble@.len(),
        preamble@.to_set().disjoint(handler@.to_set()) ==> count == preamble@.len()
            + handler@.len(),
{
    let a = preamble@.to_set();
    let b = handler@.to_set();
    assert(preamble@.no_duplicates());
    assert(handler@.no_duplicates());
    preamble@.unique_seq_to_set();
    handler@.unique_seq_to_set();
    vstd::set_lib::lemma_len_union(a, b);
    assert(a.subset_of(a.union(b)));
    assert(b.subset_of(a.union(b)));
    vstd::set_lib::lemma_len_subset(a, a.union(b));
    vstd::set_lib::lemma_len_subset(b, a.union(b));
    if preamble@ == handler@ {
        assert(a.union(b) =~= a);
    }
    if a.disjoint(b) {
        vstd::set_lib::lemma_set_disjoint_lens(a, b);
        assert(a.union(b) == a + b);
    }
}

/// Effects are written down entry by entry for a closed ledger and where a batch is only tried; a
/// ticket stands for a sequence and a sequence does not.
pub proof fn what_is_written_down(
    destination: BatchApplyDestination,
    written: bool,
    proxy: SeqProxy,
    ticket: bool,
)
    requires
        call_ensures(BatchApplyDestination::builds_metadata, (destination,), written),
        call_ensures(SeqProxy::is_ticket, (proxy,), ticket),
    ensures
        destination == BatchApplyDestination::Closed ==> written,
        destination == BatchApplyDestination::DryRun ==> written,
        destination == BatchApplyDestination::Open ==> !written,
        proxy is Ticket <==> ticket,
        proxy is Sequence ==> !ticket,
{
}

/// Deleting the ticket of an account that has one takes one off its tickets and one off what it
/// owns, as far as it owns anything; the last ticket leaves no count behind.
pub proof fn deleting_a_ticket_counts_it(
    account: AccountID,
    proxy: SeqProxy,
    root: AccountRoot,
    run: TicketRun,
    calls: &mut Vec<ShellCall>,
    after: AccountOrder,
)
    requires
        call_ensures(
            delete_submit_ticket,
            (account, proxy, &root, &run, calls),
            Ok::<AccountOrder, Ter>(after),
        ),
    ensures
        root.ticket_count matches Some(count) ==> {
            &&& count > 1 ==> after.ticket_count == Some((count - 1) as u32)
            &&& count == 1 ==> after.ticket_count is None
        },
        root.owner_count > 0 ==> after.owner_count == root.owner_count - 1,
        root.owner_count == 0 ==> after.owner_count == 0,
{
}

/// A transaction that is only tried and was found out before is told just that, and asks for
/// nothing.
pub proof fn bad_transactions_are_not_tried(
    tx: SubmitTx,
    preflight: Ter,
    facts: ShellFacts,
    run: ShellRun,
    outer: OuterRun,
    calls: &mut Vec<ShellCall>,
    r: (Ter, Option<u64>),
)
    requires
        call_ensures(
            apply_simulated_transaction,
            (&tx, preflight, &facts, &run, &outer, calls),
            r,
        ),
    ensures
        !preflight.success() && !preflight.claim() ==> r.0 == preflight && r.1 is None && final(calls)@ == old(calls)@,
        preflight.success() && !facts.preclaim_result.success() && !facts.preclaim_result.claim()
            ==> r.0 == facts.preclaim_result && r.1 is None && final(calls)@ == old(calls)@,
{
}

} // verus!
