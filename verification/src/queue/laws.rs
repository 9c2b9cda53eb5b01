//! What holds of every transaction that is looked at before it is applied.
use vstd::prelude::*;
use crate::amount::{Amount, Asset};
use crate::ids::{AccountID, Uint256};
use crate::open_ledger::seqs::OpenLedgerSeqs;
use crate::queue::base_fee::{
    FeeFacts, batch_base_fee, batch_preclaim_ter, counterparty_signer_count, fee_drops_as_i64,
    fee_signer_count, inner_batch_fee, last_error, pending_base_fee,
};
use crate::queue::batch_sign::{
    BatchPreclaimSignerList, SignerAccount, SignerListFields, batch_check_sign_ter,
    batch_signer_list, spec_account_state,
};
use crate::queue::clear_ahead::{
    ApplyResult, ClearAhead, ClearAheadOutcome, FeeMetrics, QueuedTx, RecordedTx, before_it,
    came_through, clear_ahead_refusal, paid_together, proxies, pyramid, spec_required_fee_level,
    squares, stands_in_the_way,
};
use crate::queue::consequences::{
    ConsequenceTx, ConsequencesCategory, TxConsequences, preflight_consequences,
};
use crate::queue::direct::{direct_apply, dispatch_apply, dispatch_preclaim, spec_apply_admitted};
use crate::queue::multi::{
    AdjustedAccount, MultiFacts, PreclaimViewSource, ViewAdjustment, adjusted_account,
};
use crate::queue::oracle::{OracleRead, OracleReserve, agrees, oracle_fault};
use crate::queue::preclaim::{TypedPreclaimRoute, preclaim_tail, spec_route, spec_typed_preclaim};
use crate::queue::preflight::{
    ChangeFields, ChangePreflightFacts, PreflightFacts, change_preflight_facts,
    change_pseudo_transaction_preflight_ter, good_cancel_list, has_repetition,
    loan_set_counterparty_preflight_ter,
};
use crate::queue::sandbox::{BaseHeader, OpenHeader, keeps_sandbox};
use crate::submit::checks::SeqProxy;
use crate::submit::flags::Read;
use crate::ter::Ter;
use crate::tx_type::TxType;

verus! {

/// What moves the native currency out of an account by the amount that it states may spend that
/// amount: escrows, payment channels and their funding, and commitments to a bridge.
pub proof fn stated_amounts_may_be_spent(tx: ConsequenceTx, amount: Amount)
    requires
        tx.amount == Some(amount),
        amount.asset == Asset::Xrp,
        !amount.negative,
    ensures
        tx.txn_type == TxType::ESCROW_CREATE ==> tx.consequences().potential_spend
            == amount.mantissa,
        tx.txn_type == TxType::PAYCHAN_CREATE ==> tx.consequences().potential_spend
            == amount.mantissa,
        tx.txn_type == TxType::PAYCHAN_FUND ==> tx.consequences().potential_spend == amount.mantissa,
        tx.txn_type == TxType::XCHAIN_COMMIT ==> tx.consequences().potential_spend
            == amount.mantissa,
        tx.txn_type == TxType::PAYMENT && tx.send_max is None ==> tx.consequences().potential_spend
            == amount.mantissa,
{
}

/// A payment may spend the most that it sends, an offer what its taker gets, and a sponsorship what
/// it adds to the fees that it pays.
pub proof fn limits_may_be_spent(tx: ConsequenceTx, amount: Amount)
    requires
        amount.asset == Asset::Xrp,
        !amount.negative,
    ensures
        tx.txn_type == TxType::PAYMENT && tx.send_max == Some(amount)
            ==> tx.consequences().potential_spend == amount.mantissa,
        tx.txn_type == TxType::OFFER_CREATE && tx.taker_gets == Some(amount)
            ==> tx.consequences().potential_spend == amount.mantissa,
        tx.txn_type == TxType::SPONSORSHIP_SET && tx.fee_amount_delta == Some(amount)
            ==> tx.consequences().potential_spend == amount.mantissa,
{
}

/// Nothing is spent but the native currency, nothing below zero, nothing that is not stated, and
/// nothing by any other transaction.
pub proof fn nothing_else_is_spent(tx: ConsequenceTx)
    ensures
        tx.consequences().potential_spend > 0 ==> {
            let stated = |field: Option<Amount>|
                field matches Some(amount) && amount.asset == Asset::Xrp && !amount.negative
                    && amount.mantissa == tx.consequences().potential_spend;
            ||| (tx.txn_type == TxType::ESCROW_CREATE || tx.txn_type == TxType::PAYCHAN_CREATE
                || tx.txn_type == TxType::PAYCHAN_FUND || tx.txn_type == TxType::XCHAIN_COMMIT)
                && stated(tx.amount)
            ||| tx.txn_type == TxType::PAYMENT && tx.send_max is Some && stated(tx.send_max)
            ||| tx.txn_type == TxType::PAYMENT && tx.send_max is None && stated(tx.amount)
            ||| tx.txn_type == TxType::OFFER_CREATE && stated(tx.taker_gets)
            ||| tx.txn_type == TxType::SPONSORSHIP_SET && stated(tx.fee_amount_delta)
        },
{
}

/// What changes who may sign for an account, or hands it over, blocks those behind it; so does a
/// change of its flags that is said to. No other does.
pub proof fn changes_of_keys_block(tx: ConsequenceTx)
    ensures
        tx.consequences().category == ConsequencesCategory::Blocker <==> tx.txn_type
            == TxType::REGULAR_KEY_SET || tx.txn_type == TxType::SIGNER_LIST_SET || tx.txn_type
            == TxType::ACCOUNT_DELETE || tx.txn_type == TxType::XCHAIN_CLAIM || tx.txn_type
            == TxType::XCHAIN_ADD_CLAIM_ATTESTATION || tx.txn_type
            == TxType::XCHAIN_ADD_ACCOUNT_CREATE_ATTESTATION || (tx.txn_type == TxType::ACCOUNT_SET
            && tx.account_set_blocks),
{
}

/// A transaction uses up its sequence; one with a ticket none; and one that creates tickets one for
/// each of them. Its fee is what it states, and nothing where that is nothing.
pub proof fn sequences_and_fees_are_told(tx: ConsequenceTx)
    ensures
        tx.txn_type == TxType::TICKET_CREATE ==> tx.consequences().sequences_consumed
            == tx.ticket_count,
        tx.txn_type != TxType::TICKET_CREATE && tx.seq_proxy is Sequence
            ==> tx.consequences().sequences_consumed == 1,
        tx.txn_type != TxType::TICKET_CREATE && tx.seq_proxy is Ticket
            ==> tx.consequences().sequences_consumed == 0,
        tx.fee_drops matches Some(fee) ==> (fee >= 0 ==> tx.consequences().fee == fee),
        tx.fee_drops matches Some(fee) && fee < 0 ==> tx.consequences().fee == 0,
        tx.fee_drops is None ==> tx.consequences().fee == 0,
        tx.consequences().seq_proxy == tx.seq_proxy,
{
}

/// Changing the key is free once, for whoever signs with the master key and has not had it free
/// yet; for anybody else it costs what an ordinary transaction costs.
pub proof fn a_change_of_key_is_free_once(facts: FeeFacts)
    requires
        facts.txn_type == TxType::REGULAR_KEY_SET,
    ensures
        facts.password_spent == Read::Found(false) && facts.signing_key_matches ==> facts.fee()
            == Ok::<u64, Ter>(0),
        facts.password_spent == Read::Found(true) || facts.password_spent is Missing || (
        facts.password_spent is Found && !facts.signing_key_matches) ==> facts.fee() == Ok::<
            u64,
            Ter,
        >(facts.transactor_base_fee),
        facts.password_spent is Failed ==> facts.fee() == Err::<u64, Ter>(Ter::TEF_BAD_LEDGER),
{
}

/// The other party of a loan pays for each of its signatures, and a confidential transfer so many
/// times as much more as is asked for it.
pub proof fn surcharges_are_added(facts: FeeFacts)
    requires
        facts.wf(),
    ensures
        facts.txn_type == TxType::LOAN_SET ==> (facts.fee() matches Ok(fee) && fee
            == facts.transactor_base_fee + facts.ledger_base_fee * facts.counterparty_signers),
        facts.txn_type == TxType::CONFIDENTIAL_MPT_CONVERT || facts.txn_type
            == TxType::CONFIDENTIAL_MPT_MERGE_INBOX || facts.txn_type
            == TxType::CONFIDENTIAL_MPT_CONVERT_BACK || facts.txn_type
            == TxType::CONFIDENTIAL_MPT_SEND || facts.txn_type == TxType::CONFIDENTIAL_MPT_CLAWBACK
            ==> (facts.fee() matches Ok(fee) && fee == facts.transactor_base_fee
            + facts.ledger_base_fee * facts.confidential_multiplier),
{
    let base = facts.ledger_base_fee as int;
    let parties = facts.counterparty_signers as int;
    let times = facts.confidential_multiplier as int;
    assert(base * parties >= 0) by (nonlinear_arith)
        requires
            base >= 0,
            parties >= 0,
    ;
    assert(base * times >= 0) by (nonlinear_arith)
        requires
            base >= 0,
            times >= 0,
    ;
}

/// The transactions that have a fee of their own pay that, and every other one pays what an
/// ordinary one costs.
pub proof fn fees_by_type(facts: FeeFacts)
    ensures
        ({
            let t = facts.txn_type;
            let costs = |fee: u64| facts.fee() == Ok::<u64, Ter>(fee);
            &&& t == TxType::AMENDMENT || t == TxType::FEE || t == TxType::UNL_MODIFY ==> costs(
                facts.change_fee,
            )
            &&& t == TxType::ACCOUNT_DELETE ==> costs(facts.account_delete_fee)
            &&& t == TxType::AMM_CREATE ==> costs(facts.amm_create_fee)
            &&& t == TxType::ESCROW_FINISH ==> costs(facts.escrow_finish_fee)
            &&& t == TxType::LEDGER_STATE_FIX ==> costs(facts.ledger_state_fix_fee)
            &&& t == TxType::BATCH ==> facts.fee() == facts.batch_fee
            &&& t == TxType::LOAN_PAY ==> facts.fee() == facts.loan_pay_fee
            &&& t != TxType::AMENDMENT && t != TxType::FEE && t != TxType::UNL_MODIFY && t
                != TxType::ACCOUNT_DELETE && t != TxType::AMM_CREATE && t != TxType::ESCROW_FINISH
                && t != TxType::LEDGER_STATE_FIX && t != TxType::BATCH && t != TxType::LOAN_PAY && t
                != TxType::LOAN_SET && t != TxType::REGULAR_KEY_SET && t
                != TxType::CONFIDENTIAL_MPT_CONVERT && t != TxType::CONFIDENTIAL_MPT_MERGE_INBOX
                && t != TxType::CONFIDENTIAL_MPT_CONVERT_BACK && t
                != TxType::CONFIDENTIAL_MPT_SEND && t != TxType::CONFIDENTIAL_MPT_CLAWBACK ==> costs(
                facts.transactor_base_fee,
            )
        }),
{
}

/// The error of a batch is that of one of its transactions: the last that has one. Without any
/// there is none.
pub proof fn the_last_error_counts(fees: Seq<Result<u64, Ter>>, at: int)
    requires
        0 <= at < fees.len(),
        forall|i: int| at < i < fees.len() ==> #[trigger] fees[i] is Ok,
    ensures
        fees[at] matches Err(ter) ==> last_error(fees) == Some(ter),
        at == 0 && fees[0] is Ok ==> last_error(fees) is None,
    decreases fees.len(),
{
    if at < fees.len() - 1 {
        assert(fees.last() is Ok);
        the_last_error_counts(fees.drop_last(), at);
    } else if at == 0 {
        reveal_with_fuel(last_error, 2);
    }
}

/// What a signature costs is counted for everybody who signs.
pub proof fn signers_are_counted(
    signers: Option<usize>,
    sponsor: Option<usize>,
    signature: bool,
    all: usize,
    party: usize,
)
    requires
        call_ensures(fee_signer_count, (signers, sponsor), all),
        call_ensures(counterparty_signer_count, (signers, signature), party),
        signers matches Some(n) ==> n < 0x1_0000,
        sponsor matches Some(n) ==> n < 0x1_0000,
    ensures
        all == (match signers {
            Some(n) => n as int,
            None => 0,
        }) + (match sponsor {
            Some(n) => n as int,
            None => 0,
        }),
        signers matches Some(n) ==> party == n,
        signers is None ==> party == (if signature {
            1int
        } else {
            0
        }),
{
}

/// A batch that holds nothing that can be read costs more than anybody pays, one with a transaction
/// that has no fee has none, and another costs what was computed.
pub proof fn fees_of_batches(
    raw: bool,
    readable: bool,
    computed: u64,
    inner: Vec<Result<u64, Ter>>,
    r: Result<u64, Ter>,
)
    requires
        call_ensures(batch_base_fee, (raw, readable, computed, &inner), r),
    ensures
        !raw || !readable ==> r == Ok::<u64, Ter>(u64::MAX),
        raw && readable && inner@.len() == 0 ==> r == Ok::<u64, Ter>(computed),
        raw && readable && inner@.len() > 0 ==> (inner@.last() matches Err(ter) ==> r == Err::<
            u64,
            Ter,
        >(ter)),
        raw && readable ==> (r matches Ok(fee) ==> fee == computed),
{
}

/// A batch whose fee cannot be computed claims one, and nothing is found of anything but a batch.
pub proof fn batches_are_found_out_by_their_fee(t: TxType, fee: Result<u64, Ter>, r: Ter)
    requires
        call_ensures(batch_preclaim_ter, (t, fee), r),
    ensures
        t != TxType::BATCH ==> r == Ter::TES_SUCCESS,
        t == TxType::BATCH ==> (fee matches Err(ter) ==> r == ter),
        t == TxType::BATCH && fee == Ok::<u64, Ter>(u64::MAX) ==> r == Ter::TEC_INSUFF_FEE,
        t == TxType::BATCH ==> (fee matches Ok(drops) && drops < u64::MAX ==> r
            == Ter::TES_SUCCESS),
{
}

/// A fee is the same number of drops however it is written, and that of a batch which cannot be
/// computed is the most that can be written.
pub proof fn fees_keep_their_number(fee: u64, base: Option<u64>, drops: i64, pending: u64)
    requires
        fee == u64::MAX || fee <= i64::MAX,
        call_ensures(fee_drops_as_i64, (fee,), drops),
        call_ensures(pending_base_fee, (base, fee), pending),
    ensures
        fee < u64::MAX ==> drops == fee,
        fee == u64::MAX ==> drops == i64::MAX,
        base is None ==> pending == 0,
        base is Some && fee < u64::MAX ==> pending == fee,
        fee == u64::MAX ==> (base matches Some(ordinary) ==> pending == ordinary),
{
}

/// An ordinary transaction passes exactly where nothing is found against it: its fields are good,
/// what is peculiar to its type is good, and it is signed, or marked as a part of a batch that is.
pub proof fn good_transactions_pass(facts: PreflightFacts, in_batch: bool, dry_run: bool)
    requires
        facts.txn_type != TxType::AMENDMENT,
        facts.txn_type != TxType::FEE,
        facts.txn_type != TxType::UNL_MODIFY,
    ensures
        facts.result(in_batch, dry_run) == Ter::TES_SUCCESS <==> {
            &&& facts.semantic == Ter::TES_SUCCESS
            &&& facts.txn_type == TxType::NFTOKEN_CANCEL_OFFER ==> good_cancel_list(
                facts.nftoken_offers@,
                facts.fix_cleanup_3_2_0,
            )
            &&& facts.txn_type == TxType::LOAN_SET ==> (facts.counterparty matches Err(ter) ==> ter
                == Ter::TES_SUCCESS)
            &&& in_batch ==> facts.inner_batch_flag
            &&& !in_batch && !dry_run ==> {
                &&& facts.signature_good
                &&& facts.txn_type == TxType::ESCROW_FINISH ==> (facts.credential_ids matches Some(ids)
                    ==> facts.credential_fields == Ter::TES_SUCCESS && !(facts.fix_cleanup_3_4_0
                    && exists|i: int|
                    0 <= i < ids@.len() && (#[trigger] ids@[i]).hi == 0 && ids@[i].lo == 0))
                &&& facts.txn_type == TxType::BATCH ==> facts.batch_signatures == Ter::TES_SUCCESS
            }
        },
{
    if let Some(ids) = facts.credential_ids {
        assert(forall|i: int|
            0 <= i < ids@.len() ==> (#[trigger] ids@[i] == Uint256::spec_zero() <==> ids@[i].hi == 0
                && ids@[i].lo == 0));
    }
}

/// What is found against a transaction is the first of what there is.
pub proof fn what_is_found_of_a_transaction(facts: PreflightFacts, dry_run: bool)
    requires
        facts.txn_type != TxType::AMENDMENT,
        facts.txn_type != TxType::FEE,
        facts.txn_type != TxType::UNL_MODIFY,
    ensures
        facts.semantic != Ter::TES_SUCCESS ==> facts.result(true, dry_run) == facts.semantic
            && facts.result(false, dry_run) == facts.semantic,
        facts.semantic == Ter::TES_SUCCESS && facts.txn_type == TxType::NFTOKEN_CANCEL_OFFER
            && !good_cancel_list(facts.nftoken_offers@, facts.fix_cleanup_3_2_0) ==> facts.result(
            false,
            dry_run,
        ) == Ter::TEM_MALFORMED && facts.result(true, dry_run) == Ter::TEM_MALFORMED,
        facts.semantic == Ter::TES_SUCCESS && facts.txn_type == TxType::LOAN_SET ==> (
        facts.counterparty matches Err(ter) ==> (ter != Ter::TES_SUCCESS ==> facts.result(
            false,
            dry_run,
        ) == ter)),
        facts.semantic == Ter::TES_SUCCESS && facts.txn_type == TxType::PAYMENT
            && !facts.inner_batch_flag ==> facts.result(true, dry_run)
            == Ter::TEM_INVALID_INNER_BATCH,
        facts.semantic == Ter::TES_SUCCESS && facts.txn_type == TxType::PAYMENT
            && !facts.signature_good && !dry_run ==> facts.result(false, dry_run)
            == Ter::TEM_INVALID,
        facts.semantic == Ter::TES_SUCCESS && facts.txn_type == TxType::BATCH
            && facts.signature_good && !dry_run ==> facts.result(false, dry_run)
            == facts.batch_signatures,
{
}

/// What changes the network itself is judged by a check of its own, and is not known without one.
pub proof fn changes_of_the_network_have_their_check(
    facts: PreflightFacts,
    in_batch: bool,
    dry_run: bool,
)
    requires
        facts.txn_type == TxType::AMENDMENT || facts.txn_type == TxType::FEE || facts.txn_type
            == TxType::UNL_MODIFY,
    ensures
        facts.change matches Some(ter) ==> facts.result(in_batch, dry_run) == ter,
        facts.change is None ==> facts.result(in_batch, dry_run) == Ter::TEM_UNKNOWN,
{
}

/// A list of offers to cancel is good where it holds between one and five hundred of them, no two
/// the same, and, under the newer rule, each names one.
pub proof fn good_lists_of_offers(ids: Seq<Uint256>, reject_zero: bool)
    ensures
        good_cancel_list(ids, reject_zero) <==> 1 <= ids.len() <= 500 && ids.no_duplicates() && (
        reject_zero ==> forall|i: int|
            0 <= i < ids.len() ==> (#[trigger] ids[i]).hi != 0 || ids[i].lo != 0),
{
    assert(forall|i: int|
        0 <= i < ids.len() ==> (#[trigger] ids[i] == Uint256::spec_zero() <==> ids[i].hi == 0
            && ids[i].lo == 0));
}

/// What those say who look at a type decides; but nobody looks at a batch here, nobody at what is
/// not known, and at sponsorships and confidential transfers looks one who always knows them.
pub proof fn whoever_looks_decides(t: TxType, helper: Option<Ter>, direct: Ter)
    ensures
        ({
            let found = spec_typed_preclaim(t, helper, direct);
            let by_itself = t == TxType::SPONSORSHIP_SET || t == TxType::SPONSORSHIP_TRANSFER || t
                == TxType::CONFIDENTIAL_MPT_CONVERT || t == TxType::CONFIDENTIAL_MPT_MERGE_INBOX
                || t == TxType::CONFIDENTIAL_MPT_CONVERT_BACK || t == TxType::CONFIDENTIAL_MPT_SEND
                || t == TxType::CONFIDENTIAL_MPT_CLAWBACK;
            &&& t == TxType::BATCH ==> found == Ter::TES_SUCCESS
            &&& t is Other ==> found == Ter::TEM_UNKNOWN
            &&& by_itself ==> found == direct
            &&& !by_itself && t != TxType::BATCH && !(t is Other) ==> found == (match helper {
                Some(ter) => ter,
                None => Ter::TEM_UNKNOWN,
            })
        }),
{
}

/// Which family of transactions each of those looks at.
pub proof fn families_of_transactions(t: TxType)
    ensures
        spec_route(t) == TypedPreclaimRoute::ChangeReadViewHelper <==> t == TxType::AMENDMENT || t
            == TxType::FEE || t == TxType::UNL_MODIFY,
        spec_route(t) == TypedPreclaimRoute::AppAuditedNoop <==> t == TxType::REGULAR_KEY_SET || t
            == TxType::SIGNER_LIST_SET || t == TxType::PAYCHAN_FUND,
        spec_route(t) == TypedPreclaimRoute::TokenAuditedNoop <==> t
            == TxType::MPTOKEN_ISSUANCE_CREATE,
        spec_route(t) == TypedPreclaimRoute::BridgeDomainAuditedNoop <==> t == TxType::DID_SET || t
            == TxType::DID_DELETE,
        spec_route(t) == TypedPreclaimRoute::SystemReadViewHelper <==> t == TxType::TICKET_CREATE || t
            == TxType::LEDGER_STATE_FIX,
        spec_route(t) == TypedPreclaimRoute::VaultReadViewHelper <==> t == TxType::VAULT_CREATE || t
            == TxType::VAULT_SET || t == TxType::VAULT_DELETE || t == TxType::VAULT_DEPOSIT || t
            == TxType::VAULT_WITHDRAW || t == TxType::VAULT_CLAWBACK,
        spec_route(t) == TypedPreclaimRoute::TokenReadViewHelper <==> t == TxType::TRUST_SET || t
            == TxType::CLAWBACK || t == TxType::MPTOKEN_AUTHORIZE || t
            == TxType::MPTOKEN_ISSUANCE_DESTROY || t == TxType::MPTOKEN_ISSUANCE_SET,
        spec_route(t) == TypedPreclaimRoute::NfTokenReadViewHelper <==> t == TxType::NFTOKEN_MINT || t
            == TxType::NFTOKEN_BURN || t == TxType::NFTOKEN_CREATE_OFFER || t
            == TxType::NFTOKEN_CANCEL_OFFER || t == TxType::NFTOKEN_ACCEPT_OFFER || t
            == TxType::NFTOKEN_MODIFY,
        spec_route(t) == TypedPreclaimRoute::LoanReadViewHelper <==> t == TxType::LOAN_SET || t
            == TxType::LOAN_MANAGE || t == TxType::LOAN_PAY || t == TxType::LOAN_DELETE || t
            == TxType::LOAN_BROKER_SET || t == TxType::LOAN_BROKER_DELETE || t
            == TxType::LOAN_BROKER_COVER_DEPOSIT || t == TxType::LOAN_BROKER_COVER_WITHDRAW || t
            == TxType::LOAN_BROKER_COVER_CLAWBACK,
        spec_route(t) == TypedPreclaimRoute::DexReadViewHelper <==> t == TxType::OFFER_CREATE || t
            == TxType::OFFER_CANCEL || t == TxType::AMM_CREATE || t == TxType::AMM_DEPOSIT || t
            == TxType::AMM_WITHDRAW || t == TxType::AMM_VOTE || t == TxType::AMM_BID || t
            == TxType::AMM_DELETE || t == TxType::AMM_CLAWBACK,
        spec_route(t) == TypedPreclaimRoute::AppReadViewHelper <==> t == TxType::ACCOUNT_SET || t
            == TxType::ACCOUNT_DELETE || t == TxType::DELEGATE_SET || t == TxType::DEPOSIT_PREAUTH
            || t == TxType::PAYMENT || t == TxType::PAYCHAN_CREATE || t == TxType::PAYCHAN_CLAIM || t
            == TxType::CHECK_CREATE || t == TxType::CHECK_CASH || t == TxType::CHECK_CANCEL || t
            == TxType::ESCROW_CREATE || t == TxType::ESCROW_FINISH || t == TxType::ESCROW_CANCEL,
        spec_route(t) == TypedPreclaimRoute::SponsorshipReadViewHelper <==> t
            == TxType::SPONSORSHIP_TRANSFER || t == TxType::SPONSORSHIP_SET,
{
}

/// Setting prices is judged wherever its fields are good, its account is there and the oracle can
/// be read; and why it is not is the first of these.
pub proof fn setting_prices_is_judged(
    preflight: Ter,
    account: Read<OracleReserve>,
    oracle: OracleRead,
)
    ensures
        ({
            let fault = oracle_fault(preflight, account, oracle);
            &&& preflight != Ter::TES_SUCCESS ==> fault == Some(preflight)
            &&& preflight == Ter::TES_SUCCESS && account is Missing ==> fault == Some(
                Ter::TER_NO_ACCOUNT,
            )
            &&& preflight == Ter::TES_SUCCESS && (account is Failed || (account is Found
                && oracle is Failed)) ==> fault == Some(Ter::TEF_BAD_LEDGER)
            &&& preflight == Ter::TES_SUCCESS && account is Found && !(oracle is Failed)
                ==> fault is None
        }),
{
}

/// A field agrees with what is there where it is the same, byte for byte, or is not there at all.
pub proof fn absent_fields_agree(field: Option<Vec<u8>>, existing: Seq<u8>)
    ensures
        field is None ==> agrees(field, existing),
        field matches Some(bytes) ==> (agrees(field, existing) <==> bytes@.len() == existing.len()
            && forall|i: int| 0 <= i < existing.len() ==> bytes@[i] == existing[i]),
{
    if let Some(bytes) = field {
        if bytes@.len() == existing.len() && forall|i: int|
            0 <= i < existing.len() ==> bytes@[i] == existing[i] {
            assert(bytes@ =~= existing);
        }
    }
}

/// A transaction is looked at in the current state, or in one in which its account is as those
/// before it leave it; where that cannot be had, something is wrong here, or the ledger is.
pub proof fn which_state_counts(facts: MultiFacts)
    ensures
        facts.source == PreclaimViewSource::CurrentView ==> facts.result() == facts.current,
        facts.source == PreclaimViewSource::MultiTxnView ==> {
            &&& facts.adjustment is Some && facts.account is Found && facts.updated
                ==> facts.result() == facts.adjusted
            &&& facts.adjustment is Some && facts.account is Failed ==> facts.result()
                == Ter::TEF_BAD_LEDGER
            &&& facts.adjustment is None || facts.account is Missing || (facts.account is Found
                && !facts.updated) ==> facts.result() == Ter::TEF_INTERNAL
        },
{
}

/// A transaction that nothing is found against is applied, and so is one that claims its fee;
/// another one is not, and comes to what was found.
pub proof fn good_transactions_are_applied(preflight: Ter, preclaim: Ter, outcome: ApplyResult)
    ensures
        preflight.success() && (preclaim.success() || preclaim.claim()) ==> spec_apply_admitted(
            preflight,
            preclaim,
            outcome,
        ) == outcome,
        preflight.success() && !preclaim.success() && !preclaim.claim() ==> spec_apply_admitted(
            preflight,
            preclaim,
            outcome,
        ) == (ApplyResult { ter: preclaim, applied: false }),
        !preflight.success() && !preflight.claim() ==> spec_apply_admitted(
            preflight,
            preclaim,
            outcome,
        ) == (ApplyResult { ter: preflight, applied: false }),
{
}

/// Without a ledger there is no account; and what waits is applied where it succeeds or claims its
/// fee, the network's own always.
pub proof fn waiting_transactions(
    has_view: bool,
    system: bool,
    preclaim: Ter,
    found: Ter,
    applied: ApplyResult,
)
    requires
        call_ensures(dispatch_preclaim, (has_view, preclaim), found),
        call_ensures(dispatch_apply, (system, preclaim), applied),
    ensures
        has_view ==> found == preclaim,
        !has_view ==> found == Ter::TER_NO_ACCOUNT,
        system ==> applied.applied && applied.ter == Ter::TES_SUCCESS,
        !system ==> applied.ter == preclaim && (applied.applied <==> preclaim.success()
            || preclaim.claim()),
{
}

/// The squares from one number on are added up one by one: none of them is left out, and none is
/// counted twice.
pub proof fn squares_are_added_up(from: int, middle: int, to: int)
    requires
        from - 1 <= middle <= to,
    ensures
        squares(from, to) == squares(from, middle) + squares(middle + 1, to),
        squares(to, to) == to * to,
    decreases to - middle,
{
    reveal_with_fuel(squares, 2);
    if middle < to {
        squares_are_added_up(from, middle, to - 1);
    }
}

/// What must be paid together is the multiplier times the squares of the places that the
/// transactions take, in units of the square of what a ledger is expected to hold; nothing has to
/// be paid, and nothing can be, while there is room.
pub proof fn fees_grow_with_the_square(current: int, size: int, metrics: FeeMetrics)
    requires
        0 <= current,
        0 <= size,
    ensures
        current <= metrics.txns_expected || metrics.txns_expected == 0 || size == 0
            ==> spec_required_fee_level(current, size, metrics) is None,
        spec_required_fee_level(current, size, metrics) matches Some(level) ==> {
            let unit = metrics.txns_expected * metrics.txns_expected;
            let all = metrics.escalation_multiplier * squares(current, current + size - 1);
            unit > 0 && level * unit <= all < (level + 1) * unit
        },
        current > metrics.txns_expected && metrics.txns_expected > 0 && size > 0 && current + size
            <= 0x1_0000_0000 && metrics.escalation_multiplier * squares(current, current + size - 1)
            <= u64::MAX ==> spec_required_fee_level(current, size, metrics) is Some,
{
    let unit = metrics.txns_expected * metrics.txns_expected;
    let all = metrics.escalation_multiplier * squares(current, current + size - 1);
    if metrics.txns_expected > 0 {
        let t = metrics.txns_expected as int;
        assert(t * t > 0) by (nonlinear_arith)
            requires
                t > 0,
        ;
        squares_are_never_negative(current, current + size - 1);
        let m = metrics.escalation_multiplier as int;
        let s = squares(current, current + size - 1);
        assert(m * s >= 0) by (nonlinear_arith)
            requires
                m >= 0,
                s >= 0,
        ;
        vstd::arithmetic::div_mod::lemma_fundamental_div_mod(all, unit);
        vstd::arithmetic::div_mod::lemma_mod_bound(all, unit);
        let level = all / unit;
        assert(level * unit == unit * level) by (nonlinear_arith);
        assert((level + 1) * unit == unit * level + unit) by (nonlinear_arith);
        vstd::arithmetic::div_mod::lemma_div_pos_is_pos(all, unit);
        if current + size <= 0x1_0000_0000 && size > 0 && all <= u64::MAX {
            let last = current + size - 1;
            assert(last * (last + 1) * (2 * last + 1) <= 0xffff_ffff * 0x1_0000_0000
                * 0x2_0000_0000) by (nonlinear_arith)
                requires
                    0 <= last < 0x1_0000_0000,
            ;
            assert(pyramid(last) <= u128::MAX);
            assert(level <= all) by (nonlinear_arith)
                requires
                    level * unit <= all,
                    unit >= 1,
                    level >= 0,
            ;
        }
    }
}

proof fn squares_are_never_negative(from: int, to: int)
    ensures
        squares(from, to) >= 0,
    decreases to - from + 1,
{
    if from <= to {
        squares_are_never_negative(from, to - 1);
        assert(to * to >= 0) by (nonlinear_arith);
    }
}

/// Everyone in the queue that comes before the transaction is paid for, sequences before tickets
/// and lower ones before higher ones.
pub proof fn everyone_before_is_paid_for(queue: Seq<QueuedTx>, target: SeqProxy, i: int)
    requires
        0 <= i < queue.len(),
    ensures
        before_it(queue, target).contains(queue[i]) || !match (queue[i].seq_proxy, target) {
            (SeqProxy::Sequence(a), SeqProxy::Sequence(b)) => a < b,
            (SeqProxy::Ticket(a), SeqProxy::Ticket(b)) => a < b,
            (SeqProxy::Sequence(_), SeqProxy::Ticket(_)) => true,
            (SeqProxy::Ticket(_), SeqProxy::Sequence(_)) => false,
        },
    decreases queue.len(),
{
    let all = before_it(queue, target);
    let rest = before_it(queue.drop_last(), target);
    if i == queue.len() - 1 {
        if queue[i].seq_proxy.before(target) {
            assert(all[all.len() - 1] == queue[i]);
        }
    } else {
        everyone_before_is_paid_for(queue.drop_last(), target, i);
        if rest.contains(queue[i]) {
            let k = choose|k: int| 0 <= k < rest.len() && rest[k] == queue[i];
            assert(all[k] == queue[i]);
        }
    }
}

/// What is paid together grows by the fee of each that is added.
pub proof fn everyone_adds_its_fee(own: u64, before: Seq<QueuedTx>, next: QueuedTx)
    ensures
        paid_together(own, Seq::empty()) == own,
        paid_together(own, before.push(next)) == paid_together(own, before) + next.fee_level,
{
    assert(before.push(next).drop_last() =~= before);
}

/// A transaction may pay for those before it exactly where there are some, its own fee is known,
/// and all of them together pay what is asked for.
pub proof fn paying_for_those_before(
    queue: Seq<QueuedTx>,
    target: SeqProxy,
    own: Result<u64, Ter>,
    open: int,
    metrics: FeeMetrics,
)
    ensures
        ({
            let before = before_it(queue, target);
            let refusal = clear_ahead_refusal(queue, target, own, open, metrics);
            let asked = spec_required_fee_level(open, (before.len() + 1) as int, metrics);
            &&& before.len() == 0 ==> refusal == Some(Ter::TER_QUEUED)
            &&& before.len() > 0 ==> (own matches Err(ter) ==> refusal == Some(ter))
            &&& before.len() > 0 ==> (own matches Ok(fee) ==> {
                let paid = paid_together(fee, before);
                &&& asked is None || paid > u64::MAX ==> refusal == Some(Ter::TEL_INSUF_FEE_P)
                &&& paid <= u64::MAX ==> (asked matches Some(level) ==> {
                    &&& paid < level ==> refusal == Some(Ter::TEL_INSUF_FEE_P)
                    &&& paid >= level ==> refusal is None
                })
            })
        }),
{
}

/// One whose ticket was used up already, and one that was applied, do not stand in the way; another
/// does.
pub proof fn who_stands_in_the_way(result: ApplyResult)
    ensures
        result.applied ==> !stands_in_the_way(result),
        result.ter == Ter::TEF_NO_TICKET ==> !stands_in_the_way(result),
        !result.applied && result.ter != Ter::TEF_NO_TICKET ==> stands_in_the_way(result),
{
}

/// Of those before it, those come through that were applied, but not one whose ticket was used up.
pub proof fn who_came_through(before: Seq<QueuedTx>, attempts: Seq<ApplyResult>, n: int, i: int)
    requires
        0 <= i < n <= before.len(),
        attempts.len() == before.len(),
        attempts[i].applied,
        attempts[i].ter != Ter::TEF_NO_TICKET,
    ensures
        came_through(before, attempts, n).contains(
            RecordedTx {
                id: before[i].id,
                account: before[i].account,
                seq_proxy: before[i].seq_proxy,
            },
        ),
    decreases n,
{
    let all = came_through(before, attempts, n);
    let rest = came_through(before, attempts, n - 1);
    let recorded = RecordedTx {
        id: before[i].id,
        account: before[i].account,
        seq_proxy: before[i].seq_proxy,
    };
    if i == n - 1 {
        assert(all[all.len() - 1] == recorded);
    } else {
        who_came_through(before, attempts, n - 1, i);
        let k = choose|k: int| 0 <= k < rest.len() && rest[k] == recorded;
        assert(all[k] == recorded);
    }
}

/// Those that were not applied do not come through.
pub proof fn who_did_not_come_through(before: Seq<QueuedTx>, attempts: Seq<ApplyResult>, n: int)
    requires
        0 <= n <= before.len(),
        attempts.len() == before.len(),
        forall|i: int|
            0 <= i < n ==> !(#[trigger] attempts[i]).applied || attempts[i].ter
                == Ter::TEF_NO_TICKET,
    ensures
        came_through(before, attempts, n).len() == 0,
    decreases n,
{
    if n > 0 {
        who_did_not_come_through(before, attempts, n - 1);
        assert(!attempts[n - 1].applied || attempts[n - 1].ter == Ter::TEF_NO_TICKET);
    }
}

/// Each of those before it leaves its place in the queue.
pub proof fn places_are_left(before: Seq<QueuedTx>, i: int)
    requires
        0 <= i < before.len(),
    ensures
        proxies(before).len() == before.len(),
        proxies(before)[i] == before[i].seq_proxy,
{
}

/// An account is signed for with the keys that the ledger has of it; where it is not there, or
/// cannot be read, there is nothing of it.
pub proof fn keys_are_those_of_the_ledger(read: Read<SignerAccount>)
    ensures
        spec_account_state(read) is Some <==> read is Found,
        read matches Read::Found(account) ==> (spec_account_state(read) matches Some(state)
            && state.regular_key == account.regular_key && (state.master_disabled
            <==> account.flags & 0x0010_0000 != 0)),
{
}

/// The signers of a batch are not found at fault where there are none, nor judged where one of them
/// could not be read.
pub proof fn signers_of_a_batch(
    signed: bool,
    accounts: Vec<Read<SignerAccount>>,
    lists: Vec<Read<SignerListFields>>,
    checked: Ter,
    r: Ter,
)
    requires
        call_ensures(batch_check_sign_ter, (signed, &accounts, &lists, checked), r),
    ensures
        !signed ==> r == Ter::TES_SUCCESS,
        signed && (exists|i: int| 0 <= i < accounts@.len() && #[trigger] accounts@[i] is Failed)
            ==> r == Ter::TEF_BAD_LEDGER,
        signed && (exists|i: int| 0 <= i < lists@.len() && #[trigger] lists@[i] is Failed) ==> r
            == Ter::TEF_BAD_LEDGER,
        signed && (forall|i: int| 0 <= i < accounts@.len() ==> !(#[trigger] accounts@[i] is Failed))
            && (forall|i: int| 0 <= i < lists@.len() ==> !(#[trigger] lists@[i] is Failed)) ==> r
            == checked,
{
}

/// A transaction that changes the network is judged by its fields as they are: what is absent is
/// nothing.
pub proof fn how_changes_of_the_network_are_judged(fields: ChangeFields, r: ChangePreflightFacts)
    requires
        call_ensures(change_preflight_facts, (&fields,), r),
    ensures
        r.account_is_zero == fields.account_is_zero,
        r.fee_is_native_and_zero <==> fields.fee_is_native && fields.fee_drops == 0,
        r.signing_pub_key_empty <==> (fields.signing_pub_key_len matches Some(len) ==> len == 0),
        r.signature_empty <==> (fields.txn_signature_len matches Some(len) ==> len == 0),
        r.signers_present == fields.signers_present,
        r.sequence_is_zero <==> (fields.sequence matches Some(sequence) ==> sequence == 0),
        r.previous_txn_id_present == fields.previous_txn_id_present,
{
}

/// Those who sign for an account together are checked as the ledger has them, with their weights,
/// and a list without a number counts as the first.
pub proof fn signer_lists_are_those_of_the_ledger(
    list: SignerListFields,
    r: BatchPreclaimSignerList,
    i: int,
)
    requires
        call_ensures(batch_signer_list, (&list,), r),
    ensures
        r.quorum == list.quorum,
        r.signer_list_id_present <==> list.signer_list_id is Some,
        list.signer_list_id matches Some(id) ==> r.signer_list_id == id,
        list.signer_list_id is None ==> r.signer_list_id == 0,
        r.entries@.len() == list.entries@.len(),
        0 <= i < list.entries@.len() ==> r.entries@[i].account == list.entries@[i].account
            && r.entries@[i].weight == list.entries@[i].weight,
{
}

/// What is found at the end decides by the type, and of a batch by its fee.
pub proof fn what_is_found_at_the_end(
    t: TxType,
    helper: Option<Ter>,
    direct: Ter,
    fee: Result<u64, Ter>,
    r: Ter,
)
    requires
        call_ensures(preclaim_tail, (t, helper, direct, fee), r),
    ensures
        t != TxType::BATCH && spec_typed_preclaim(t, helper, direct).success() ==> r
            == Ter::TES_SUCCESS,
        t != TxType::BATCH && !spec_typed_preclaim(t, helper, direct).success() ==> r
            == spec_typed_preclaim(t, helper, direct),
        t == TxType::BATCH ==> (fee matches Err(ter) ==> r == ter),
        t == TxType::BATCH ==> (fee matches Ok(drops) ==> r == (if drops == u64::MAX {
            Ter::TEC_INSUFF_FEE
        } else {
            Ter::TES_SUCCESS
        })),
{
}

/// What a transaction may do is told of a good one alone.
pub proof fn only_good_transactions_have_consequences(
    preflight: Ter,
    tx: ConsequenceTx,
    r: Option<TxConsequences>,
    account: AdjustedAccount,
    adjustment: ViewAdjustment,
)
    requires
        call_ensures(preflight_consequences, (preflight, &tx), r),
        call_ensures(adjusted_account, (adjustment,), account),
    ensures
        preflight == Ter::TES_SUCCESS ==> r == Some(tx.consequences()),
        preflight != Ter::TES_SUCCESS ==> r is None,
        account.balance_drops == adjustment.adjusted_balance_drops,
        account.sequence == adjustment.applied_sequence_value,
{
}

/// A transaction inside a batch adds its own fee, or makes the fee of the batch one that nobody can
/// pay.
pub proof fn inner_fees_are_added(fee: Result<u64, Ter>, r: u64)
    requires
        call_ensures(inner_batch_fee, (fee,), r),
    ensures
        fee matches Ok(drops) ==> r == drops,
        fee is Err ==> r == 0xffff_ffff_ffff_ffff,
{
}

/// What was found of a transaction is told as it was found; a change that nobody knows is of an
/// unknown type, and nothing found against the other party of a loan is success.
pub proof fn findings_are_told(checked: Option<Ter>, change: Ter, signed: Result<(), Ter>, loan: Ter)
    requires
        call_ensures(change_pseudo_transaction_preflight_ter, (checked,), change),
        call_ensures(loan_set_counterparty_preflight_ter, (signed,), loan),
    ensures
        checked matches Some(ter) ==> change == ter,
        checked is None ==> change == Ter::TEM_UNKNOWN,
        signed matches Err(ter) ==> loan == ter,
        signed is Ok ==> loan == Ter::TES_SUCCESS,
{
}

/// Identifiers repeat where two places hold the same, wherever they stand.
pub proof fn repetitions_are_found(ids: Vec<Uint256>, r: bool, i: int, j: int)
    requires
        call_ensures(has_repetition, (&ids,), r),
        0 <= i < ids@.len(),
        0 <= j < ids@.len(),
        i != j,
    ensures
        ids@[i] == ids@[j] ==> r,
        r ==> !ids@.no_duplicates(),
{
    if ids@[i] == ids@[j] {
        if i < j {
            assert(ids@[i] == ids@[j]);
        } else {
            assert(ids@[j] == ids@[i]);
        }
    }
}

/// A state is kept when a ledger closes where there is one and it stands on that ledger, by its
/// hash and its time.
pub proof fn states_stand_on_their_ledger(held: Option<OpenHeader>, closed: BaseHeader, r: bool)
    requires
        call_ensures(keeps_sandbox, (held, closed), r),
    ensures
        held is None ==> !r,
        held matches Some(header) ==> (r <==> header.parent_hash == closed.hash
            && header.parent_close_time == closed.close_time),
{
}

/// A transaction that waits in the queue itself is known to, wherever it stands; and it begins with
/// the first of those before it.
pub proof fn the_transaction_is_found_in_the_queue(
    target: SeqProxy,
    queue: Vec<QueuedTx>,
    own: Result<u64, Ter>,
    open: usize,
    metrics: FeeMetrics,
    run: ClearAhead,
    i: int,
)
    requires
        call_ensures(
            ClearAhead::start,
            (target, &queue, own, open, metrics),
            Ok::<ClearAhead, Ter>(run),
        ),
    ensures
        0 <= i < queue@.len() && queue@[i].seq_proxy == target ==> run.queued,
        run.queued ==> exists|k: int|
            0 <= k < queue@.len() && (#[trigger] queue@[k]).seq_proxy == target,
        run.target == target,
        run.next == 0,
        run.attempts@.len() == 0,
        run.applied@.len() == 0,
        run.before@.len() > 0,
{
}

/// What is kept puts the transaction behind those that came through before it, and frees their
/// places and its own; what is not kept records and frees nothing.
pub proof fn what_paying_ahead_comes_to(
    run: ClearAhead,
    current: ApplyResult,
    id: Uint256,
    account: AccountID,
    delivered: Option<u64>,
    committed: bool,
    r: ClearAheadOutcome,
)
    requires
        call_ensures(ClearAhead::finish, (run, current, id, account, delivered, committed), r),
    ensures
        !current.applied || !committed ==> r.recorded@.len() == 0 && r.removed@.len() == 0
            && r.delivered is None && !r.result.applied,
        !current.applied ==> r.result == current,
        current.applied && !committed ==> r.result.ter == Ter::TEF_INTERNAL,
        current.applied && committed ==> {
            &&& r.result == current
            &&& r.delivered == delivered
            &&& r.recorded@.len() == run.applied@.len() + 1
            &&& r.recorded@.drop_last() == run.applied@
            &&& r.recorded@.last().id == id
            &&& r.recorded@.last().account == account
            &&& r.recorded@.last().seq_proxy == run.target
            &&& r.removed@.len() == run.before@.len() + if run.queued {
                1int
            } else {
                0
            }
            &&& forall|k: int|
                0 <= k < run.before@.len() ==> #[trigger] r.removed@[k] == run.before@[k].seq_proxy
            &&& run.queued ==> r.removed@.last() == run.target
        },
{
    if current.applied && committed {
        assert(r.recorded@.drop_last() =~= run.applied@);
    }
}

/// Those before a transaction come up one by one, in their order, until none is left.
pub proof fn those_before_come_in_order(run: ClearAhead, r: Option<QueuedTx>)
    requires
        call_ensures(ClearAhead::next_before, (&run,), r),
    ensures
        run.next >= run.before@.len() ==> r is None,
        run.next < run.before@.len() ==> r == Some(run.before@[run.next as int]),
{
}

/// Taking in what one of them came to remembers it in any case, and goes on to the next unless it
/// stands in the way; then its result is that of the whole.
pub proof fn attempts_are_remembered(run: &mut ClearAhead, result: ApplyResult, r: Option<ApplyResult>)
    requires
        call_ensures(ClearAhead::note_before, (run, result), r),
    ensures
        r is Some <==> !result.applied && result.ter != Ter::TEF_NO_TICKET,
        r matches Some(told) ==> told == result,
        final(run).attempts@.len() == old(run).attempts@.len() + 1,
        final(run).attempts@.last() == result,
        final(run).attempts@.drop_last() == old(run).attempts@,
        r is None ==> final(run).next == old(run).next + 1,
        final(run).before@ == old(run).before@,
        final(run).target == old(run).target,
        final(run).queued == old(run).queued,
{
    assert(final(run).attempts@.drop_last() =~= old(run).attempts@);
}

/// A transaction that goes straight into the open ledger is applied where it was let in; what is
/// applied is recorded last, and what is not changes nothing.
pub proof fn what_goes_straight_in(
    seqs: &mut OpenLedgerSeqs,
    recorded: &mut Vec<Uint256>,
    id: Uint256,
    account: AccountID,
    seq: u32,
    preclaim: Ter,
    outcome: ApplyResult,
    r: ApplyResult,
)
    requires
        call_ensures(direct_apply, (seqs, recorded, id, account, seq, preclaim, outcome), r),
    ensures
        preclaim == Ter::TES_SUCCESS || preclaim.claim() ==> r == outcome,
        !(preclaim == Ter::TES_SUCCESS || preclaim.claim()) ==> r.ter == preclaim && !r.applied,
        r.applied ==> final(recorded)@.len() == old(recorded)@.len() + 1 && final(recorded)@.last()
            == id && final(recorded)@.drop_last() == old(recorded)@,
        !r.applied ==> final(recorded)@ == old(recorded)@ && final(seqs).next@ == old(seqs).next@,
        r.applied ==> final(seqs).next@.contains_key(account),
        final(seqs).sandbox == old(seqs).sandbox,
{
    if r.applied {
        assert(final(recorded)@.drop_last() =~= old(recorded)@);
    }
}

} // verus!
