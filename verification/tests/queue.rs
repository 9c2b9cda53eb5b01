use xrpld_app::amount::{Amount, Asset};
use xrpld_app::ids::{AccountID, Uint256};
use xrpld_app::queue::base_fee::{
    batch_base_fee, batch_preclaim_ter, calculate_sttx_base_fee, calculate_sttx_base_fee_for_metrics,
    counterparty_signer_count, fee_drops_as_i64, fee_signer_count, inner_batch_fee,
    pending_base_fee, FeeFacts, INVALID_BATCH_BASE_FEE,
};
use xrpld_app::queue::batch_sign::{
    batch_account_state, batch_check_sign_ter, batch_signer_list, SignerAccount, SignerEntry,
    SignerListFields, LSF_DISABLE_MASTER,
};
use xrpld_app::queue::clear_ahead::{
    clear_ahead_required_fee_level, ApplyResult, ClearAhead, FeeMetrics, QueuedTx, RecordedTx,
};
use xrpld_app::queue::consequences::{
    canonical_sttx_consequences, preflight_consequences, ConsequenceTx,
};
use xrpld_app::queue::direct::{clear_ahead_apply, direct_apply, dispatch_apply, dispatch_preclaim};
use xrpld_app::queue::multi::{
    adjusted_account, run_preclaim, MultiFacts, PreclaimViewSource, ViewAdjustment,
};
use xrpld_app::queue::oracle::{
    run_oracle_set_preclaim_with_view, OracleEntry, OracleRead, OracleReserve, OracleSetTx,
    PricePair, SeriesEntry,
};
use xrpld_app::queue::preclaim::{
    preclaim_tail, typed_preclaim_route, typed_preclaim_ter, TypedPreclaimRoute,
};
use xrpld_app::queue::preflight::{
    change_preflight_facts, change_pseudo_transaction_preflight_ter, check_cancel_list,
    has_repetition, has_zero, transaction_preflight_ter, transaction_preflight_ter_with_flags,
    transaction_preflight_ter_with_parent_batch_id, ChangeFields, PreflightFacts,
};
use xrpld_app::queue::sandbox::{keeps_sandbox, BaseHeader, OpenHeader, PersistentSubmitSandbox};
use xrpld_app::open_ledger::seqs::OpenLedgerSeqs;
use xrpld_app::submit::checks::SeqProxy;
use xrpld_app::submit::flags::{ApplyFlags, Present, Read};
use xrpld_app::ter::Ter;
use xrpld_app::tx_type::TxType;

fn id(lo: u128) -> Uint256 {
    Uint256 { hi: 0, lo }
}

fn drops(value: i64) -> Amount {
    Amount::from_integer(Asset::Xrp, value)
}

fn tx(txn_type: TxType, sequence: u32) -> ConsequenceTx {
    ConsequenceTx {
        txn_type,
        fee_drops: Some(10),
        seq_proxy: SeqProxy::Sequence(sequence),
        amount: None,
        send_max: None,
        taker_gets: None,
        fee_amount_delta: None,
        ticket_count: 0,
        account_set_blocks: false,
    }
}

#[test]
fn ticket_proxy_and_ticket_create_sequence_span_match_rippled() {
    let mut ticket = tx(TxType::PAYMENT, 0);
    ticket.seq_proxy = SeqProxy::Ticket(77);
    let consequences = canonical_sttx_consequences(&ticket);
    assert_eq!(consequences.seq_proxy, SeqProxy::Ticket(77));
    assert_eq!(consequences.sequences_consumed, 0);

    let mut create = tx(TxType::TICKET_CREATE, 9);
    create.ticket_count = 4;
    let consequences = canonical_sttx_consequences(&create);
    assert_eq!(consequences.seq_proxy, SeqProxy::Sequence(9));
    assert_eq!(consequences.sequences_consumed, 4);
}

#[test]
fn blockers_and_custom_xrp_spend_match_pinned_factories() {
    let blockers = [
        TxType::REGULAR_KEY_SET,
        TxType::ACCOUNT_DELETE,
        TxType::SIGNER_LIST_SET,
        TxType::XCHAIN_CLAIM,
        TxType::XCHAIN_ADD_CLAIM_ATTESTATION,
        TxType::XCHAIN_ADD_ACCOUNT_CREATE_ATTESTATION,
    ];
    for txn_type in blockers {
        assert!(canonical_sttx_consequences(&tx(txn_type, 1)).is_blocker());
    }

    let mut payment = tx(TxType::PAYMENT, 1);
    payment.amount = Some(drops(25));
    payment.send_max = Some(drops(40));
    assert_eq!(canonical_sttx_consequences(&payment).potential_spend, 40);

    let mut offer = tx(TxType::OFFER_CREATE, 1);
    offer.taker_gets = Some(drops(55));
    assert_eq!(canonical_sttx_consequences(&offer).potential_spend, 55);
}

#[test]
fn rebases_parent_close_time_when_submit_lcl_advances() {
    let initial = BaseHeader { hash: id(1), close_time: 0 };
    let mut holder = None;
    let mut sandbox = PersistentSubmitSandbox::take_or_new(&mut holder, initial);
    assert_eq!(sandbox.view_mut().header.parent_close_time, 0);
    sandbox.give_back(&mut holder);

    let lcl = BaseHeader { hash: id(2), close_time: 1_000 };
    let mut sandbox = PersistentSubmitSandbox::take_or_new(&mut holder, lcl);
    let header = sandbox.view_mut().header;
    assert_eq!(header.parent_hash, lcl.hash);
    assert_eq!(header.parent_close_time, lcl.close_time);
}

#[test]
fn the_submit_state_is_kept_on_its_own_ledger() {
    let base = BaseHeader { hash: id(1), close_time: 5 };
    let mut holder = None;
    let mut sandbox = PersistentSubmitSandbox::take_or_new(&mut holder, base);
    sandbox.view_mut().changes.push(7);
    assert!(holder.is_none());
    sandbox.give_back(&mut holder);
    let again = PersistentSubmitSandbox::take_or_new(&mut holder, base);
    assert_eq!(again.sandbox.changes, vec![7]);
    assert!(holder.is_none());
    let meanwhile = PersistentSubmitSandbox::take_or_new(&mut holder, base);
    assert!(meanwhile.sandbox.changes.is_empty());
    again.give_back(&mut holder);
    let later = BaseHeader { hash: id(1), close_time: 6 };
    let renewed = PersistentSubmitSandbox::take_or_new(&mut holder, later);
    assert!(renewed.sandbox.changes.is_empty());
    assert_eq!(renewed.sandbox.header.parent_close_time, 6);
    let held = Some(OpenHeader { parent_hash: id(1), parent_close_time: 5 });
    assert!(keeps_sandbox(held, base));
    assert!(!keeps_sandbox(held, BaseHeader { hash: id(1), close_time: 6 }));
    assert!(!keeps_sandbox(None, base));
    assert!(keeps_sandbox(Some(OpenHeader { parent_hash: id(1), parent_close_time: 5 }), base));
}

#[test]
fn consequences_of_other_types() {
    let mut set = tx(TxType::ACCOUNT_SET, 3);
    assert!(!canonical_sttx_consequences(&set).is_blocker());
    set.account_set_blocks = true;
    assert!(canonical_sttx_consequences(&set).is_blocker());
    let mut fund = tx(TxType::PAYCHAN_FUND, 3);
    fund.amount = Some(drops(9));
    assert_eq!(canonical_sttx_consequences(&fund).potential_spend, 9);
    fund.amount = Some(drops(-9));
    assert_eq!(canonical_sttx_consequences(&fund).potential_spend, 0);
    let mut sponsor = tx(TxType::SPONSORSHIP_SET, 3);
    sponsor.fee_amount_delta = Some(drops(8));
    assert_eq!(canonical_sttx_consequences(&sponsor).potential_spend, 8);
    let mut payment = tx(TxType::PAYMENT, 3);
    payment.fee_drops = Some(-4);
    payment.amount = Some(drops(25));
    let consequences = canonical_sttx_consequences(&payment);
    assert_eq!(consequences.fee, 0);
    assert_eq!(consequences.potential_spend, 25);
    assert_eq!(consequences.sequences_consumed, 1);
    assert!(preflight_consequences(Ter::TEM_INVALID, &payment).is_none());
    assert_eq!(preflight_consequences(Ter::TES_SUCCESS, &payment), Some(consequences));
}

fn fee_facts(txn_type: TxType) -> FeeFacts {
    FeeFacts {
        txn_type,
        ledger_base_fee: 10,
        transactor_base_fee: 12,
        change_fee: 0,
        batch_fee: Ok(70),
        signing_key_matches: true,
        password_spent: Read::Found(false),
        account_delete_fee: 2_000_000,
        amm_create_fee: 200_000,
        escrow_finish_fee: 330,
        counterparty_signers: 3,
        loan_pay_fee: Err(Ter::TEF_BAD_LEDGER),
        ledger_state_fix_fee: 2_000_001,
        confidential_multiplier: 9,
    }
}

#[test]
fn every_type_has_its_fee() {
    assert_eq!(calculate_sttx_base_fee(&fee_facts(TxType::PAYMENT)), Ok(12));
    assert_eq!(calculate_sttx_base_fee(&fee_facts(TxType::AMENDMENT)), Ok(0));
    assert_eq!(calculate_sttx_base_fee(&fee_facts(TxType::BATCH)), Ok(70));
    assert_eq!(calculate_sttx_base_fee(&fee_facts(TxType::REGULAR_KEY_SET)), Ok(0));
    assert_eq!(calculate_sttx_base_fee(&fee_facts(TxType::ACCOUNT_DELETE)), Ok(2_000_000));
    assert_eq!(calculate_sttx_base_fee(&fee_facts(TxType::AMM_CREATE)), Ok(200_000));
    assert_eq!(calculate_sttx_base_fee(&fee_facts(TxType::ESCROW_FINISH)), Ok(330));
    assert_eq!(calculate_sttx_base_fee(&fee_facts(TxType::LOAN_SET)), Ok(42));
    assert_eq!(calculate_sttx_base_fee(&fee_facts(TxType::CONFIDENTIAL_MPT_SEND)), Ok(102));
    assert_eq!(calculate_sttx_base_fee(&fee_facts(TxType::LEDGER_STATE_FIX)), Ok(2_000_001));
    let loan = fee_facts(TxType::LOAN_PAY);
    assert_eq!(calculate_sttx_base_fee(&loan), Err(Ter::TEF_BAD_LEDGER));
    assert_eq!(calculate_sttx_base_fee_for_metrics(&loan), 12);
    let mut key = fee_facts(TxType::REGULAR_KEY_SET);
    key.password_spent = Read::Found(true);
    assert_eq!(calculate_sttx_base_fee(&key), Ok(12));
    key.password_spent = Read::Failed;
    assert_eq!(calculate_sttx_base_fee(&key), Err(Ter::TEF_BAD_LEDGER));
}

#[test]
fn fees_of_batches() {
    let none: Vec<Result<u64, Ter>> = Vec::new();
    assert_eq!(batch_base_fee(false, true, 30, &none), Ok(INVALID_BATCH_BASE_FEE));
    assert_eq!(batch_base_fee(true, false, 30, &none), Ok(INVALID_BATCH_BASE_FEE));
    assert_eq!(batch_base_fee(true, true, 30, &none), Ok(30));
    let some = vec![Err(Ter::TEF_BAD_LEDGER), Ok(10), Err(Ter::TEF_INTERNAL), Ok(10)];
    assert_eq!(batch_base_fee(true, true, 30, &some), Err(Ter::TEF_INTERNAL));
    assert_eq!(inner_batch_fee(Ok(10)), 10);
    assert_eq!(inner_batch_fee(Err(Ter::TEF_INTERNAL)), INVALID_BATCH_BASE_FEE);
    assert_eq!(batch_preclaim_ter(TxType::BATCH, Ok(INVALID_BATCH_BASE_FEE)), Ter::TEC_INSUFF_FEE);
    assert_eq!(batch_preclaim_ter(TxType::BATCH, Ok(30)), Ter::TES_SUCCESS);
    assert_eq!(batch_preclaim_ter(TxType::BATCH, Err(Ter::TEF_BAD_LEDGER)), Ter::TEF_BAD_LEDGER);
    assert_eq!(batch_preclaim_ter(TxType::PAYMENT, Err(Ter::TEF_BAD_LEDGER)), Ter::TES_SUCCESS);
    assert_eq!(fee_drops_as_i64(INVALID_BATCH_BASE_FEE), i64::MAX);
    assert_eq!(fee_drops_as_i64(10), 10);
    assert_eq!(pending_base_fee(None, 30), 0);
    assert_eq!(pending_base_fee(Some(10), INVALID_BATCH_BASE_FEE), 10);
    assert_eq!(pending_base_fee(Some(10), 30), 30);
}

#[test]
fn signers_are_counted() {
    assert_eq!(fee_signer_count(Some(2), Some(3)), 5);
    assert_eq!(fee_signer_count(None, Some(3)), 3);
    assert_eq!(counterparty_signer_count(Some(4), true), 4);
    assert_eq!(counterparty_signer_count(None, true), 1);
    assert_eq!(counterparty_signer_count(None, false), 0);
}

#[test]
fn signers_of_batches() {
    let account = SignerAccount { flags: LSF_DISABLE_MASTER | 1, regular_key: None };
    assert!(batch_account_state(Read::Found(account)).unwrap().master_disabled);
    assert!(batch_account_state(Read::Missing).is_none());
    let signer = AccountID { hi: 1, lo: 2 };
    let list = batch_signer_list(&SignerListFields {
        signer_list_id: None,
        quorum: 3,
        entries: vec![SignerEntry { account: signer, weight: 65_535 }],
    });
    assert!(!list.signer_list_id_present);
    assert_eq!(list.signer_list_id, 0);
    assert_eq!(list.entries[0].weight, 65_535);
    let lists: Vec<Read<SignerListFields>> = Vec::new();
    let failed = vec![Read::Found(account), Read::Failed];
    assert_eq!(batch_check_sign_ter(false, &failed, &lists, Ter::TEM_INVALID), Ter::TES_SUCCESS);
    assert_eq!(batch_check_sign_ter(true, &failed, &lists, Ter::TES_SUCCESS), Ter::TEF_BAD_LEDGER);
    let good = vec![Read::Found(account), Read::Missing];
    assert_eq!(batch_check_sign_ter(true, &good, &lists, Ter::TEM_INVALID), Ter::TEM_INVALID);
}

#[test]
fn fee_levels_grow_with_the_squares() {
    let metrics = FeeMetrics { txns_expected: 2, escalation_multiplier: 400 };
    // 400 / 4 * (3 * 3 + 4 * 4)
    assert_eq!(clear_ahead_required_fee_level(3, 2, metrics), Some(2_500));
    assert_eq!(clear_ahead_required_fee_level(3, 1, metrics), Some(900));
    assert_eq!(clear_ahead_required_fee_level(2, 2, metrics), None);
    assert_eq!(clear_ahead_required_fee_level(3, 0, metrics), None);
    let empty = FeeMetrics { txns_expected: 0, escalation_multiplier: 400 };
    assert_eq!(clear_ahead_required_fee_level(3, 2, empty), None);
    let dear = FeeMetrics { txns_expected: 1, escalation_multiplier: u64::MAX };
    assert_eq!(clear_ahead_required_fee_level(2, 1, dear), None);
}

const PAYER: AccountID = AccountID { hi: 0, lo: 5 };

fn recorded(lo: u128, sequence: u32) -> RecordedTx {
    RecordedTx { id: id(lo), account: PAYER, seq_proxy: SeqProxy::Sequence(sequence) }
}

fn queued(lo: u128, sequence: u32, fee_level: u64) -> QueuedTx {
    QueuedTx {
        id: id(lo),
        account: PAYER,
        seq_proxy: SeqProxy::Sequence(sequence),
        fee_level,
        flags: ApplyFlags::none(),
    }
}

#[test]
fn sequences_come_before_tickets() {
    let sequence = SeqProxy::Sequence;
    let ticket = SeqProxy::Ticket;
    assert!(sequence(4).comes_before(sequence(5)) && !sequence(5).comes_before(sequence(5)));
    assert!(ticket(4).comes_before(ticket(5)) && !ticket(6).comes_before(ticket(5)));
    assert!(sequence(9).comes_before(ticket(1)) && !ticket(1).comes_before(sequence(9)));
}

#[test]
fn a_transaction_pays_for_those_before_it() {
    let metrics = FeeMetrics { txns_expected: 2, escalation_multiplier: 400 };
    let target = SeqProxy::Sequence(6);
    let queue = vec![queued(1, 4, 100), queued(2, 5, 100), queued(3, 6, 1)];
    // 400 / 4 * (9 + 16 + 25)
    let poor = ClearAhead::start(target, &queue, Ok(4_799), 3, metrics);
    assert!(matches!(poor, Err(Ter::TEL_INSUF_FEE_P)));
    let mut run = ClearAhead::start(target, &queue, Ok(4_800), 3, metrics).ok().unwrap();
    assert_eq!(run.next_before(), Some(queue[0]));
    assert!(run.note_before(ApplyResult { ter: Ter::TES_SUCCESS, applied: true }).is_none());
    assert!(run.note_before(ApplyResult { ter: Ter::TEF_NO_TICKET, applied: false }).is_none());
    assert!(run.next_before().is_none());
    let current = ApplyResult { ter: Ter::TES_SUCCESS, applied: true };
    let outcome = run.finish(current, id(9), PAYER, Some(33), true);
    assert_eq!(outcome.result, current);
    assert_eq!(outcome.recorded, vec![recorded(1, 4), recorded(9, 6)]);
    assert_eq!(outcome.delivered, Some(33));
    let mut seqs = OpenLedgerSeqs::new();
    seqs.record_cleared(&outcome.recorded);
    assert_eq!(seqs.network_ops_current_account_seq(PAYER, None), Some(7));
    seqs.record_cleared(&vec![recorded(2, 5)]);
    assert_eq!(seqs.network_ops_current_account_seq(PAYER, None), Some(7));
    let ticket = RecordedTx { seq_proxy: SeqProxy::Ticket(20), ..recorded(3, 0) };
    seqs.record_clear_ahead_open_ledger_tx(&ticket);
    assert_eq!(seqs.network_ops_current_account_seq(PAYER, None), Some(21));
    assert_eq!(
        outcome.removed,
        vec![SeqProxy::Sequence(4), SeqProxy::Sequence(5), SeqProxy::Sequence(6)]
    );
}

#[test]
fn paying_for_others_can_fail() {
    let metrics = FeeMetrics { txns_expected: 2, escalation_multiplier: 400 };
    let target = SeqProxy::Sequence(6);
    let none: Vec<QueuedTx> = Vec::new();
    assert!(matches!(ClearAhead::start(target, &none, Ok(1), 3, metrics), Err(Ter::TER_QUEUED)));
    let queue = vec![queued(1, 4, 100)];
    assert!(matches!(
        ClearAhead::start(target, &queue, Err(Ter::TEF_BAD_LEDGER), 3, metrics),
        Err(Ter::TEF_BAD_LEDGER)
    ));
    let rich = vec![queued(1, 4, u64::MAX)];
    assert!(matches!(
        ClearAhead::start(target, &rich, Ok(1), 3, metrics),
        Err(Ter::TEL_INSUF_FEE_P)
    ));
    let mut run = ClearAhead::start(target, &queue, Ok(9_000), 3, metrics).ok().unwrap();
    let failed = ApplyResult { ter: Ter::TEC_KILLED, applied: false };
    assert_eq!(run.note_before(failed), Some(failed));
    assert_eq!(run.attempts.len(), 1);
    let mut run = ClearAhead::start(target, &queue, Ok(9_000), 3, metrics).ok().unwrap();
    let good = ApplyResult { ter: Ter::TES_SUCCESS, applied: true };
    run.note_before(good);
    let outcome = run.finish(good, id(9), PAYER, Some(33), false);
    assert_eq!(outcome.result.ter, Ter::TEF_INTERNAL);
    assert!(outcome.recorded.is_empty() && outcome.removed.is_empty());
    assert_eq!(outcome.delivered, None);
}

#[test]
fn direct_application() {
    let good = ApplyResult { ter: Ter::TES_SUCCESS, applied: true };
    assert_eq!(clear_ahead_apply(Ter::TES_SUCCESS, Ter::TES_SUCCESS, good), good);
    assert_eq!(clear_ahead_apply(Ter::TEM_INVALID, Ter::TES_SUCCESS, good).ter, Ter::TEM_INVALID);
    assert_eq!(clear_ahead_apply(Ter::TES_SUCCESS, Ter::TER_QUEUED, good).ter, Ter::TER_QUEUED);
    let account = AccountID { hi: 1, lo: 1 };
    let mut seqs = OpenLedgerSeqs::new();
    let mut recorded: Vec<Uint256> = Vec::new();
    let refused = direct_apply(&mut seqs, &mut recorded, id(1), account, 7, Ter::TER_QUEUED, good);
    assert!(!refused.applied && recorded.is_empty());
    direct_apply(&mut seqs, &mut recorded, id(1), account, 7, Ter::TES_SUCCESS, good);
    assert_eq!(recorded, vec![id(1)]);
    assert_eq!(seqs.network_ops_current_account_seq(account, None), Some(8));
    assert_eq!(dispatch_preclaim(false, Ter::TES_SUCCESS), Ter::TER_NO_ACCOUNT);
    assert_eq!(dispatch_preclaim(true, Ter::TES_SUCCESS), Ter::TES_SUCCESS);
    assert!(dispatch_apply(true, Ter::TEM_INVALID).applied);
    assert!(dispatch_apply(false, Ter::TEC_KILLED).applied);
    assert!(!dispatch_apply(false, Ter::TER_QUEUED).applied);
}

fn multi() -> MultiFacts {
    MultiFacts {
        source: PreclaimViewSource::MultiTxnView,
        current: Ter::TER_QUEUED,
        adjustment: Some(ViewAdjustment { adjusted_balance_drops: 5, applied_sequence_value: 6 }),
        account: Read::Found(Present),
        updated: true,
        adjusted: Ter::TES_SUCCESS,
    }
}

#[test]
fn looking_past_those_before_it() {
    assert_eq!(run_preclaim(&multi()), Ter::TES_SUCCESS);
    let mut facts = multi();
    facts.source = PreclaimViewSource::CurrentView;
    assert_eq!(run_preclaim(&facts), Ter::TER_QUEUED);
    facts = multi();
    facts.adjustment = None;
    assert_eq!(run_preclaim(&facts), Ter::TEF_INTERNAL);
    facts = multi();
    facts.account = Read::Failed;
    assert_eq!(run_preclaim(&facts), Ter::TEF_BAD_LEDGER);
    facts.account = Read::Missing;
    assert_eq!(run_preclaim(&facts), Ter::TEF_INTERNAL);
    facts = multi();
    facts.updated = false;
    assert_eq!(run_preclaim(&facts), Ter::TEF_INTERNAL);
    let adjusted =
        adjusted_account(ViewAdjustment { adjusted_balance_drops: 5, applied_sequence_value: 6 });
    assert_eq!((adjusted.balance_drops, adjusted.sequence), (5, 6));
}

#[test]
fn oracles_are_judged_by_what_is_there() {
    let series = vec![
        SeriesEntry { pair: PricePair { base: 3, quote: 4 }, price: 8 },
        SeriesEntry { pair: PricePair { base: 1, quote: 2 }, price: 9 },
    ];
    let with_provider = |provider: Vec<u8>| OracleSetTx {
        provider: Some(provider),
        asset_class: None,
        last_update_time: 50,
        series: series.clone(),
    };
    let tx = || with_provider(vec![1, 2]);
    let reserve =
        OracleReserve { balance_drops: 70, effective_owner_count: 2, effective_account_count: 1 };
    let entry = || OracleEntry {
        provider: vec![1, 2],
        asset_class: vec![9],
        last_update_time: 40,
        pairs: vec![PricePair { base: 1, quote: 2 }],
    };
    let found = OracleRead::Found(entry());
    let facts =
        run_oracle_set_preclaim_with_view(Ter::TES_SUCCESS, Read::Found(reserve), found, tx(), 60);
    let facts = facts.ok().unwrap();
    assert!(facts.oracle_exists && facts.tx_provider_matches_existing);
    assert!(facts.tx_asset_class_matches_existing && !facts.tx_asset_class_present);
    assert_eq!(facts.previous_last_update_time_secs, 40);
    assert_eq!(facts.close_time_secs, 60);
    assert_eq!(facts.existing_pairs.len(), 1);
    assert!(facts.account_exists);
    assert_eq!(facts.tx_series, series);
    assert_eq!(facts.reserve, reserve);
    let other = with_provider(vec![1]);
    let facts = run_oracle_set_preclaim_with_view(
        Ter::TES_SUCCESS,
        Read::Found(reserve),
        OracleRead::Found(entry()),
        other,
        60,
    );
    assert!(!facts.ok().unwrap().tx_provider_matches_existing);
    let none = run_oracle_set_preclaim_with_view(
        Ter::TES_SUCCESS,
        Read::Found(reserve),
        OracleRead::Missing,
        tx(),
        60,
    );
    assert!(!none.ok().unwrap().oracle_exists);
    let ter = |preflight, account, oracle| {
        run_oracle_set_preclaim_with_view(preflight, account, oracle, tx(), 60).err()
    };
    assert_eq!(
        ter(Ter::TEM_MALFORMED, Read::Found(reserve), OracleRead::Missing),
        Some(Ter::TEM_MALFORMED)
    );
    assert_eq!(
        ter(Ter::TES_SUCCESS, Read::Missing, OracleRead::Missing),
        Some(Ter::TER_NO_ACCOUNT)
    );
    assert_eq!(
        ter(Ter::TES_SUCCESS, Read::Found(reserve), OracleRead::Failed),
        Some(Ter::TEF_BAD_LEDGER)
    );
}

#[test]
fn everybody_known_is_looked_at() {
    assert_eq!(typed_preclaim_route(TxType::PAYMENT), TypedPreclaimRoute::AppReadViewHelper);
    assert_eq!(typed_preclaim_route(TxType::DID_SET), TypedPreclaimRoute::BridgeDomainAuditedNoop);
    assert_eq!(typed_preclaim_route(TxType::Other(9_999)), TypedPreclaimRoute::FailClosed);
    let unknown = typed_preclaim_ter(TxType::Other(9_999), Some(Ter::TES_SUCCESS), Ter::TES_SUCCESS);
    assert_eq!(unknown, Ter::TEM_UNKNOWN);
    assert_eq!(typed_preclaim_ter(TxType::PAYMENT, None, Ter::TES_SUCCESS), Ter::TEM_UNKNOWN);
    assert_eq!(
        typed_preclaim_ter(TxType::SPONSORSHIP_SET, None, Ter::TEC_NO_ENTRY),
        Ter::TEC_NO_ENTRY
    );
    assert_eq!(
        preclaim_tail(TxType::BATCH, None, Ter::TES_SUCCESS, Ok(INVALID_BATCH_BASE_FEE)),
        Ter::TEC_INSUFF_FEE
    );
    assert_eq!(
        preclaim_tail(TxType::PAYMENT, Some(Ter::TES_SUCCESS), Ter::TEM_INVALID, Err(Ter::TEF_INTERNAL)),
        Ter::TES_SUCCESS
    );
}

fn preflight(txn_type: TxType) -> PreflightFacts {
    PreflightFacts {
        txn_type,
        change: Some(Ter::TES_SUCCESS),
        semantic: Ter::TES_SUCCESS,
        nftoken_offers: vec![id(1), id(2)],
        fix_cleanup_3_2_0: true,
        counterparty: Ok(()),
        inner_batch_flag: false,
        signature_good: true,
        credential_ids: None,
        fix_cleanup_3_4_0: true,
        credential_fields: Ter::TES_SUCCESS,
        batch_signatures: Ter::TES_SUCCESS,
    }
}

#[test]
fn fields_are_looked_at_first() {
    assert_eq!(transaction_preflight_ter(&preflight(TxType::PAYMENT)), Ter::TES_SUCCESS);
    let mut facts = preflight(TxType::PAYMENT);
    facts.signature_good = false;
    assert_eq!(transaction_preflight_ter(&facts), Ter::TEM_INVALID);
    assert_eq!(
        transaction_preflight_ter_with_flags(&facts, ApplyFlags::dry_run()),
        Ter::TES_SUCCESS
    );
    assert_eq!(
        transaction_preflight_ter_with_parent_batch_id(&facts, true, ApplyFlags::none()),
        Ter::TEM_INVALID_INNER_BATCH
    );
    facts.inner_batch_flag = true;
    assert_eq!(
        transaction_preflight_ter_with_parent_batch_id(&facts, true, ApplyFlags::none()),
        Ter::TES_SUCCESS
    );
    facts.semantic = Ter::TEM_DISABLED;
    assert_eq!(transaction_preflight_ter(&facts), Ter::TEM_DISABLED);
    let mut change = preflight(TxType::FEE);
    change.change = None;
    assert_eq!(transaction_preflight_ter(&change), Ter::TEM_UNKNOWN);
    assert_eq!(change_pseudo_transaction_preflight_ter(None), Ter::TEM_UNKNOWN);
    let mut escrow = preflight(TxType::ESCROW_FINISH);
    escrow.credential_ids = Some(vec![Uint256::zero()]);
    assert_eq!(transaction_preflight_ter(&escrow), Ter::TEM_MALFORMED);
    escrow.credential_ids = Some(vec![id(1)]);
    escrow.credential_fields = Ter::TEM_INVALID;
    assert_eq!(transaction_preflight_ter(&escrow), Ter::TEM_INVALID);
    let mut loan = preflight(TxType::LOAN_SET);
    loan.counterparty = Err(Ter::TEM_INVALID_FLAG);
    assert_eq!(transaction_preflight_ter(&loan), Ter::TEM_INVALID_FLAG);
    let mut batch = preflight(TxType::BATCH);
    batch.batch_signatures = Ter::TEM_MALFORMED;
    assert_eq!(transaction_preflight_ter(&batch), Ter::TEM_MALFORMED);
    let mut cancel = preflight(TxType::NFTOKEN_CANCEL_OFFER);
    cancel.nftoken_offers = vec![id(1), id(1)];
    assert_eq!(transaction_preflight_ter(&cancel), Ter::TEM_MALFORMED);
}

#[test]
fn lists_of_offers_to_cancel() {
    assert!(has_repetition(&vec![id(1), id(2), id(1)]));
    assert!(!has_repetition(&vec![id(1), id(2)]));
    assert!(has_zero(&vec![id(1), Uint256::zero()]));
    assert_eq!(check_cancel_list(&Vec::new(), false), Ter::TEM_MALFORMED);
    assert_eq!(check_cancel_list(&vec![Uint256::zero()], false), Ter::TES_SUCCESS);
    assert_eq!(check_cancel_list(&vec![Uint256::zero()], true), Ter::TEM_MALFORMED);
    let many: Vec<Uint256> = (1..=500).map(id).collect();
    assert_eq!(check_cancel_list(&many, true), Ter::TES_SUCCESS);
    let more: Vec<Uint256> = (1..=501).map(id).collect();
    assert_eq!(check_cancel_list(&more, true), Ter::TEM_MALFORMED);
}

#[test]
fn fields_of_changes() {
    let fields = ChangeFields {
        account_is_zero: true,
        fee_is_native: true,
        fee_drops: 0,
        signing_pub_key_len: Some(0),
        txn_signature_len: None,
        signers_present: false,
        sequence: Some(0),
        previous_txn_id_present: false,
    };
    let facts = change_preflight_facts(&fields);
    assert!(facts.fee_is_native_and_zero && facts.signing_pub_key_empty && facts.signature_empty);
    assert!(facts.sequence_is_zero);
    let other = ChangeFields { fee_drops: 1, sequence: Some(4), ..fields };
    let facts = change_preflight_facts(&other);
    assert!(!facts.fee_is_native_and_zero && !facts.sequence_is_zero);
}
