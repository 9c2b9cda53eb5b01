use xrpld_app::ids::{AccountID, Uint256};
use xrpld_app::limits::{EXPIRED_OFFER_REMOVE_LIMIT, OVERSIZE_METADATA_CAP, UNFUNDED_OFFER_REMOVE_LIMIT};
use xrpld_app::submit::batch::{
    apply_submit_batch_followup, followup_step, inner_flags, AppliedBatchInnerTransaction,
    BatchApplyDestination, BatchMode, BatchProgress, BatchRun, InnerRun, InnerTx,
};
use xrpld_app::submit::calls::{AccountChange, InvariantScope, RemovedKind, Scope, ShellCall};
use xrpld_app::submit::checks::{
    check_submission, is_change_pseudo_transaction, AccountRoot, Admission, FeeField, SeqProxy,
    ShellFacts, Sponsor, SponsorFlags, Sponsorship, SubmitTx,
};
use xrpld_app::submit::cleanup::{
    clean_up, cleanup_plan, preserved_offer, removes_trust_lines, CleanupPlan, CleanupRun,
    ErasedEntry, ErasedKind, RemovalEvent,
};
use xrpld_app::submit::fee::{charge_fee, FeeCharge, FeePayer, PayerAccount, SponsorFunds};
use xrpld_app::submit::flags::{likely_to_claim_fee, ApplyFlags, Present, Read};
use xrpld_app::submit::outcome::{
    apply_simulated_transaction, apply_submit_transactor_shell,
    apply_submit_transactor_shell_with_delivered_amount, apply_submit_transactor_shell_with_flags,
    apply_submit_transactor_shell_with_flags_batch_outcome_and_preclaim, keeps_result, submit_gate,
    OuterRun,
};
use xrpld_app::submit::settle::{
    after_handler, exceeds_oversize_metadata_cap, next_step, settlement, transaction_item_count,
    AfterHandler, ApplyStep, SettleRun, Settled, Settlement,
};
use xrpld_app::submit::shell::{
    admission_result, apply_submit_transactor_shell_impl, captures_delivered_amount, ShellRun,
};
use xrpld_app::submit::ticket::{
    consume_seq_proxy, is_reserve_sufficient, submit_confine_owner_count, TicketRun,
};
use xrpld_app::ter::{
    admits_apply, is_tec_claim, is_tef_failure, is_tem_malformed, is_ter_retry, is_tes_success,
    Ter, TerClass,
};
use xrpld_app::tx_type::TxType;

fn id(lo: u128) -> Uint256 {
    Uint256 { hi: 0, lo }
}

fn account(lo: u128) -> AccountID {
    AccountID { hi: 0, lo }
}

fn tx(txn_type: TxType) -> SubmitTx {
    SubmitTx {
        id: id(77),
        txn_type,
        account: Some(account(1)),
        fee: Some(FeeField { native: true, drops: 10 }),
        seq_proxy: SeqProxy::Sequence(5),
        account_txn_id: None,
        last_ledger_sequence: None,
        sponsor: None,
        has_delegate: false,
        fee_payer: account(1),
        inner_batch: false,
        replaced_offer: None,
    }
}

fn root() -> AccountRoot {
    AccountRoot { balance: Some(1_000), account_txn_id: None, ticket_count: None, owner_count: 2 }
}

fn facts() -> ShellFacts {
    ShellFacts {
        preclaim_result: Ter::TES_SUCCESS,
        pseudo_preflight: Ter::TES_SUCCESS,
        invalid_amount: false,
        fix_cleanup_3_2_0: true,
        ledger_seq: 100,
        open: false,
        account_root: Read::Found(root()),
        recorded: Read::Missing,
        offer_preclaim: Ter::TES_SUCCESS,
        oracle_preclaim: Ter::TES_SUCCESS,
        sponsor_root: Read::Found(Present),
        sponsorship: Read::Missing,
    }
}

fn nothing_erased() -> CleanupRun {
    CleanupRun {
        erased: vec![],
        offers: vec![],
        nf_token_offers: vec![],
        trust_lines: vec![],
        credentials: vec![],
    }
}

fn run(handler: Ter) -> ShellRun {
    ShellRun {
        ticket: TicketRun { ticket: Read::Found(Present), unlisted: true, erased: true },
        sponsor_funds: Read::Missing,
        payer_account: Read::Missing,
        payer_updated: true,
        account_updated: true,
        fee_destroyed: true,
        prefix_captured: true,
        account_again: Read::Found(Present),
        account_chained: true,
        settle: SettleRun {
            handler,
            preamble_keys: vec![id(1)],
            handler_keys: vec![id(1), id(2)],
            restored: true,
            invariants: handler,
            reset_invariants: handler,
            committed: true,
            cleanup: nothing_erased(),
            cleanup_invariants: handler,
            cleanup_committed: true,
        },
    }
}

fn outer() -> OuterRun {
    OuterRun {
        batch_preflight: Ter::TES_SUCCESS,
        batch_preclaim: Ter::TES_SUCCESS,
        panicked: None,
        described: true,
        transaction_kept: true,
        whole_kept: true,
        batch: BatchRun { inner: Ok(vec![]), mode: mode(), whole_committed: true },
        delivered: Some(9),
    }
}

fn mode() -> BatchMode {
    BatchMode { all_or_nothing: false, only_one: false, until_failure: false }
}

fn change(balance: i64) -> ShellCall {
    ShellCall::UpdateAccount(AccountChange {
        account: account(1),
        sequence: Some(6),
        ticket_count: None,
        owner_count: 2,
        balance: Some(balance),
    })
}

fn check(scope: InvariantScope, result: Ter) -> ShellCall {
    ShellCall::CheckInvariants { scope, result, fee: 10 }
}

#[test]
fn results_have_classes() {
    assert_eq!(Ter::OtherTec(199).class(), TerClass::Claim);
    assert!(is_tes_success(Ter::TES_SUCCESS) && admits_apply(Ter::TES_SUCCESS));
    assert!(is_tec_claim(Ter::TEC_KILLED) && admits_apply(Ter::TEC_KILLED));
    assert!(is_tef_failure(Ter::TEF_ALREADY) && !admits_apply(Ter::TEF_ALREADY));
    assert!(is_tem_malformed(Ter::OtherTem(-299)));
    assert!(is_ter_retry(Ter::TER_QUEUED));
    assert_eq!(Ter::TEL_INSUF_FEE_P.class(), TerClass::Local);
    assert!(likely_to_claim_fee(Ter::TEC_KILLED, ApplyFlags::none()));
    let retry = ApplyFlags { retry: true, ..ApplyFlags::none() };
    assert!(!likely_to_claim_fee(Ter::TEC_KILLED, retry));
    assert!(likely_to_claim_fee(Ter::TES_SUCCESS, retry));
}

#[test]
fn every_fault_has_its_refusal() {
    let refused = |tx: &SubmitTx, facts: &ShellFacts| match check_submission(tx, facts) {
        Admission::Refused(ter) => Some(ter),
        _ => None,
    };
    let good = tx(TxType::PAYMENT);
    assert_eq!(refused(&good, &facts()), None);
    let zero = SubmitTx { account: Some(AccountID::zero()), ..good };
    assert_eq!(refused(&zero, &facts()), Some(Ter::TEM_BAD_SRC_ACCOUNT));
    let negative = SubmitTx { fee: Some(FeeField { native: true, drops: -1 }), ..good };
    assert_eq!(refused(&negative, &facts()), Some(Ter::TEM_BAD_FEE));
    let foreign = SubmitTx { fee: Some(FeeField { native: false, drops: 1 }), ..good };
    assert_eq!(refused(&foreign, &facts()), Some(Ter::TEM_BAD_FEE));
    let both = SubmitTx {
        seq_proxy: SeqProxy::Ticket(4),
        account_txn_id: Some(id(1)),
        ..good
    };
    assert_eq!(refused(&both, &facts()), Some(Ter::TEM_INVALID));
    assert_eq!(
        refused(&good, &ShellFacts { invalid_amount: true, ..facts() }),
        Some(Ter::TEM_BAD_AMOUNT)
    );
    assert_eq!(
        refused(&good, &ShellFacts { account_root: Read::Missing, ..facts() }),
        Some(Ter::TER_NO_ACCOUNT)
    );
    assert_eq!(
        refused(&good, &ShellFacts { account_root: Read::Failed, ..facts() }),
        Some(Ter::TEF_BAD_LEDGER)
    );
    let prior = SubmitTx { account_txn_id: Some(id(1)), ..good };
    assert_eq!(refused(&prior, &facts()), Some(Ter::TEF_WRONG_PRIOR));
    let late = SubmitTx { last_ledger_sequence: Some(99), ..good };
    assert_eq!(refused(&late, &facts()), Some(Ter::TEF_MAX_LEDGER));
    let in_time = SubmitTx { last_ledger_sequence: Some(100), ..good };
    assert_eq!(refused(&in_time, &facts()), None);
    assert_eq!(
        refused(&good, &ShellFacts { recorded: Read::Found(Present), ..facts() }),
        Some(Ter::TEF_ALREADY)
    );
    let offer = tx(TxType::OFFER_CREATE);
    let malformed = ShellFacts { offer_preclaim: Ter::TEM_BAD_OFFER, ..facts() };
    assert_eq!(refused(&offer, &malformed), Some(Ter::TEM_BAD_OFFER));
    assert_eq!(refused(&good, &malformed), None);
    let oracle = tx(TxType::ORACLE_SET);
    let absent = ShellFacts { oracle_preclaim: Ter::TER_NO_ACCOUNT, ..facts() };
    assert_eq!(refused(&oracle, &absent), Some(Ter::TER_NO_ACCOUNT));
}

#[test]
fn sponsors_have_their_rules() {
    let flags = SponsorFlags { fee: true, reserve: false, unknown: false };
    let sponsor = Sponsor { account: account(9), flags: Some(flags), signed: true };
    let verdict = |sponsor: Sponsor, facts: ShellFacts, has_delegate: bool| {
        check_submission(
            &SubmitTx { sponsor: Some(sponsor), has_delegate, ..tx(TxType::PAYMENT) },
            &facts,
        )
    };
    let own = Sponsor { account: account(1), ..sponsor };
    assert_eq!(verdict(own, facts(), false), Admission::Refused(Ter::TEM_MALFORMED));
    let bare = Sponsor { flags: None, ..sponsor };
    assert_eq!(verdict(bare, facts(), false), Admission::Refused(Ter::TEM_INVALID_FLAG));
    let odd = Sponsor { flags: Some(SponsorFlags { unknown: true, ..flags }), ..sponsor };
    assert_eq!(verdict(odd, facts(), false), Admission::Refused(Ter::TEM_INVALID_FLAG));
    let reserve = Sponsor { flags: Some(SponsorFlags { reserve: true, ..flags }), ..sponsor };
    assert_eq!(verdict(reserve, facts(), true), Admission::Refused(Ter::TEM_INVALID));
    let gone = ShellFacts { sponsor_root: Read::Missing, ..facts() };
    assert_eq!(verdict(sponsor, gone, false), Admission::Refused(Ter::TER_NO_ACCOUNT));
    let unsigned = Sponsor { signed: false, ..sponsor };
    assert_eq!(verdict(unsigned, facts(), false), Admission::Refused(Ter::TER_NO_PERMISSION));
    let standing = ShellFacts {
        sponsorship: Read::Found(Sponsorship {
            require_sign_for_fee: false,
            require_sign_for_reserve: true,
        }),
        ..facts()
    };
    match verdict(unsigned, standing, false) {
        Admission::Preamble(preamble) => assert!(preamble.fee_sponsored && preamble.prefunded),
        _ => panic!("the standing sponsorship needs no signature for a fee"),
    }
}

#[test]
fn network_transactions_go_straight_to_their_handler() {
    assert!(is_change_pseudo_transaction(TxType::FEE));
    assert!(!is_change_pseudo_transaction(TxType::PAYMENT));
    let fee = tx(TxType::FEE);
    assert_eq!(check_submission(&fee, &facts()), Admission::Direct);
    let bad = ShellFacts { pseudo_preflight: Ter::TEM_INVALID, ..facts() };
    assert_eq!(check_submission(&fee, &bad), Admission::Refused(Ter::TEM_INVALID));
    let mut calls = vec![];
    let settled = apply_submit_transactor_shell_impl(
        &fee,
        &facts(),
        ApplyFlags::none(),
        &run(Ter::TEC_KILLED),
        &mut calls,
    );
    assert_eq!(settled.result, Ter::TEC_KILLED);
    assert_eq!(calls, vec![ShellCall::Dispatch { pre_fee_balance: None }]);
}

#[test]
fn places_are_taken() {
    assert_eq!(submit_confine_owner_count(5, -1), 4);
    assert_eq!(submit_confine_owner_count(0, -1), 0);
    assert_eq!(submit_confine_owner_count(u32::MAX, 3), u32::MAX);
    let good = TicketRun { ticket: Read::Found(Present), unlisted: true, erased: true };
    let holder = AccountRoot { ticket_count: Some(1), ..root() };
    let proxy = SeqProxy::Ticket(7);
    let mut calls = vec![];
    let order = consume_seq_proxy(account(1), proxy, &holder, &good, &mut calls).unwrap();
    assert_eq!((order.sequence, order.ticket_count, order.owner_count), (None, None, 1));
    assert_eq!(
        calls,
        vec![
            ShellCall::UnlistTicket { account: account(1), proxy },
            ShellCall::EraseTicket { account: account(1), proxy },
        ]
    );
    let mut calls = vec![];
    let gone = TicketRun { ticket: Read::Missing, ..good };
    assert_eq!(
        consume_seq_proxy(account(1), proxy, &holder, &gone, &mut calls),
        Err(Ter::TEF_BAD_LEDGER)
    );
    assert!(calls.is_empty());
    let order =
        consume_seq_proxy(account(1), SeqProxy::Sequence(5), &holder, &gone, &mut calls).unwrap();
    assert_eq!((order.sequence, order.ticket_count), (Some(6), Some(1)));
    assert!(is_reserve_sufficient(200, 1, -1, 200));
    assert!(!is_reserve_sufficient(199, 1, 1, 200));
    assert!(!is_reserve_sufficient(200, 0, -1, 200));
}

#[test]
fn fees_are_taken() {
    let own = FeePayer::Own { balance: Some(30) };
    let paid = FeeCharge { charged: 10, result: Ter::TES_SUCCESS, balance_after: Some(20) };
    assert_eq!(charge_fee(own, Some(10), true), Ok(paid));
    assert_eq!(charge_fee(own, Some(31), true), Err(Ter::TER_INSUF_FEE_B));
    let part = FeeCharge { charged: 30, result: Ter::TEC_INSUFF_FEE, balance_after: Some(0) };
    assert_eq!(charge_fee(own, Some(31), false), Ok(part));
    let empty = FeePayer::Own { balance: Some(0) };
    assert_eq!(charge_fee(empty, Some(1), false), Err(Ter::TER_INSUF_FEE_B));
    let funds = SponsorFunds { funds: Some(30), max_fee: Some(20) };
    let sponsor = FeePayer::Prefunded(Read::Found(funds));
    let capped = FeeCharge { charged: 20, result: Ter::TEC_INSUFF_FEE, balance_after: Some(10) };
    assert_eq!(charge_fee(sponsor, Some(25), false), Ok(capped));
    assert_eq!(charge_fee(sponsor, Some(25), true), Err(Ter::TER_INSUF_FEE_B));
    let all = FeePayer::Prefunded(Read::Found(SponsorFunds { funds: Some(30), max_fee: None }));
    assert_eq!(charge_fee(all, Some(30), true).unwrap().balance_after, None);
    assert_eq!(charge_fee(FeePayer::Prefunded(Read::Missing), Some(1), true), Err(Ter::TEF_INTERNAL));
    let payer = PayerAccount { balance: 100, reserve: 95 };
    let signer = FeePayer::Other { account: Read::Found(payer), fee_sponsored: true };
    let kept = FeeCharge { charged: 5, result: Ter::TEC_INSUFF_FEE, balance_after: Some(95) };
    assert_eq!(charge_fee(signer, Some(10), false), Ok(kept));
    let plain = FeePayer::Other { account: Read::Found(payer), fee_sponsored: false };
    assert_eq!(charge_fee(plain, Some(10), true).unwrap().balance_after, Some(90));
    let failed = FeePayer::Other { account: Read::Failed, fee_sponsored: false };
    assert_eq!(charge_fee(failed, Some(1), true), Err(Ter::TEF_BAD_LEDGER));
}

#[test]
fn a_payment_is_applied() {
    let mut calls = vec![];
    let settled = apply_submit_transactor_shell_impl(
        &tx(TxType::PAYMENT),
        &facts(),
        ApplyFlags::none(),
        &run(Ter::TES_SUCCESS),
        &mut calls,
    );
    assert_eq!(settled, Settled { result: Ter::TES_SUCCESS, invariant_fee_reset: false });
    assert_eq!(
        calls,
        vec![
            change(990),
            ShellCall::DestroyXrp { drops: 10 },
            ShellCall::CapturePrefix,
            ShellCall::Open(Scope::Handler),
            ShellCall::Dispatch { pre_fee_balance: Some(1_000) },
            check(InvariantScope::Handler, Ter::TES_SUCCESS),
            ShellCall::Keep(Scope::Handler),
        ]
    );
}

#[test]
fn a_refused_transaction_asks_for_nothing() {
    let mut calls = vec![];
    let late = SubmitTx { last_ledger_sequence: Some(1), ..tx(TxType::PAYMENT) };
    let settled = apply_submit_transactor_shell_impl(
        &late,
        &facts(),
        ApplyFlags::none(),
        &run(Ter::TES_SUCCESS),
        &mut calls,
    );
    assert_eq!(settled.result, Ter::TEF_MAX_LEDGER);
    assert!(calls.is_empty());
}

#[test]
fn the_account_is_chained_and_the_payer_pays() {
    let chained = AccountRoot { account_txn_id: Some(id(3)), ..root() };
    let facts = ShellFacts { account_root: Read::Found(chained), ..facts() };
    let payment = SubmitTx { fee_payer: account(8), ..tx(TxType::PAYMENT) };
    let mut answers = run(Ter::TES_SUCCESS);
    answers.payer_account = Read::Found(PayerAccount { balance: 50, reserve: 20 });
    let mut calls = vec![];
    apply_submit_transactor_shell_impl(&payment, &facts, ApplyFlags::none(), &answers, &mut calls);
    assert_eq!(calls[0], ShellCall::UpdatePayer { account: account(8), balance: 40 });
    assert_eq!(calls[1], change(1_000));
    assert_eq!(calls[2], ShellCall::DestroyXrp { drops: 10 });
    assert_eq!(calls[3], ShellCall::CapturePrefix);
    assert_eq!(calls[4], ShellCall::Open(Scope::Handler));
    assert_eq!(calls[5], ShellCall::Chain { account: account(1), id: id(77) });
    answers.account_chained = false;
    let mut calls = vec![];
    let settled = apply_submit_transactor_shell_impl(
        &payment,
        &facts,
        ApplyFlags::none(),
        &answers,
        &mut calls,
    );
    assert_eq!(settled.result, Ter::TEF_BAD_LEDGER);
    assert_eq!(calls.len(), 6);
}

#[test]
fn a_claimed_fee_forgets_the_chain() {
    let chained = AccountRoot { account_txn_id: Some(id(3)), ..root() };
    let facts = ShellFacts { account_root: Read::Found(chained), ..facts() };
    let mut answers = run(Ter::TEC_PATH_DRY);
    answers.settle.reset_invariants = Ter::TEC_PATH_DRY;
    let mut calls = vec![];
    let settled = apply_submit_transactor_shell_impl(
        &tx(TxType::PAYMENT),
        &facts,
        ApplyFlags::none(),
        &answers,
        &mut calls,
    );
    assert_eq!(settled.result, Ter::TEC_PATH_DRY);
    assert_eq!(
        calls,
        vec![
            change(990),
            ShellCall::DestroyXrp { drops: 10 },
            ShellCall::CapturePrefix,
            ShellCall::Open(Scope::Handler),
            ShellCall::Chain { account: account(1), id: id(77) },
            ShellCall::Dispatch { pre_fee_balance: Some(1_000) },
            ShellCall::Drop(Scope::Handler),
            check(InvariantScope::Fee, Ter::TEC_PATH_DRY),
        ]
    );
}

#[test]
fn a_failed_handler_is_undone() {
    let mut calls = vec![];
    let settled = apply_submit_transactor_shell_impl(
        &tx(TxType::PAYMENT),
        &facts(),
        ApplyFlags::none(),
        &run(Ter::TEF_INTERNAL),
        &mut calls,
    );
    assert_eq!(settled.result, Ter::TEF_INTERNAL);
    assert_eq!(calls.last(), Some(&ShellCall::RestoreAccount { account: account(1) }));
    assert!(!calls.contains(&ShellCall::Keep(Scope::Handler)));
}

#[test]
fn a_broken_invariant_leaves_only_the_fee() {
    let mut answers = run(Ter::TES_SUCCESS);
    answers.settle.invariants = Ter::TEC_INVARIANT_FAILED;
    answers.settle.reset_invariants = Ter::TEC_INVARIANT_FAILED;
    let mut calls = vec![];
    let settled = apply_submit_transactor_shell_impl(
        &tx(TxType::PAYMENT),
        &facts(),
        ApplyFlags::none(),
        &answers,
        &mut calls,
    );
    assert_eq!(
        settled,
        Settled { result: Ter::TEC_INVARIANT_FAILED, invariant_fee_reset: true }
    );
    assert_eq!(calls.last(), Some(&check(InvariantScope::Fee, Ter::TEC_INVARIANT_FAILED)));
    let hard = ApplyFlags { fail_hard: true, ..ApplyFlags::none() };
    assert!(keeps_result(&settled, hard));
}

#[test]
fn entries_are_counted_once() {
    let both = transaction_item_count(&vec![id(1), id(3)], &vec![id(2), id(3), id(4)]);
    assert_eq!(both, 4);
    assert_eq!(transaction_item_count(&vec![], &vec![]), 0);
    assert!(!exceeds_oversize_metadata_cap(OVERSIZE_METADATA_CAP));
    assert!(exceeds_oversize_metadata_cap(OVERSIZE_METADATA_CAP + 1));
    assert_eq!(after_handler(Ter::TES_SUCCESS, 5_201), AfterHandler::Settle(Ter::TEC_OVERSIZE));
    assert_eq!(after_handler(Ter::TES_SUCCESS, 5_200), AfterHandler::CheckInvariants);
    assert_eq!(after_handler(Ter::TEM_INVALID, 1), AfterHandler::Restore(Ter::TEM_INVALID));
    assert_eq!(after_handler(Ter::TEC_KILLED, 1), AfterHandler::Settle(Ter::TEC_KILLED));
}

#[test]
fn the_first_claim_decides() {
    let good = Ter::TES_SUCCESS;
    let step = |fee, preclaim, offer, oracle| next_step(fee, preclaim, offer, oracle);
    assert_eq!(step(good, good, good, good), ApplyStep::Dispatch);
    assert_eq!(
        step(Ter::TEC_INSUFF_FEE, Ter::TEC_KILLED, good, good),
        ApplyStep::Settled(Ter::TEC_INSUFF_FEE)
    );
    assert_eq!(
        step(good, good, Ter::TEC_EXPIRED, Ter::TEC_NO_ENTRY),
        ApplyStep::Settled(Ter::TEC_EXPIRED)
    );
    assert_eq!(step(good, good, good, Ter::TEC_NO_ENTRY), ApplyStep::Settled(Ter::TEC_NO_ENTRY));
}

#[test]
fn settlements() {
    let none = ApplyFlags::none();
    assert_eq!(settlement(Ter::TEC_INVARIANT_FAILED, none), Settlement::Reset);
    assert_eq!(settlement(Ter::TES_SUCCESS, none), Settlement::Commit);
    assert_eq!(settlement(Ter::TEC_PATH_DRY, none), Settlement::Discard { recheck: true });
    assert_eq!(settlement(Ter::TER_QUEUED, none), Settlement::Discard { recheck: false });
    let hard = ApplyFlags { fail_hard: true, ..none };
    assert_eq!(settlement(Ter::TEC_KILLED, hard), Settlement::Discard { recheck: false });
    assert!(matches!(settlement(Ter::TEC_KILLED, none), Settlement::Cleanup(_)));
}

#[test]
fn plans_of_cleanups() {
    let none = ApplyFlags::none();
    let nothing =
        CleanupPlan { offers: false, trust_lines: false, nf_token_offers: false, credentials: false };
    assert_eq!(cleanup_plan(Ter::TES_SUCCESS, none), nothing);
    assert_eq!(cleanup_plan(Ter::TEC_KILLED, none), CleanupPlan { offers: true, ..nothing });
    assert_eq!(cleanup_plan(Ter::TEC_OVERSIZE, none), CleanupPlan { offers: true, ..nothing });
    assert_eq!(
        cleanup_plan(Ter::TEC_INCOMPLETE, none),
        CleanupPlan { trust_lines: true, ..nothing }
    );
    assert_eq!(
        cleanup_plan(Ter::TEC_EXPIRED, none),
        CleanupPlan { nf_token_offers: true, credentials: true, ..nothing }
    );
    let hard = ApplyFlags { fail_hard: true, ..none };
    assert_eq!(cleanup_plan(Ter::TEC_EXPIRED, hard), nothing);
    assert_eq!(
        preserved_offer(Ter::TEC_KILLED, TxType::OFFER_CREATE, Some(id(4))),
        Some(id(4))
    );
    assert_eq!(preserved_offer(Ter::TEC_OVERSIZE, TxType::OFFER_CREATE, Some(id(4))), None);
    assert!(removes_trust_lines(512));
    assert!(!removes_trust_lines(513));
}

fn erased(kind: ErasedKind, indexes: std::ops::Range<u128>) -> Vec<ErasedEntry> {
    indexes.map(|lo| ErasedEntry { index: id(lo), before: Read::Found(kind) }).collect()
}

#[test]
fn a_cleanup_removes_what_was_erased() {
    let offer = ErasedKind::Offer { taker_pays_kept: true };
    let plan = cleanup_plan(Ter::TEC_KILLED, ApplyFlags::none());
    let mut answers = nothing_erased();
    answers.erased = erased(offer, 1..4);
    answers.erased[1].before = Read::Found(ErasedKind::Offer { taker_pays_kept: false });
    answers.offers = vec![RemovalEvent::Removed(Ter::TES_SUCCESS); 3];
    let mut calls = vec![];
    assert!(!clean_up(&answers, plan, None, &mut calls));
    let remove = |lo| ShellCall::Remove { kind: RemovedKind::Offer, index: id(lo) };
    assert_eq!(calls, vec![remove(1), remove(3)]);
    let mut calls = vec![];
    assert!(!clean_up(&answers, plan, Some(id(1)), &mut calls));
    assert_eq!(calls, vec![remove(3)]);
    answers.offers[0] = RemovalEvent::Removed(Ter::TEC_INTERNAL);
    let mut calls = vec![];
    assert!(clean_up(&answers, plan, None, &mut calls));
    assert_eq!(calls, vec![remove(1)]);
    answers.erased[2].before = Read::Failed;
    let mut calls = vec![];
    assert!(clean_up(&answers, plan, None, &mut calls));
    assert!(calls.is_empty());
}

#[test]
fn a_cleanup_is_limited() {
    let offer = ErasedKind::Offer { taker_pays_kept: true };
    let plan = cleanup_plan(Ter::TEC_OVERSIZE, ApplyFlags::none());
    let mut answers = nothing_erased();
    answers.erased = erased(offer, 1..1_101);
    answers.offers = vec![RemovalEvent::Removed(Ter::TES_SUCCESS); 1_100];
    let mut calls = vec![];
    assert!(!clean_up(&answers, plan, None, &mut calls));
    assert_eq!(calls.len(), UNFUNDED_OFFER_REMOVE_LIMIT);
    let plan = cleanup_plan(Ter::TEC_EXPIRED, ApplyFlags::none());
    let mut answers = nothing_erased();
    answers.erased = erased(ErasedKind::NFTokenOffer, 1..301);
    answers.nf_token_offers = vec![RemovalEvent::Removed(Ter::TES_SUCCESS); 300];
    let mut calls = vec![];
    assert!(!clean_up(&answers, plan, None, &mut calls));
    assert_eq!(calls.len(), EXPIRED_OFFER_REMOVE_LIMIT);
    let plan = cleanup_plan(Ter::TEC_INCOMPLETE, ApplyFlags::none());
    let mut answers = nothing_erased();
    answers.erased = erased(ErasedKind::RippleState, 1..514);
    answers.trust_lines = vec![RemovalEvent::Removed(Ter::TES_SUCCESS); 513];
    let mut calls = vec![];
    clean_up(&answers, plan, None, &mut calls);
    assert!(calls.is_empty());
}

#[test]
fn a_killed_offer_is_cleaned_up_after() {
    let mut answers = run(Ter::TEC_KILLED);
    answers.settle.cleanup.erased = erased(ErasedKind::Offer { taker_pays_kept: true }, 5..6);
    answers.settle.cleanup.offers = vec![RemovalEvent::Removed(Ter::TES_SUCCESS)];
    let mut calls = vec![];
    let settled = apply_submit_transactor_shell_impl(
        &tx(TxType::OFFER_CREATE),
        &facts(),
        ApplyFlags::none(),
        &answers,
        &mut calls,
    );
    assert_eq!(settled.result, Ter::TEC_KILLED);
    assert_eq!(
        calls[5..].to_vec(),
        vec![
            ShellCall::Drop(Scope::Handler),
            ShellCall::Open(Scope::Cleanup),
            ShellCall::Remove { kind: RemovedKind::Offer, index: id(5) },
            check(InvariantScope::Cleanup, Ter::TEC_KILLED),
            ShellCall::Keep(Scope::Cleanup),
        ]
    );
    let retry = ApplyFlags { retry: true, ..ApplyFlags::none() };
    assert!(keeps_result(&settled, retry));
}

#[test]
fn what_is_kept() {
    let settled = |result| Settled { result, invariant_fee_reset: false };
    let none = ApplyFlags::none();
    let retry = ApplyFlags { retry: true, ..none };
    let hard = ApplyFlags { fail_hard: true, ..none };
    assert!(keeps_result(&settled(Ter::TES_SUCCESS), none));
    assert!(keeps_result(&settled(Ter::TEC_PATH_DRY), none));
    assert!(!keeps_result(&settled(Ter::TEC_PATH_DRY), retry));
    assert!(!keeps_result(&settled(Ter::TEC_PATH_DRY), hard));
    assert!(!keeps_result(&settled(Ter::TER_QUEUED), none));
}

#[test]
fn doors() {
    let inner = SubmitTx { inner_batch: true, ..tx(TxType::PAYMENT) };
    let good = Ter::TES_SUCCESS;
    assert_eq!(submit_gate(&inner, good, good, good), Err(Ter::TEM_INVALID_INNER_BATCH));
    let batch = tx(TxType::BATCH);
    assert_eq!(submit_gate(&batch, good, Ter::TEM_INVALID, good), Err(Ter::TEM_INVALID));
    assert_eq!(submit_gate(&batch, Ter::TEC_KILLED, good, good), Ok(Ter::TEC_KILLED));
    assert_eq!(
        submit_gate(&batch, good, good, Ter::TEC_INSUFF_FEE),
        Ok(Ter::TEC_INSUFF_FEE)
    );
    assert_eq!(submit_gate(&batch, good, good, Ter::TEF_ALREADY), Err(Ter::TEF_ALREADY));
    assert_eq!(admission_result(Ter::TEM_INVALID, good), Ter::TEM_INVALID);
    assert_eq!(admission_result(good, Ter::TER_QUEUED), Ter::TER_QUEUED);
    assert!(captures_delivered_amount(TxType::CHECK_CASH));
    assert!(!captures_delivered_amount(TxType::OFFER_CREATE));
}

#[test]
fn outcomes_of_single_transactions() {
    let mut calls = vec![];
    let payment = tx(TxType::PAYMENT);
    let good = run(Ter::TES_SUCCESS);
    let outcome = apply_submit_transactor_shell_with_flags_batch_outcome_and_preclaim(
        &payment,
        &facts(),
        ApplyFlags::none(),
        &good,
        &outer(),
        &mut calls,
    );
    assert!(outcome.applied && !outcome.prebuilt_outer_metadata);
    assert_eq!(outcome.delivered_amount, Some(9));
    assert_eq!(
        calls[..2].to_vec(),
        vec![ShellCall::Open(Scope::Whole), ShellCall::Open(Scope::Transaction)]
    );
    assert_eq!(
        calls[9..].to_vec(),
        vec![ShellCall::Keep(Scope::Transaction), ShellCall::Keep(Scope::Whole)]
    );
    let mut calls = vec![];
    assert_eq!(
        apply_submit_transactor_shell_with_delivered_amount(
            &payment,
            &facts(),
            &good,
            &outer(),
            &mut calls
        ),
        (Ter::TES_SUCCESS, Some(9))
    );
    let lost = OuterRun { whole_kept: false, ..outer() };
    let mut calls = vec![];
    assert_eq!(
        apply_submit_transactor_shell(&payment, &facts(), &good, &lost, &mut calls),
        Ter::TEF_INTERNAL
    );
    let dry = run(Ter::TEC_PATH_DRY);
    let retry = ApplyFlags { retry: true, ..ApplyFlags::none() };
    let mut calls = vec![];
    assert_eq!(
        apply_submit_transactor_shell_with_flags(
            &payment,
            &facts(),
            retry,
            &dry,
            &outer(),
            &mut calls
        ),
        Ter::TEC_PATH_DRY
    );
    assert!(!calls.contains(&ShellCall::Keep(Scope::Transaction)));
}

#[test]
fn a_panic_applies_nothing() {
    let panicked = OuterRun { panicked: Some(5), ..outer() };
    let mut calls = vec![ShellCall::CapturePrefix];
    let outcome = apply_submit_transactor_shell_with_flags_batch_outcome_and_preclaim(
        &tx(TxType::PAYMENT),
        &facts(),
        ApplyFlags::none(),
        &run(Ter::TES_SUCCESS),
        &panicked,
        &mut calls,
    );
    assert_eq!(outcome.result, Ter::TEF_EXCEPTION);
    assert!(!outcome.applied && outcome.delivered_amount.is_none());
    assert_eq!(calls.len(), 8);
    assert_eq!(calls[7], ShellCall::Dispatch { pre_fee_balance: Some(1_000) });
}

#[test]
fn a_simulation_is_not_applied() {
    let mut calls = vec![];
    let outcome = apply_submit_transactor_shell_with_flags_batch_outcome_and_preclaim(
        &tx(TxType::PAYMENT),
        &facts(),
        ApplyFlags::dry_run(),
        &run(Ter::TES_SUCCESS),
        &outer(),
        &mut calls,
    );
    assert_eq!(outcome.result, Ter::TES_SUCCESS);
    assert!(!outcome.applied);
    let mut calls = vec![];
    let simulated = apply_simulated_transaction(
        &tx(TxType::PAYMENT),
        Ter::TES_SUCCESS,
        &facts(),
        &run(Ter::TES_SUCCESS),
        &outer(),
        &mut calls,
    );
    assert_eq!(simulated, (Ter::TES_SUCCESS, Some(9)));
}

fn inner(handler: Ter) -> InnerTx {
    InnerTx {
        tx: SubmitTx {
            id: id(100),
            inner_batch: true,
            fee: Some(FeeField { native: true, drops: 0 }),
            ..tx(TxType::PAYMENT)
        },
        preflight: Ter::TES_SUCCESS,
        preclaim: Ter::TES_SUCCESS,
        facts: facts(),
        run: run(handler),
        panicked: None,
        delivered: Some(4),
        described: true,
        committed: true,
    }
}

fn stays(lo: u128, result: Ter) -> AppliedBatchInnerTransaction {
    AppliedBatchInnerTransaction { transaction_id: id(lo), result }
}

fn followup(
    handlers: Vec<Ter>,
    mode: BatchMode,
) -> (Ter, Vec<AppliedBatchInnerTransaction>, Vec<ShellCall>) {
    let mut inside: Vec<InnerTx> = handlers.into_iter().map(inner).collect();
    for (place, inner) in inside.iter_mut().enumerate() {
        inner.tx.id = id(100 + place as u128);
    }
    let batch = BatchRun { inner: Ok(inside), mode, whole_committed: true };
    let mut calls = vec![];
    let outcome = apply_submit_batch_followup(&batch, BatchApplyDestination::Closed, &mut calls);
    (outcome.result, outcome.applied_inner_transactions, calls)
}

#[test]
fn batches_keep_what_their_mode_allows() {
    let good = Ter::TES_SUCCESS;
    let bad = Ter::TEC_PATH_DRY;
    let independent = followup(vec![good, bad, good], mode());
    let each = vec![stays(100, good), stays(101, bad), stays(102, good)];
    assert_eq!((independent.0, independent.1), (good, each));
    let all = BatchMode { all_or_nothing: true, ..mode() };
    let nothing = followup(vec![good, bad, good], all);
    assert_eq!((nothing.0, nothing.1), (good, vec![]));
    let everything = followup(vec![good, good], all);
    assert_eq!(everything.1, vec![stays(100, good), stays(101, good)]);
    assert_eq!(everything.2.last(), Some(&ShellCall::Keep(Scope::Batch)));
    let one = followup(vec![bad, good, good], BatchMode { only_one: true, ..mode() });
    assert_eq!(one.1, vec![stays(100, bad), stays(101, good)]);
    let until = followup(vec![good, bad, good], BatchMode { until_failure: true, ..mode() });
    assert_eq!(until.1, vec![stays(100, good), stays(101, bad)]);
}

#[test]
fn the_inside_of_a_batch_asks_in_order() {
    let (_, _, calls) = followup(vec![Ter::TES_SUCCESS], mode());
    assert_eq!(calls[0], ShellCall::Open(Scope::Batch));
    assert_eq!(calls[1], ShellCall::Open(Scope::Inner(0)));
    assert_eq!(
        calls[calls.len() - 3..].to_vec(),
        vec![
            ShellCall::Describe { inner: Some(0), delivered: Some(4) },
            ShellCall::Keep(Scope::Inner(0)),
            ShellCall::Keep(Scope::Batch),
        ]
    );
    assert!(!calls.contains(&ShellCall::DestroyXrp { drops: 0 }));
    let dry = inner_flags(BatchApplyDestination::DryRun);
    assert!(dry.batch && dry.dry_run);
    assert_eq!(
        BatchApplyDestination::for_view(true, ApplyFlags::dry_run()),
        BatchApplyDestination::DryRun
    );
    assert_eq!(
        BatchApplyDestination::for_view(true, ApplyFlags::none()),
        BatchApplyDestination::Open
    );
    assert!(!BatchApplyDestination::Open.builds_metadata());
}

#[test]
fn a_broken_ledger_stops_a_batch() {
    let broken = InnerRun { result: Ter::TES_SUCCESS, described: true, committed: false };
    assert_eq!(
        followup_step(&broken, mode(), BatchApplyDestination::Open),
        BatchProgress::Failed
    );
    let unwritten = InnerRun { result: Ter::TES_SUCCESS, described: false, committed: true };
    assert_eq!(
        followup_step(&unwritten, mode(), BatchApplyDestination::Closed),
        BatchProgress::Failed
    );
    assert_eq!(
        followup_step(&unwritten, mode(), BatchApplyDestination::Open),
        BatchProgress::Running
    );
    let mut calls = vec![];
    let unreadable = BatchRun { inner: Err(Ter::TEM_INVALID), mode: mode(), whole_committed: true };
    let outcome =
        apply_submit_batch_followup(&unreadable, BatchApplyDestination::Closed, &mut calls);
    assert_eq!(outcome.result, Ter::TEM_INVALID);
    assert_eq!(calls, vec![ShellCall::Open(Scope::Batch)]);
    let mut panicking = inner(Ter::TES_SUCCESS);
    panicking.panicked = Some(1);
    let batch = BatchRun {
        inner: Ok(vec![panicking]),
        mode: BatchMode { all_or_nothing: true, ..mode() },
        whole_committed: true,
    };
    let outcome = apply_submit_batch_followup(&batch, BatchApplyDestination::Closed, &mut calls);
    assert_eq!(outcome.result, Ter::TES_SUCCESS);
    assert!(outcome.applied_inner_transactions.is_empty());
    assert_eq!(calls.len(), 4);
}

#[test]
fn a_batch_goes_into_a_closed_ledger() {
    let batch = OuterRun {
        batch: BatchRun {
            inner: Ok(vec![inner(Ter::TES_SUCCESS)]),
            mode: mode(),
            whole_committed: true,
        },
        ..outer()
    };
    let mut calls = vec![];
    let outcome = apply_submit_transactor_shell_with_flags_batch_outcome_and_preclaim(
        &tx(TxType::BATCH),
        &facts(),
        ApplyFlags::none(),
        &run(Ter::TES_SUCCESS),
        &batch,
        &mut calls,
    );
    assert!(outcome.applied && outcome.prebuilt_outer_metadata);
    assert_eq!(outcome.applied_batch_inner_transactions, vec![stays(100, Ter::TES_SUCCESS)]);
    assert_eq!(calls.last(), Some(&ShellCall::Keep(Scope::Whole)));
    let open = ShellFacts { open: true, ..facts() };
    let mut calls = vec![];
    let outcome = apply_submit_transactor_shell_with_flags_batch_outcome_and_preclaim(
        &tx(TxType::BATCH),
        &open,
        ApplyFlags::none(),
        &run(Ter::TES_SUCCESS),
        &batch,
        &mut calls,
    );
    assert!(outcome.applied && !outcome.prebuilt_outer_metadata);
    assert!(outcome.applied_batch_inner_transactions.is_empty());
}
