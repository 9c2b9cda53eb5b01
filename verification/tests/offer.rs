use xrpld_app::amount::{
    Amount, AmountError, Asset, Currency, ST_AMOUNT_MAX_MANTISSA, ST_AMOUNT_MAX_NATIVE,
    ST_AMOUNT_MAX_OFFSET,
};
use xrpld_app::ids::{AccountID, Uint256, ViewError, MPTID};
use xrpld_app::mpt::entry::MAX_MP_TOKEN_AMOUNT;
use xrpld_app::offer::calls::{OfferCall, OfferCrossing};
use xrpld_app::offer::create::{do_offer_create, OfferAccount, OfferRun, OfferTx};
use xrpld_app::offer::cross::{amount_or_exception, CrossRun};
use xrpld_app::offer::directory::{set_book_directory_fields, BookSide};
use xrpld_app::offer::dispatch::{offer_delete_pub, preclaim_offer_create};
use xrpld_app::offer::funds::{
    crossing_account_funds, gateway_adjusted_send_max, gateway_rate, sell_cross_deliver_limit,
    FundsReads, LineFreezes, TokenIssuance, PARITY_RATE,
};
use xrpld_app::offer::mode::{
    OfferMode, LSF_HYBRID, LSF_PASSIVE, LSF_SELL, TF_FILL_OR_KILL, TF_HYBRID,
    TF_IMMEDIATE_OR_CANCEL, TF_PASSIVE, TF_SELL,
};
use xrpld_app::offer::quality::{get_rate, get_tick_size, rate_is_zero, round_quality};
use xrpld_app::submit::flags::{Present, Read};
use xrpld_app::ter::Ter;

fn account(byte: u8) -> AccountID {
    AccountID { hi: u32::from_be_bytes([byte; 4]), lo: u128::from_be_bytes([byte; 16]) }
}

fn usd() -> Currency {
    Currency { hi: 0, lo: 0x5553_4400_0000_0000_0000 }
}

fn drops(value: i64) -> Amount {
    Amount::from_integer(Asset::Xrp, value)
}

fn issued(issuer: AccountID, mantissa: u64, exponent: i32) -> Amount {
    Amount { asset: Asset::Issue { currency: usd(), issuer }, negative: false, mantissa, exponent }
}

fn funds() -> FundsReads {
    FundsReads {
        liquid: Some(1_000_000),
        issuer: Read::Found(false),
        line: Read::Found(LineFreezes { low: false, high: false, low_deep: false, high_deep: false }),
        held: Some(issued(account(2), 5_000_000_000_000_000, -13)),
        issuance: Read::Missing,
        token_frozen: Some(false),
        token_authorization: Some(Ter::TES_SUCCESS),
        token: Read::Missing,
    }
}

/// An offer of 500 issued by account 2 for 100 drops, by account 1.
fn offer() -> OfferTx {
    OfferTx {
        account: account(1),
        sequence: 7,
        taker_pays: drops(100),
        taker_gets: issued(account(2), 5_000_000_000_000_000, -13),
        flags: 0,
        domain: None,
        offer_sequence: None,
        expiration: None,
    }
}

fn run() -> OfferRun {
    let rate = Amount { asset: Asset::Xrp, negative: false, mantissa: 2_000_000_000_000_000, exponent: -16 };
    OfferRun {
        pre_fee_balance: Some(1_000_000),
        permissioned_dex: true,
        fix_cleanup_3_2_0: true,
        close_time: 100,
        direct_preclaim: Ter::TES_SUCCESS,
        replaced: Read::Missing,
        replaced_delete: Ter::TES_SUCCESS,
        pays_issuer_tick: Read::Missing,
        gets_issuer_tick: Read::Missing,
        quotient: Ok(rate),
        rate_amount_is_zero: false,
        pays_at_rounded_rate: Ok(drops(99)),
        gets_at_rounded_rate: Ok(issued(account(2), 4_900_000_000_000_000, -13)),
        cross: CrossRun {
            funds: funds(),
            transfer_rate: Some(PARITY_RATE),
            gets_with_fee: issued(account(2), 5_025_000_000_000_000, -13),
            send_max_exceeds_funds: false,
            strands: Ter::TES_SUCCESS,
            cancellations: Ter::TES_SUCCESS,
            flow: Ter::TES_SUCCESS,
            actual_in: issued(account(2), 0, -100),
            actual_out: drops(0),
            funds_after: funds(),
            in_without_fee: Ok(issued(account(2), 1_000_000_000_000_000, -13)),
            gets_less_in: issued(account(2), 4_000_000_000_000_000, -13),
            pays_for_rest: drops(80),
            pays_less_out: drops(60),
            gets_for_rest: issued(account(2), 3_000_000_000_000_000, -13),
        },
        account_root: Read::Found(OfferAccount { balance: 1_000_000, reserve: 10 }),
        owner_page: Some(3),
        owner_counted: true,
        placed_quotient: Ok(rate),
        book_page: Some(5),
        rest_quotient: Ok(rate),
        open_book_page: Some(6),
        inserted: true,
    }
}

fn inserts(calls: &[OfferCall]) -> usize {
    calls.iter().filter(|call| matches!(call, OfferCall::Insert(_))).count()
}

#[test]
fn offer_create_amount_error_maps_to_tef_exception_without_unwinding() {
    assert_eq!(amount_or_exception(Err(AmountError)), Err(Ter::TEF_EXCEPTION));
}

#[test]
fn quality_to_rate_amount_underflow_is_zero() {
    assert!(rate_is_zero(0, false));
    // An encoded exponent of zero is -100, below what an issued amount can have.
    assert!(rate_is_zero(1_000_000_000_000_000, false));
}

#[test]
fn other_rates_are_zero_where_their_amount_is() {
    assert!(rate_is_zero((3 << 56) | 9_999_999_999_999_999, true));
    assert!(!rate_is_zero(0x5406_f49b_d58a_9000, false));
}

#[test]
fn sell_crossing_uses_asset_specific_bounded_maximum_delivery() {
    let xrp = drops(1);
    assert_eq!(sell_cross_deliver_limit(&xrp).mantissa, ST_AMOUNT_MAX_NATIVE);
    assert!(!sell_cross_deliver_limit(&xrp).is_legal_net());

    let iou = issued(account(0x66), 1_000_000_000_000_000, -15);
    let iou_limit = sell_cross_deliver_limit(&iou);
    assert_eq!(iou_limit.mantissa, ST_AMOUNT_MAX_MANTISSA / 2);
    assert_eq!(iou_limit.exponent, ST_AMOUNT_MAX_OFFSET);

    let id = MPTID { sequence: 0x7777_7777, issuer: account(0x77) };
    let mpt = Amount::from_integer(Asset::Mpt(id), 1);
    assert_eq!(sell_cross_deliver_limit(&mpt).mantissa, MAX_MP_TOKEN_AMOUNT / 2);
}

#[test]
fn open_book_directory_metadata_can_keep_original_exchange_rate() {
    let issuer = account(0x55);
    let taker_pays = issued(issuer, 1_000_000_000_000_000, -13);
    let taker_gets = drops(250);

    let dir = set_book_directory_fields(&taker_pays, &taker_gets, 42, None);

    assert_eq!(dir.exchange_rate, 42);
    assert!(dir.domain.is_none());
    assert_eq!(dir.taker_pays, BookSide::Currency { currency: usd(), issuer });
    assert_eq!(
        dir.taker_gets,
        BookSide::Currency { currency: Currency { hi: 0, lo: 0 }, issuer: AccountID::zero() }
    );
}

#[test]
fn gateway_transfer_rate_enters_the_threshold_of_the_trade() {
    // 500 of an issuer that takes half a percent: 502.5 is the most that is sent.
    let with_fee = issued(account(2), 5_025_000_000_000_000, -13);
    let tx = offer();
    assert_eq!(gateway_adjusted_send_max(&tx.taker_gets, 1_005_000_000, with_fee), with_fee);
    assert_eq!(gateway_adjusted_send_max(&tx.taker_gets, PARITY_RATE, with_fee), tx.taker_gets);
    assert_eq!(gateway_adjusted_send_max(&drops(5), 1_005_000_000, with_fee), drops(5));

    let mut answers = run();
    answers.cross.transfer_rate = Some(1_005_000_000);
    let outcome = do_offer_create(&tx, &answers);
    let mut seen = false;
    for call in outcome.calls.iter() {
        if let OfferCall::Trade(trade) = call {
            seen = true;
            assert_eq!(trade.threshold.input, with_fee);
            assert_eq!(trade.threshold.output, drops(100));
            assert_eq!(trade.send_max, with_fee);
        }
    }
    assert!(seen);
    assert_eq!(
        outcome.calls[0],
        OfferCall::AddFee { amount: tx.taker_gets, fee_rate: 1_005_000_000 }
    );
}

#[test]
fn canonical_tick_size_rate_keeps_five_digits() {
    // 50000 for 255395 is 0.19577517179271325, rounded up to five digits.
    let gets = issued(account(0xB7), 2_553_950_000_000_000, -10);
    let quotient = Amount {
        asset: Asset::Xrp,
        negative: false,
        mantissa: 1_957_751_717_927_132,
        exponent: -16,
    };
    let rate = get_rate(&gets, Ok(quotient)).unwrap();
    assert_eq!(rate >> 56, 84);
    assert_eq!(round_quality(rate, 5), 0x5406_f49b_d58a_9000);
}

#[test]
fn rounding_twice_is_rounding_once() {
    let once = round_quality((84 << 56) | 1_957_751_717_927_132, 5);
    assert_eq!(round_quality(once, 5), once);
    assert_eq!(round_quality(7, 16), 7);
    assert_eq!(round_quality(0, 3), 0);
    assert_eq!(round_quality((84 << 56) | 1_000_000_000_000_001, 16), (84 << 56) | 1_000_000_000_000_001);
}

#[test]
fn better_rates_have_smaller_words() {
    let gets = drops(1);
    let small = Amount { asset: Asset::Xrp, negative: false, mantissa: 2_000_000_000_000_000, exponent: -16 };
    let large = Amount { exponent: -15, mantissa: 1_000_000_000_000_000, ..small };
    assert!(get_rate(&gets, Ok(small)).unwrap() < get_rate(&gets, Ok(large)).unwrap());
    assert_eq!(get_rate(&drops(0), Ok(small)), Ok(0));
    assert_eq!(get_rate(&gets, Ok(drops(0))), Ok(0));
    assert_eq!(get_rate(&gets, Err(AmountError)), Err(Ter::TEF_EXCEPTION));
    assert_eq!(get_rate(&gets, Ok(Amount { exponent: 156, ..small })), Ok(0));
}

#[test]
fn the_smaller_tick_counts() {
    let pays = issued(account(3), 1_000_000_000_000_000, -15);
    let gets = issued(account(2), 1_000_000_000_000_000, -15);
    assert_eq!(get_tick_size(&pays, &gets, Read::Found(Some(5)), Read::Found(Some(3))), Ok(3));
    assert_eq!(get_tick_size(&pays, &gets, Read::Found(None), Read::Missing), Ok(16));
    assert_eq!(get_tick_size(&pays, &gets, Read::Missing, Read::Failed), Err(Ter::TEF_BAD_LEDGER));
    assert_eq!(get_tick_size(&drops(1), &gets, Read::Failed, Read::Found(Some(9))), Ok(9));
}

#[test]
fn flags_make_the_mode() {
    let mode = OfferMode::from_flags(TF_PASSIVE | TF_SELL | TF_HYBRID);
    assert!(mode.passive && mode.sell && mode.hybrid);
    assert!(!mode.fill_or_kill && !mode.immediate_or_cancel);
    assert_eq!(mode.ledger_flags(), LSF_PASSIVE | LSF_SELL | LSF_HYBRID);
    assert_eq!(OfferMode::from_flags(TF_FILL_OR_KILL | TF_IMMEDIATE_OR_CANCEL).ledger_flags(), 0);
}

#[test]
fn an_untouched_offer_is_placed_whole() {
    let tx = offer();
    let outcome = do_offer_create(&tx, &run());
    assert_eq!(outcome.result, Ter::TES_SUCCESS);
    match outcome.calls.last() {
        Some(OfferCall::Insert(entry)) => {
            assert_eq!(entry.account, account(1));
            assert_eq!(entry.sequence, 7);
            assert_eq!(entry.taker_pays, tx.taker_pays);
            assert_eq!(entry.taker_gets, tx.taker_gets);
            assert_eq!(entry.owner_page, 3);
            assert_eq!(entry.book_page, 5);
            assert_eq!(entry.rate, (84 << 56) | 2_000_000_000_000_000);
            assert!(entry.open_book.is_none());
        }
        _ => panic!("the offer was not placed"),
    }
    assert_eq!(outcome.calls.len(), 9);
}

#[test]
fn a_crossed_offer_leaves_its_rest() {
    let tx = offer();
    let mut answers = run();
    answers.cross.actual_in = issued(account(2), 2_000_000_000_000_000, -13);
    answers.cross.actual_out = drops(40);
    let outcome = do_offer_create(&tx, &answers);
    assert_eq!(outcome.result, Ter::TES_SUCCESS);
    assert!(outcome.calls.contains(&OfferCall::Subtract { from: drops(100), amount: drops(40) }));
    match outcome.calls.last() {
        Some(OfferCall::Insert(entry)) => {
            assert_eq!(entry.taker_pays, drops(60));
            assert_eq!(entry.taker_gets.mantissa, 3_000_000_000_000_000);
        }
        _ => panic!("the rest was not placed"),
    }
}

#[test]
fn a_selling_offer_is_used_up_by_what_it_gave() {
    let mut tx = offer();
    tx.flags = TF_SELL;
    let mut answers = run();
    answers.cross.transfer_rate = Some(1_005_000_000);
    answers.cross.actual_in = issued(account(2), 1_005_000_000_000_000, -13);
    answers.cross.actual_out = drops(40);
    let outcome = do_offer_create(&tx, &answers);
    let taken = issued(account(2), 1_000_000_000_000_000, -13);
    assert!(outcome.calls.contains(&OfferCall::Subtract { from: tx.taker_gets, amount: taken }));
    let mut deliver = drops(0);
    for call in outcome.calls.iter() {
        if let OfferCall::Trade(trade) = call {
            deliver = trade.deliver;
            assert_eq!(trade.crossing, OfferCrossing::Sell);
        }
    }
    assert_eq!(deliver.mantissa, ST_AMOUNT_MAX_NATIVE);
    answers.cross.in_without_fee = Err(AmountError);
    assert_eq!(do_offer_create(&tx, &answers).result, Ter::TEF_EXCEPTION);
}

#[test]
fn negative_rests_count_as_nothing() {
    let tx = offer();
    let mut answers = run();
    answers.cross.actual_out = drops(120);
    answers.cross.pays_less_out = drops(-20);
    let outcome = do_offer_create(&tx, &answers);
    assert_eq!(outcome.result, Ter::TES_SUCCESS);
    assert_eq!(inserts(&outcome.calls), 0);
}

#[test]
fn immediate_offers_never_stand_in_a_book() {
    let mut tx = offer();
    tx.flags = TF_IMMEDIATE_OR_CANCEL;
    let outcome = do_offer_create(&tx, &run());
    assert_eq!(outcome.result, Ter::TEC_KILLED);
    assert_eq!(inserts(&outcome.calls), 0);
    let mut answers = run();
    answers.cross.actual_out = drops(40);
    assert_eq!(do_offer_create(&tx, &answers).result, Ter::TES_SUCCESS);
    tx.flags = TF_FILL_OR_KILL;
    let outcome = do_offer_create(&tx, &answers);
    assert_eq!(outcome.result, Ter::TEC_KILLED);
    assert_eq!(inserts(&outcome.calls), 0);
    assert!(outcome.calls.iter().any(|call| matches!(call, OfferCall::Trade(trade) if !trade.partial)));
}

#[test]
fn expired_offers_take_back_but_do_not_trade() {
    let mut tx = offer();
    tx.expiration = Some(100);
    tx.offer_sequence = Some(4);
    let mut answers = run();
    answers.replaced = Read::Found(Present);
    let outcome = do_offer_create(&tx, &answers);
    assert_eq!(outcome.result, Ter::TEC_EXPIRED);
    assert_eq!(outcome.calls, vec![OfferCall::Delete { sequence: 4 }]);
    tx.expiration = Some(101);
    assert_eq!(do_offer_create(&tx, &answers).result, Ter::TES_SUCCESS);
    answers.replaced_delete = Ter::TEF_BAD_LEDGER;
    assert_eq!(do_offer_create(&tx, &answers).result, Ter::TEF_BAD_LEDGER);
    answers.replaced = Read::Failed;
    assert_eq!(do_offer_create(&tx, &answers).result, Ter::TEF_BAD_LEDGER);
}

#[test]
fn bad_offers_are_refused() {
    let mut tx = offer();
    tx.taker_gets = drops(5);
    assert_eq!(do_offer_create(&tx, &run()).result, Ter::TEM_BAD_OFFER);
    tx = offer();
    tx.taker_pays = tx.taker_gets;
    assert_eq!(do_offer_create(&tx, &run()).result, Ter::TEM_BAD_OFFER);
    tx = offer();
    tx.taker_pays = drops(0);
    assert_eq!(do_offer_create(&tx, &run()).result, Ter::TEM_BAD_OFFER);
    tx = offer();
    tx.flags = TF_HYBRID;
    assert_eq!(do_offer_create(&tx, &run()).result, Ter::TEM_INVALID_FLAG);
    tx.domain = Some(Uint256 { hi: 1, lo: 1 });
    let mut answers = run();
    answers.permissioned_dex = false;
    assert_eq!(do_offer_create(&tx, &answers).result, Ter::TEM_DISABLED);
    answers = run();
    answers.pre_fee_balance = None;
    answers.direct_preclaim = Ter::TEC_EXPIRED;
    let outcome = do_offer_create(&offer(), &answers);
    assert_eq!(outcome.result, Ter::TEC_EXPIRED);
    assert_eq!(outcome.calls, vec![OfferCall::Preclaim]);
}

#[test]
fn hybrid_offers_stand_in_both_books() {
    let mut tx = offer();
    tx.flags = TF_HYBRID;
    tx.domain = Some(Uint256 { hi: 1, lo: 1 });
    let outcome = do_offer_create(&tx, &run());
    match outcome.calls.last() {
        Some(OfferCall::Insert(entry)) => {
            let open = entry.open_book.unwrap();
            assert_eq!(open.page, 6);
            assert_eq!(open.rate, entry.rate);
            assert_eq!(entry.flags, LSF_HYBRID);
        }
        _ => panic!("the offer was not placed"),
    }
    let pages = outcome.calls.iter().filter(|call| matches!(call, OfferCall::BookPage { .. })).count();
    assert_eq!(pages, 2);
    let mut answers = run();
    answers.open_book_page = None;
    assert_eq!(do_offer_create(&tx, &answers).result, Ter::TEC_DIR_FULL);
    answers = run();
    answers.fix_cleanup_3_2_0 = false;
    answers.rest_quotient = Err(AmountError);
    assert_eq!(do_offer_create(&tx, &answers).result, Ter::TEF_EXCEPTION);
}

#[test]
fn ticks_reprice_the_offer() {
    let mut tx = offer();
    let mut answers = run();
    answers.gets_issuer_tick = Read::Found(Some(5));
    let outcome = do_offer_create(&tx, &answers);
    let rate = (84 << 56) | 2_000_000_000_000_000;
    assert_eq!(outcome.calls[1], OfferCall::RateAmount { rate });
    assert_eq!(
        outcome.calls[2],
        OfferCall::Divide { amount: tx.taker_pays, rate, asset: tx.taker_gets.asset }
    );
    tx.flags = TF_SELL;
    let outcome = do_offer_create(&tx, &answers);
    assert_eq!(
        outcome.calls[2],
        OfferCall::Multiply { amount: tx.taker_gets, rate, asset: tx.taker_pays.asset }
    );
    answers.pays_at_rounded_rate = Ok(drops(0));
    let outcome = do_offer_create(&tx, &answers);
    assert_eq!(outcome.result, Ter::TES_SUCCESS);
    assert_eq!(outcome.calls.len(), 3);
    tx.flags = 0;
    answers.rate_amount_is_zero = true;
    let outcome = do_offer_create(&tx, &answers);
    assert_eq!(outcome.result, Ter::TEF_EXCEPTION);
    assert_eq!(outcome.calls.len(), 2);
    answers.rate_amount_is_zero = false;
    answers.quotient = Ok(drops(0));
    assert_eq!(do_offer_create(&tx, &answers).result, Ter::TEF_EXCEPTION);
    answers.gets_issuer_tick = Read::Failed;
    assert_eq!(do_offer_create(&tx, &answers).result, Ter::TEF_BAD_LEDGER);
}

#[test]
fn failures_on_the_way_end_the_offer() {
    let tx = offer();
    let mut answers = run();
    answers.cross.cancellations = Ter::TEF_BAD_LEDGER;
    assert_eq!(do_offer_create(&tx, &answers).result, Ter::TEF_BAD_LEDGER);
    answers = run();
    answers.cross.transfer_rate = None;
    assert_eq!(do_offer_create(&tx, &answers).result, Ter::TEF_BAD_LEDGER);
    answers = run();
    answers.cross.funds.held = Some(issued(account(2), 0, -100));
    assert_eq!(do_offer_create(&tx, &answers).result, Ter::TEC_UNFUNDED_OFFER);
    answers = run();
    answers.cross.flow = Ter::TEC_PATH_DRY;
    assert_eq!(inserts(&do_offer_create(&tx, &answers).calls), 1);
    answers = run();
    answers.cross.strands = Ter::TEC_PATH_DRY;
    assert_eq!(inserts(&do_offer_create(&tx, &answers).calls), 1);
    answers = run();
    answers.pre_fee_balance = Some(9);
    assert_eq!(do_offer_create(&tx, &answers).result, Ter::TEC_INSUF_RESERVE_OFFER);
    answers.cross.actual_out = drops(1);
    assert_eq!(do_offer_create(&tx, &answers).result, Ter::TES_SUCCESS);
    answers = run();
    answers.account_root = Read::Missing;
    assert_eq!(do_offer_create(&tx, &answers).result, Ter::TEF_INTERNAL);
    answers = run();
    answers.owner_page = None;
    assert_eq!(do_offer_create(&tx, &answers).result, Ter::TEC_DIR_FULL);
    answers = run();
    answers.owner_counted = false;
    assert_eq!(do_offer_create(&tx, &answers).result, Ter::TEF_BAD_LEDGER);
    answers = run();
    answers.book_page = None;
    assert_eq!(do_offer_create(&tx, &answers).result, Ter::TEC_DIR_FULL);
    answers = run();
    answers.inserted = false;
    assert_eq!(do_offer_create(&tx, &answers).result, Ter::TEF_BAD_LEDGER);
}

#[test]
fn nobody_sends_more_than_it_has() {
    let tx = offer();
    let mut answers = run();
    let held = issued(account(2), 1_000_000_000_000_000, -14);
    answers.cross.funds.held = Some(held);
    answers.cross.send_max_exceeds_funds = true;
    let outcome = do_offer_create(&tx, &answers);
    assert!(outcome.calls.contains(&OfferCall::Exceeds { amount: tx.taker_gets, limit: held }));
    assert!(outcome.calls.iter().any(
        |call| matches!(call, OfferCall::Trade(trade) if trade.send_max == held && trade.threshold.input == tx.taker_gets)
    ));
}

#[test]
fn frozen_funds_are_no_funds() {
    let amount = issued(account(2), 5, 0);
    let mut reads = funds();
    reads.issuer = Read::Found(true);
    let frozen = crossing_account_funds(account(1), &amount, &reads).unwrap();
    assert_eq!(frozen.amount.signum(), 0);
    assert!(frozen.disallow_unfunded);
    // The issuer is the higher account: only its own side freezes.
    reads = funds();
    reads.line = Read::Found(LineFreezes { low: true, high: false, low_deep: false, high_deep: false });
    assert!(crossing_account_funds(account(1), &amount, &reads).unwrap().amount.is_positive());
    reads.line = Read::Found(LineFreezes { low: false, high: true, low_deep: false, high_deep: false });
    assert_eq!(crossing_account_funds(account(1), &amount, &reads).unwrap().amount.signum(), 0);
    assert_eq!(crossing_account_funds(account(2), &amount, &reads).unwrap().amount, amount);
    reads.line = Read::Failed;
    assert_eq!(crossing_account_funds(account(1), &amount, &reads), Err(Ter::TEF_BAD_LEDGER));
}

#[test]
fn only_the_issuer_of_a_token_trades_without_funds() {
    let id = MPTID { sequence: 1, issuer: account(9) };
    let amount = Amount::from_integer(Asset::Mpt(id), 10);
    let mut reads = funds();
    reads.issuance = Read::Found(TokenIssuance { issuer: account(9), available: 0 });
    let own = crossing_account_funds(account(9), &amount, &reads).unwrap();
    assert!(!own.disallow_unfunded);
    reads.token = Read::Found(4);
    let other = crossing_account_funds(account(1), &amount, &reads).unwrap();
    assert!(other.disallow_unfunded);
    assert_eq!(other.amount.mantissa, 4);
    reads.token_authorization = Some(Ter::TEC_NO_PERMISSION);
    assert_eq!(crossing_account_funds(account(1), &amount, &reads).unwrap().amount.signum(), 0);
}

#[test]
fn transfer_rates_are_for_issued_currencies_of_others() {
    let gets = issued(account(2), 5, 0);
    assert_eq!(gateway_rate(account(1), &gets, Some(1_005_000_000)), Some(1_005_000_000));
    assert_eq!(gateway_rate(account(2), &gets, Some(1_005_000_000)), Some(PARITY_RATE));
    assert_eq!(gateway_rate(account(1), &drops(1), None), Some(PARITY_RATE));
    assert_eq!(gateway_rate(account(1), &gets, None), None);
}

#[test]
fn dispatch_maps_what_it_is_told() {
    assert_eq!(preclaim_offer_create(None), Ter::TEF_INTERNAL);
    assert_eq!(preclaim_offer_create(Some(Ter::TEC_EXPIRED)), Ter::TEC_EXPIRED);
    assert_eq!(offer_delete_pub(Ok(Ter::TES_SUCCESS)), Ter::TES_SUCCESS);
    assert_eq!(offer_delete_pub(Err(ViewError { id: 1 })), Ter::TEF_BAD_LEDGER);
}
