use xrpld_app::amount::{Asset, Currency};
use xrpld_app::ids::{AccountID, Uint256, MPTID};
use xrpld_app::lending::calls::{FullQuery, LoanCall, OverpaymentQuery, PeriodQuery, Rounding};
use xrpld_app::lending::loan_pay::{
    apply_loan_pay, send_fee_to_owner, IssuanceCap, LoanFacts, LoanParties, LoanPayFlags,
    LoanPayOutcome, LoanPayRun, TransferAnswers,
};
use xrpld_app::lending::parts::{
    payment_parts, ExtraParts, FullAnswers, LateAnswers, LoanPayPaymentType, LoanTerms, Offered,
    OverpaymentAnswers, PaymentAnswers, PaymentParts, PaymentSetting,
};
use xrpld_app::lending::schedule::LoanSchedule;
use xrpld_app::lending::views::{floor_zero, LpBrokerView, LpVaultView};
use xrpld_app::submit::flags::{Present, Read};
use xrpld_app::ter::Ter;

fn account(lo: u128) -> AccountID {
    AccountID { hi: 0, lo }
}

fn id(lo: u128) -> Uint256 {
    Uint256 { hi: 0, lo }
}

fn usd() -> Asset {
    Asset::Issue { currency: Currency { hi: 0, lo: 840 }, issuer: account(0x55) }
}

fn loan() -> LoanTerms {
    LoanTerms {
        scale: -4,
        principal_outstanding: 1_000,
        management_fee_outstanding: 10,
        total_value_outstanding: 1_200,
        periodic_payment: 117,
        service_fee: 2,
        close_payment_fee: 6,
        late_payment_fee: 7,
        interest_rate: 11,
        late_interest_rate: 12,
        close_interest_rate: 13,
        overpayment_interest_rate: 14,
        overpayment_fee_rate: 15,
        payments_remaining: 10,
        payment_interval: 100,
        start_date: 300,
        previous_payment_date: 900,
        next_payment_due_date: Some(1_000),
        overpayment_allowed: true,
    }
}

fn setting() -> PaymentSetting {
    PaymentSetting {
        asset: usd(),
        management_fee_rate: 16,
        close_time: 1_234,
        fix_cleanup_3_2_0: true,
    }
}

fn period() -> PeriodQuery {
    PeriodQuery {
        asset: usd(),
        scale: -4,
        total_value: 1_200,
        principal: 1_000,
        management_fee: 10,
        periodic_payment: 117,
        interest_rate: 11,
        payment_interval: 100,
        payments_remaining: 10,
        management_fee_rate: 16,
    }
}

fn answers() -> PaymentAnswers {
    PaymentAnswers {
        scheduled: PaymentParts {
            principal: 100,
            interest: 18,
            management_fee: 1,
            fee: 3,
            value_change: 0,
            periods: 1,
            periodic_payment: None,
        },
        late: LateAnswers {
            expired: true,
            raw_interest: 19,
            interest: 20,
            net_interest: 18,
            management_fee: 2,
            tracked_due: 119,
            fee: 12,
            total_due: 148,
            interest_paid: 36,
        },
        full: FullAnswers {
            beyond_principal: 190,
            periodic_rate: 77,
            interest: 30,
            fee: 5,
            value_change: -100,
            gross_due: 1_105,
            due: 1_095,
        },
        over: OverpaymentAnswers {
            scheduled_total: 121,
            total_left: 1_081,
            principal_left: 900,
            management_fee_left: 9,
            remainder: 79,
            rounded_overpayment: 78,
            periodic_rate: 77,
            extra: Some(ExtraParts {
                principal: 50,
                interest: 3,
                management_fee: 0,
                fee: 1,
                value_change: -4,
                periodic_payment: 90,
            }),
            principal: 150,
            interest: 21,
            management_fee: 1,
            fee: 4,
            value_change: -4,
        },
    }
}

fn transfer() -> TransferAnswers {
    TransferAnswers {
        to_vault: 118,
        total_paid: 121,
        required_cover: 40,
        rounded_to_vault: 117,
        available_after: 617,
        total_after: 5_000,
        sent: 120,
        debt_reduction: 118,
        debt_after: 882,
        cover_after: 53,
        principal_after: 900,
        management_fee_after: 9,
        tracked_paid: 119,
        value_paid: 119,
        value_after: 1_081,
    }
}

fn schedule() -> LoanSchedule {
    LoanSchedule {
        payments_remaining: 10,
        previous_due_date: 900,
        next_due_date: 1_000,
        payment_interval: 100,
    }
}

fn broker() -> LpBrokerView {
    LpBrokerView {
        owner: account(5),
        pseudo: account(6),
        vault_id: id(9),
        cover_available: 50,
        debt_total: 1_000,
        cover_rate_minimum: 10_000,
        management_fee_rate: 16,
    }
}

fn vault() -> LpVaultView {
    LpVaultView { pseudo: account(7), asset: usd(), assets_available: 500, assets_total: 5_000 }
}

fn facts() -> LoanFacts {
    LoanFacts { broker_id: id(8), terms: loan(), impaired: false }
}

fn parties() -> LoanParties {
    LoanParties { loan: facts(), broker_id: id(8), broker: broker(), vault: vault(), asset: usd() }
}

fn run() -> LoanPayRun {
    LoanPayRun {
        lending_enabled: true,
        dependencies_enabled: true,
        fix_cleanup_3_1_3: true,
        fix_cleanup_3_2_0: true,
        close_time: 1_234,
        borrower: account(4),
        loan_id: id(3),
        amount: 130,
        flags: LoanPayFlags { specific: 0, late: false, full: false, overpayment: false },
        preflight: Ter::TES_SUCCESS,
        payment_type: LoanPayPaymentType::Regular,
        loan: Read::Found(facts()),
        broker: Read::Found(broker()),
        vault: Read::Found(vault()),
        unimpair: Ter::TES_SUCCESS,
        loan_again: Read::Found(facts()),
        vault_again: Read::Found(vault()),
        vault_scale: -2,
        rounded_periodic_payment: 118,
        regular_payment: 120,
        effective: 130,
        parts: answers(),
        transfer_answers: transfer(),
        owner_deep_frozen: Ok(false),
        owner_requires_strong_auth: Ok(false),
        pseudo_account_check: Ter::TES_SUCCESS,
        vault_units: Some(117),
        broker_units: Some(3),
        issuance: Read::Missing,
        to_vault_writable: true,
        to_broker_writable: true,
        transfer: Ter::TES_SUCCESS,
        loan_now: Read::Found(Some(schedule())),
        loan_updated: true,
        vault_now: Read::Found(Present),
        vault_updated: true,
        broker_now: Read::Found(Present),
        broker_updated: true,
    }
}

fn pay(run: LoanPayRun) -> (LoanPayOutcome, Vec<LoanCall>) {
    let mut calls = vec![];
    let outcome = apply_loan_pay(&run, &mut calls);
    (outcome, calls)
}

fn refusal(run: LoanPayRun) -> Ter {
    let (outcome, _) = pay(run);
    assert!(outcome.payment.is_none());
    outcome.result
}

#[test]
fn a_regular_payment_goes_through() {
    let (outcome, calls) = pay(run());
    assert_eq!(outcome.result, Ter::TES_SUCCESS);
    let payment = outcome.payment.unwrap();
    assert_eq!((payment.to_vault, payment.to_broker, payment.broker_payee), (117, 3, account(5)));
    assert_eq!(payment.loan.principal_outstanding, 900);
    assert_eq!(payment.loan.management_fee_outstanding, 9);
    assert_eq!(payment.loan.total_value_outstanding, 1_081);
    assert_eq!(payment.loan.periodic_payment, None);
    let left = payment.loan.schedule.unwrap();
    assert_eq!(left.payments_remaining, 9);
    assert_eq!((left.previous_due_date, left.next_due_date), (1_000, 1_100));
    assert_eq!((payment.vault.assets_available, payment.vault.assets_total), (617, 5_000));
    assert_eq!((payment.broker.debt_total, payment.broker.cover_available), (882, 50));
    let asset = usd();
    assert_eq!(
        calls,
        vec![
            LoanCall::Preflight { loan_id_is_zero: false, amount_is_positive: true, flags: 0 },
            LoanCall::PaymentType { late: false, full: false, overpayment: false },
            LoanCall::ReadLoan { id: id(3) },
            LoanCall::ReadBroker { id: id(8) },
            LoanCall::ReadVault { id: id(9) },
            LoanCall::VaultScale { vault_id: id(9), asset },
            LoanCall::Round { asset, number: 117, scale: -4, mode: Rounding::Upward },
            LoanCall::Sum { first: 118, second: 2 },
            LoanCall::Effective {
                payment_type: LoanPayPaymentType::Regular,
                fix_cleanup_3_1_3: true,
                fix_cleanup_3_2_0: true,
                asset,
                offered: 130,
                scale: -4,
            },
            LoanCall::Schedule { offered: 130, service_fee: 2, period: period() },
            LoanCall::Sum { first: 100, second: 18 },
            LoanCall::Sum { first: 118, second: 3 },
            LoanCall::MinimumCover {
                asset,
                debt_total: 1_000,
                rate: 10_000,
                loan_scale: -4,
                vault_scale: -2,
                fix_cleanup_3_2_0: true,
            },
            LoanCall::DeepFrozen { account: account(5), asset },
            LoanCall::StrongAuth { account: account(5), asset },
            LoanCall::Round { asset, number: 118, scale: -2, mode: Rounding::Downward },
            LoanCall::Sum { first: 500, second: 117 },
            LoanCall::Sum { first: 117, second: 3 },
            LoanCall::Difference { from: 118, first: 0 },
            LoanCall::Difference { from: 1_000, first: 118 },
            LoanCall::Units { asset, number: 117 },
            LoanCall::Units { asset, number: 3 },
            LoanCall::Send {
                borrower: account(4),
                asset,
                vault_account: account(7),
                to_vault: 117,
                payee: account(5),
                to_broker: 3,
            },
            LoanCall::ReadLoan { id: id(3) },
            LoanCall::Difference { from: 1_000, first: 100 },
            LoanCall::Difference { from: 10, first: 1 },
            LoanCall::SumOfThree { first: 100, second: 18, third: 1 },
            LoanCall::Difference { from: 119, first: 0 },
            LoanCall::Difference { from: 1_200, first: 119 },
            LoanCall::UpdateLoan { id: id(3), asset, loan: payment.loan },
            LoanCall::ReadVault { id: id(9) },
            LoanCall::UpdateVault { id: id(9), asset, vault: payment.vault },
            LoanCall::ReadBroker { id: id(8) },
            LoanCall::UpdateBroker { id: id(8), asset, broker: payment.broker },
        ]
    );
}

#[test]
fn amendments_and_scales_go_into_the_questions() {
    let before = LoanPayRun { fix_cleanup_3_1_3: false, fix_cleanup_3_2_0: false, ..run() };
    let (_, calls) = pay(before);
    assert!(calls.contains(&LoanCall::Effective {
        payment_type: LoanPayPaymentType::Regular,
        fix_cleanup_3_1_3: false,
        fix_cleanup_3_2_0: false,
        asset: usd(),
        offered: 130,
        scale: -4,
    }));
    assert!(calls.contains(&LoanCall::MinimumCover {
        asset: usd(),
        debt_total: 1_000,
        rate: 10_000,
        loan_scale: -4,
        vault_scale: -2,
        fix_cleanup_3_2_0: false,
    }));
    let finer = LoanFacts { terms: LoanTerms { scale: -6, ..loan() }, ..facts() };
    let over = LoanPayRun {
        fix_cleanup_3_2_0: false,
        payment_type: LoanPayPaymentType::Overpayment,
        loan: Read::Found(finer),
        amount: 123_456_789,
        effective: 123_456_700,
        ..run()
    };
    let (_, calls) = pay(over);
    assert!(calls.contains(&LoanCall::Effective {
        payment_type: LoanPayPaymentType::Overpayment,
        fix_cleanup_3_1_3: true,
        fix_cleanup_3_2_0: false,
        asset: usd(),
        offered: 123_456_789,
        scale: -6,
    }));
}

#[test]
fn finer_digits_do_not_matter() {
    let over = LoanPayRun {
        payment_type: LoanPayPaymentType::Overpayment,
        amount: 205,
        effective: 200,
        transfer_answers: TransferAnswers { sent: 190, ..transfer() },
        ..run()
    };
    let (outcome, calls) = pay(over);
    let (truncated, other_calls) = pay(LoanPayRun { amount: 200, ..over });
    assert_eq!(outcome.result, Ter::TEC_PRECISION_LOSS);
    assert_eq!(outcome, truncated);
    let differing: Vec<usize> = (0..calls.len()).filter(|&i| calls[i] != other_calls[i]).collect();
    assert_eq!((calls.len(), differing.len()), (other_calls.len(), 1));
    assert!(matches!(calls[differing[0]], LoanCall::Effective { offered: 205, .. }));
}

#[test]
fn an_overpayment_is_what_counts_of_it() {
    // 150 + 21 + 4 is sent of the 200 that count.
    let over = LoanPayRun {
        payment_type: LoanPayPaymentType::Overpayment,
        amount: 205,
        effective: 200,
        transfer_answers: TransferAnswers {
            to_vault: 171,
            total_paid: 175,
            rounded_to_vault: 171,
            available_after: 671,
            total_after: 4_996,
            sent: 175,
            ..transfer()
        },
        ..run()
    };
    let (outcome, calls) = pay(over);
    assert_eq!(outcome.result, Ter::TES_SUCCESS);
    assert!(outcome.payment.is_some());
    let (counted, other_calls) = pay(LoanPayRun { amount: 200, ..over });
    assert_eq!(outcome, counted);
    let same = |i: &usize| calls[*i] == other_calls[*i] || matches!(calls[*i], LoanCall::Effective { .. });
    assert_eq!(calls.len(), other_calls.len());
    assert!((0..calls.len()).all(|i| same(&i)));
}

#[test]
fn payments_are_refused() {
    assert_eq!(refusal(LoanPayRun { lending_enabled: false, ..run() }), Ter::TEM_DISABLED);
    assert_eq!(refusal(LoanPayRun { dependencies_enabled: false, ..run() }), Ter::TEM_DISABLED);
    assert_eq!(refusal(LoanPayRun { preflight: Ter::TEM_INVALID, ..run() }), Ter::TEM_INVALID);
    assert_eq!(refusal(LoanPayRun { loan: Read::Failed, ..run() }), Ter::TEC_NO_ENTRY);
    assert_eq!(refusal(LoanPayRun { broker: Read::Missing, ..run() }), Ter::TEF_BAD_LEDGER);
    assert_eq!(refusal(LoanPayRun { vault: Read::Missing, ..run() }), Ter::TEF_BAD_LEDGER);
    assert_eq!(refusal(LoanPayRun { amount: 0, ..run() }), Ter::TEM_BAD_AMOUNT);
    assert_eq!(refusal(LoanPayRun { amount: 119, ..run() }), Ter::TEC_INSUFFICIENT_PAYMENT);
    let nothing = TransferAnswers { total_paid: 0, ..transfer() };
    assert_eq!(
        refusal(LoanPayRun { transfer_answers: nothing, ..run() }),
        Ter::TEC_INSUFFICIENT_PAYMENT
    );
    let fixed = LoanFacts {
        terms: LoanTerms { overpayment_allowed: false, ..loan() },
        ..facts()
    };
    let more = LoanPayRun {
        payment_type: LoanPayPaymentType::Overpayment,
        loan: Read::Found(fixed),
        ..run()
    };
    assert_eq!(refusal(more), Ter::TEC_NO_PERMISSION);
    assert_eq!(
        refusal(LoanPayRun { fix_cleanup_3_1_3: false, ..more }),
        Ter::TEM_INVALID_FLAG
    );
}

#[test]
fn impaired_loans_are_taken_out_first() {
    let impaired = LoanFacts { impaired: true, ..facts() };
    let again = LoanFacts { terms: LoanTerms { periodic_payment: 99, ..loan() }, ..facts() };
    let first =
        LoanPayRun { loan: Read::Found(impaired), loan_again: Read::Found(again), ..run() };
    let (outcome, calls) = pay(first);
    assert_eq!(outcome.result, Ter::TES_SUCCESS);
    assert_eq!(
        calls[5..8].to_vec(),
        vec![
            LoanCall::Unimpair { loan_id: id(3), vault_id: id(9), asset: usd() },
            LoanCall::ReadLoan { id: id(3) },
            LoanCall::ReadVault { id: id(9) },
        ]
    );
    assert_eq!(
        calls[9],
        LoanCall::Round { asset: usd(), number: 99, scale: -4, mode: Rounding::Upward }
    );
    let refused = LoanPayRun { unimpair: Ter::TEC_NO_PERMISSION, ..first };
    let (outcome, calls) = pay(refused);
    assert_eq!((outcome.result, calls.len()), (Ter::TEC_NO_PERMISSION, 6));
    let lost = LoanPayRun { vault_again: Read::Missing, ..first };
    assert_eq!(refusal(lost), Ter::TEF_BAD_LEDGER);
}

fn offered(amount: i128, effective: i128) -> Offered {
    Offered { amount, effective, regular_payment: 120 }
}

fn divide(
    payment_type: LoanPayPaymentType,
    loan: LoanTerms,
    setting: PaymentSetting,
    offered: Offered,
    answers: PaymentAnswers,
) -> (Result<PaymentParts, Ter>, Vec<LoanCall>) {
    let mut calls = vec![];
    let r = payment_parts(payment_type, &loan, &setting, &offered, &answers, &mut calls);
    (r, calls)
}

#[test]
fn late_payments() {
    let late = |amount, answers| {
        divide(LoanPayPaymentType::Late, loan(), setting(), offered(amount, amount), answers)
    };
    assert_eq!(late(147, answers()).0, Err(Ter::TEC_INSUFFICIENT_PAYMENT));
    let (paid, calls) = late(148, answers());
    let paid = paid.unwrap();
    assert_eq!((paid.principal, paid.interest, paid.management_fee, paid.fee), (100, 36, 1, 12));
    assert_eq!(paid.value_change, 18);
    let asset = usd();
    assert_eq!(
        calls,
        vec![
            LoanCall::Expired { next_due: Some(1_000) },
            LoanCall::OnePayment(period()),
            LoanCall::LateInterest { principal: 1_000, rate: 12, close_time: 1_234, due_date: 1_000 },
            LoanCall::Round { asset, number: 19, scale: -4, mode: Rounding::ToNearest },
            LoanCall::PartInterest { asset, interest: 20, management_fee_rate: 16, scale: -4 },
            LoanCall::SumOfThree { first: 100, second: 18, third: 1 },
            LoanCall::SumOfFour { first: 1, second: 2, third: 7, fourth: 2 },
            LoanCall::SumOfFour { first: 119, second: 2, third: 7, fourth: 20 },
            LoanCall::Sum { first: 18, second: 18 },
        ]
    );
    let soon = PaymentAnswers {
        late: LateAnswers { expired: false, ..answers().late },
        ..answers()
    };
    let (refused, calls) = late(148, soon);
    assert_eq!(refused, Err(Ter::TEC_TOO_SOON));
    assert_eq!(calls, vec![LoanCall::Expired { next_due: Some(1_000) }]);
    let undated = LoanTerms { next_payment_due_date: None, ..loan() };
    let (_, calls) = divide(
        LoanPayPaymentType::Late,
        undated,
        setting(),
        offered(148, 148),
        answers(),
    );
    assert!(matches!(calls[2], LoanCall::LateInterest { due_date: 0, .. }));
}

#[test]
fn payments_in_full() {
    let full = |loan, amount| {
        divide(LoanPayPaymentType::Full, loan, setting(), offered(amount, amount), answers())
    };
    assert_eq!(full(loan(), 1_094).0, Err(Ter::TEC_INSUFFICIENT_PAYMENT));
    let (paid, calls) = full(loan(), 1_095);
    let paid = paid.unwrap();
    assert_eq!((paid.principal, paid.interest, paid.management_fee), (1_000, 30, 10));
    assert_eq!((paid.fee, paid.value_change, paid.periods), (5, -100, 10));
    let last = LoanTerms { payments_remaining: 1, ..loan() };
    assert_eq!(full(last, 2_000), (Err(Ter::TEC_KILLED), vec![]));
    assert_eq!(
        calls,
        vec![
            LoanCall::DifferenceOfThree { from: 1_200, first: 1_000, second: 10 },
            LoanCall::PeriodicRate { interest_rate: 11, payment_interval: 100 },
            LoanCall::FullPayment(FullQuery {
                asset: usd(),
                scale: -4,
                close_time: 1_234,
                outstanding_interest: 190,
                periodic_payment: 117,
                periodic_rate: 77,
                payments_remaining: 10,
                previous_payment_date: 900,
                start_date: 300,
                payment_interval: 100,
                close_interest_rate: 13,
                close_payment_fee: 6,
                management_fee_rate: 16,
            }),
            LoanCall::SumOfThree { first: 1_200, second: -100, third: 5 },
            LoanCall::Difference { from: 1_105, first: 10 },
        ]
    );
    let (outcome, _) = pay(LoanPayRun {
        payment_type: LoanPayPaymentType::Full,
        amount: 1_095,
        transfer_answers: TransferAnswers {
            rounded_to_vault: 1_030,
            available_after: 1_530,
            total_after: 4_900,
            sent: 1_035,
            principal_after: 0,
            ..transfer()
        },
        ..run()
    });
    let payment = outcome.payment.unwrap();
    assert_eq!(payment.loan.principal_outstanding, 0);
    let schedule = payment.loan.schedule.unwrap();
    assert_eq!((schedule.payments_remaining, schedule.next_due_date), (0, 0));
    assert_eq!(schedule.previous_due_date, 1_000);
}

#[test]
fn more_than_is_due() {
    let over = |setting, answers| {
        divide(LoanPayPaymentType::Overpayment, loan(), setting, offered(205, 200), answers)
    };
    let (paid, calls) = over(setting(), answers());
    let paid = paid.unwrap();
    assert_eq!((paid.principal, paid.interest, paid.fee), (150, 21, 4));
    assert_eq!((paid.value_change, paid.periodic_payment), (-4, Some(90)));
    let query = OverpaymentQuery {
        amount: 78,
        period: PeriodQuery {
            total_value: 1_081,
            principal: 900,
            management_fee: 9,
            payments_remaining: 9,
            ..period()
        },
        periodic_rate: 77,
        overpayment_interest_rate: 14,
        overpayment_fee_rate: 15,
    };
    assert_eq!(
        calls,
        vec![
            LoanCall::Schedule { offered: 200, service_fee: 2, period: period() },
            LoanCall::SumOfThree { first: 100, second: 18, third: 3 },
            LoanCall::DifferenceOfFour { from: 1_200, first: 100, second: 18, third: 1 },
            LoanCall::Difference { from: 1_000, first: 100 },
            LoanCall::Difference { from: 10, first: 1 },
            LoanCall::Difference { from: 200, first: 121 },
            LoanCall::Round { asset: usd(), number: 79, scale: -4, mode: Rounding::Downward },
            LoanCall::PeriodicRate { interest_rate: 11, payment_interval: 100 },
            LoanCall::Reamortize(query),
            LoanCall::Sum { first: 100, second: 50 },
            LoanCall::Sum { first: 18, second: 3 },
            LoanCall::Sum { first: 1, second: 0 },
            LoanCall::Sum { first: 3, second: 1 },
            LoanCall::Sum { first: 0, second: -4 },
        ]
    );
    let (_, legacy) = over(PaymentSetting { fix_cleanup_3_2_0: false, ..setting() }, answers());
    assert!(!legacy.iter().any(|call| matches!(call, LoanCall::Round { .. })));
    assert!(legacy.contains(&LoanCall::Reamortize(OverpaymentQuery { amount: 79, ..query })));
    let none = PaymentAnswers {
        over: OverpaymentAnswers { extra: None, ..answers().over },
        ..answers()
    };
    let plain = over(setting(), none).0.unwrap();
    assert_eq!((plain.principal, plain.periodic_payment), (100, None));
    let spent = PaymentAnswers {
        over: OverpaymentAnswers { scheduled_total: 200, ..answers().over },
        ..answers()
    };
    assert_eq!(over(setting(), spent).1.len(), 2);
    let free = Offered { regular_payment: 0, ..offered(205, 200) };
    let (back, calls) =
        divide(LoanPayPaymentType::Overpayment, loan(), setting(), free, answers());
    let back = back.unwrap();
    assert_eq!((back.principal, back.interest, back.periods), (200, 0, 1));
    assert!(calls.is_empty());
}

#[test]
fn fees_find_their_way() {
    let mut calls = vec![];
    assert_eq!(send_fee_to_owner(&run(), &parties(), &mut calls), Ok(true));
    let poor = LoanPayRun {
        transfer_answers: TransferAnswers { required_cover: 51, ..transfer() },
        ..run()
    };
    assert_eq!(send_fee_to_owner(&poor, &parties(), &mut calls), Ok(false));
    assert_eq!(
        calls.last(),
        Some(&LoanCall::CheckPayee { account: account(6), asset: usd() })
    );
    let frozen = LoanPayRun { owner_deep_frozen: Ok(true), ..run() };
    assert_eq!(send_fee_to_owner(&frozen, &parties(), &mut calls), Ok(false));
    let unread = LoanPayRun { owner_requires_strong_auth: Err(Ter::TEF_BAD_LEDGER), ..run() };
    assert_eq!(send_fee_to_owner(&unread, &parties(), &mut calls), Err(Ter::TEF_BAD_LEDGER));
    let barred = LoanPayRun { pseudo_account_check: Ter::TEC_NO_PERMISSION, ..poor };
    assert_eq!(send_fee_to_owner(&barred, &parties(), &mut calls), Err(Ter::TEC_NO_PERMISSION));
    let (outcome, calls) = pay(poor);
    let payment = outcome.payment.unwrap();
    assert_eq!((payment.broker_payee, payment.broker.cover_available), (account(6), 53));
    assert!(calls.contains(&LoanCall::Sum { first: 50, second: 3 }));
}

fn with_transfer(answers: TransferAnswers) -> LoanPayRun {
    LoanPayRun { transfer_answers: answers, ..run() }
}

#[test]
fn the_vault_must_notice() {
    assert_eq!(
        refusal(with_transfer(TransferAnswers { available_after: 500, ..transfer() })),
        Ter::TEC_PRECISION_LOSS
    );
    assert_eq!(
        refusal(with_transfer(TransferAnswers { available_after: 5_001, ..transfer() })),
        Ter::TEC_INTERNAL
    );
    assert_eq!(
        refusal(with_transfer(TransferAnswers { sent: 131, ..transfer() })),
        Ter::TEC_INSUFFICIENT_PAYMENT
    );
    let late = LoanPayRun { payment_type: LoanPayPaymentType::Late, amount: 150, ..run() };
    assert_eq!(refusal(late), Ter::TEC_PRECISION_LOSS);
    let (outcome, calls) = pay(LoanPayRun {
        transfer_answers: TransferAnswers { total_after: 5_018, ..transfer() },
        ..late
    });
    assert_eq!(outcome.payment.unwrap().vault.assets_total, 5_018);
    assert!(calls.contains(&LoanCall::Sum { first: 5_000, second: 18 }));
}

#[test]
fn balances_stop_at_zero() {
    let low = TransferAnswers {
        debt_after: -1,
        management_fee_after: -2,
        value_after: -3,
        ..transfer()
    };
    let payment = pay(with_transfer(low)).0.payment.unwrap();
    assert_eq!(payment.broker.debt_total, 0);
    assert_eq!(payment.loan.management_fee_outstanding, 0);
    assert_eq!(payment.loan.total_value_outstanding, 0);
}

#[test]
fn issuers_send_within_their_limit() {
    let token = Asset::Mpt(MPTID { sequence: 1, issuer: account(4) });
    let cap = IssuanceCap { outstanding_amount: 50, maximum_amount: 1_000, exceeded: false };
    let issuer = LoanPayRun {
        vault: Read::Found(LpVaultView { asset: token, ..vault() }),
        issuance: Read::Found(cap),
        ..run()
    };
    let (outcome, calls) = pay(issuer);
    assert_eq!(outcome.result, Ter::TES_SUCCESS);
    assert!(calls.contains(&LoanCall::Issuance { asset: token }));
    assert!(calls.contains(&LoanCall::SendLimit { outstanding: 50, maximum: 1_000, total: 120 }));
    let over = IssuanceCap { exceeded: true, ..cap };
    assert_eq!(
        refusal(LoanPayRun { issuance: Read::Found(over), ..issuer }),
        Ter::TEC_PATH_DRY
    );
    let odd = IssuanceCap { maximum_amount: -1, ..cap };
    assert_eq!(refusal(LoanPayRun { issuance: Read::Found(odd), ..issuer }), Ter::TEC_INTERNAL);
    assert_eq!(
        refusal(LoanPayRun { issuance: Read::Missing, ..issuer }),
        Ter::TEC_OBJECT_NOT_FOUND
    );
    assert_eq!(
        refusal(LoanPayRun { issuance: Read::Failed, ..issuer }),
        Ter::TEF_BAD_LEDGER
    );
    assert_eq!(refusal(LoanPayRun { vault_units: None, ..issuer }), Ter::TEC_INTERNAL);
    assert_eq!(refusal(LoanPayRun { broker_units: Some(-1), ..issuer }), Ter::TEC_INTERNAL);
    let stranger = LoanPayRun { borrower: account(2), issuance: Read::Missing, ..issuer };
    assert_eq!(pay(stranger).0.result, Ter::TES_SUCCESS);
}

#[test]
fn writes_can_fail() {
    assert_eq!(refusal(LoanPayRun { to_broker_writable: false, ..run() }), Ter::TEC_INTERNAL);
    let dry = LoanPayRun { transfer: Ter::TEC_PATH_DRY, ..run() };
    let (outcome, calls) = pay(dry);
    assert_eq!(outcome.result, Ter::TEC_PATH_DRY);
    assert!(matches!(calls.last(), Some(LoanCall::Send { .. })));
    let lost = LoanPayRun { vault_updated: false, ..run() };
    let (outcome, calls) = pay(lost);
    assert_eq!(outcome.result, Ter::TEF_BAD_LEDGER);
    assert!(matches!(calls.last(), Some(LoanCall::UpdateVault { .. })));
}

#[test]
fn schedules_move_on() {
    let mut several = schedule();
    several.advance(3, false);
    assert_eq!(several.payments_remaining, 7);
    assert_eq!((several.previous_due_date, several.next_due_date), (1_200, 1_300));
    let mut none = schedule();
    none.advance(0, false);
    assert_eq!(none, schedule());
    let mut long = LoanSchedule { payments_remaining: 500, ..schedule() };
    long.advance(200, false);
    assert_eq!(long.payments_remaining, 400);
    let mut last = schedule();
    last.advance(10, false);
    assert_eq!((last.payments_remaining, last.next_due_date), (0, 0));
    let mut far = LoanSchedule { payment_interval: u32::MAX, ..schedule() };
    far.advance(2, false);
    assert_eq!(far.next_due_date, u32::MAX);
}

#[test]
fn views_keep_their_floors() {
    assert_eq!((floor_zero(-3), floor_zero(3)), (0, 3));
    let mut debtor = broker();
    debtor.adjust_debt_total(-1);
    assert_eq!(debtor.debt_total, 0);
    debtor.add_cover_available(55);
    assert_eq!(debtor.cover_available, 55);
    assert!(!vault().assets_available_exceeds_total());
}
