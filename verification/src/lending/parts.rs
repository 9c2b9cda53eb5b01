//! How a payment on a loan is divided.
use vstd::prelude::*;
use crate::amount::Asset;
use crate::lending::calls::{FullQuery, LoanCall, OverpaymentQuery, PeriodQuery, Rounding};
use crate::lending::schedule::LOAN_MAXIMUM_PAYMENTS_PER_TRANSACTION;
use crate::lending::views::{floor_zero, spec_floor_zero};
use crate::ter::Ter;

verus! {

/// How a loan is being paid.
#[derive(Clone, Copy, Debug, PartialEq, Eq, Structural)]
pub enum LoanPayPaymentType {
    Regular,
    Late,
    Full,
    Overpayment,
}

/// What is owed on a loan, and on which terms. What the ledger does not name is zero.
#[derive(Clone, Copy, Debug, PartialEq, Eq, Structural)]
pub struct LoanTerms {
    /// The power of ten that the numbers of the loan are rounded to.
    pub scale: i32,
    pub principal_outstanding: i128,
    pub management_fee_outstanding: i128,
    pub total_value_outstanding: i128,
    /// One scheduled payment, without the service fee.
    pub periodic_payment: i128,
    pub service_fee: i128,
    pub close_payment_fee: i128,
    pub late_payment_fee: i128,
    pub interest_rate: u32,
    pub late_interest_rate: u32,
    pub close_interest_rate: u32,
    pub overpayment_interest_rate: u32,
    pub overpayment_fee_rate: u32,
    pub payments_remaining: u32,
    pub payment_interval: u32,
    pub start_date: u32,
    pub previous_payment_date: u32,
    pub next_payment_due_date: Option<u32>,
    /// More than is due may be paid.
    pub overpayment_allowed: bool,
}

/// What a payment is divided under, besides the terms of the loan.
#[derive(Clone, Copy, Debug, PartialEq, Eq, Structural)]
pub struct PaymentSetting {
    pub asset: Asset,
    /// The share of the broker in every interest.
    pub management_fee_rate: u16,
    /// When the ledger before this one closed.
    pub close_time: u32,
    pub fix_cleanup_3_2_0: bool,
}

/// What is offered.
#[derive(Clone, Copy, Debug, PartialEq, Eq, Structural)]
pub struct Offered {
    pub amount: i128,
    /// What counts of the amount where more than is due is paid.
    pub effective: i128,
    /// What one scheduled payment takes, with the service fee.
    pub regular_payment: i128,
}

/// What a payment goes to.
#[derive(Clone, Copy, Debug, PartialEq, Eq, Structural)]
pub struct PaymentParts {
    pub principal: i128,
    pub interest: i128,
    pub management_fee: i128,
    /// What the broker gets.
    pub fee: i128,
    /// By how much the payment makes the loan worth more than was foreseen.
    pub value_change: i128,
    /// How many scheduled payments it covers.
    pub periods: u32,
    /// The scheduled payment from now on, where it changes.
    pub periodic_payment: Option<i128>,
}

impl PaymentParts {
    /// All of the payment pays back what was lent.
    pub open spec fn spec_principal_only(principal: i128) -> PaymentParts {
        PaymentParts {
            principal,
            interest: 0,
            management_fee: 0,
            fee: 0,
            value_change: 0,
            periods: 1,
            periodic_payment: None,
        }
    }

    fn principal_only(principal: i128) -> (r: PaymentParts)
        ensures
            r == PaymentParts::spec_principal_only(principal),
    {
        PaymentParts {
            principal,
            interest: 0,
            management_fee: 0,
            fee: 0,
            value_change: 0,
            periods: 1,
            periodic_payment: None,
        }
    }
}

pub open spec fn smaller(a: i128, b: i128) -> i128 {
    if a < b {
        a
    } else {
        b
    }
}

fn min(a: i128, b: i128) -> (r: i128)
    ensures
        r == smaller(a, b),
{
    if a < b {
        a
    } else {
        b
    }
}

/// What putting the rest of a payment into a loan comes to.
#[derive(Clone, Copy, Debug, PartialEq, Eq, Structural)]
pub struct ExtraParts {
    pub principal: i128,
    pub interest: i128,
    pub management_fee: i128,
    pub fee: i128,
    pub value_change: i128,
    /// The scheduled payment from now on.
    pub periodic_payment: i128,
}

/// What is answered for a late payment.
#[derive(Clone, Copy, Debug, PartialEq, Eq, Structural)]
pub struct LateAnswers {
    /// The due date has passed.
    pub expired: bool,
    /// What being late costs, and that at the scale of the loan.
    pub raw_interest: i128,
    pub interest: i128,
    /// What the vault and what the broker gets of it.
    pub net_interest: i128,
    pub management_fee: i128,
    /// What is due by schedule, what the broker gets, what is due in all, and what the vault gets
    /// besides the principal.
    pub tracked_due: i128,
    pub fee: i128,
    pub total_due: i128,
    pub interest_paid: i128,
}

/// What is answered for a payment in full.
#[derive(Clone, Copy, Debug, PartialEq, Eq, Structural)]
pub struct FullAnswers {
    /// What the loan is worth beyond the principal and the fee for managing it.
    pub beyond_principal: i128,
    pub periodic_rate: i128,
    pub interest: i128,
    pub fee: i128,
    pub value_change: i128,
    /// What the payment takes, before and after the fee for managing the loan is taken off.
    pub gross_due: i128,
    pub due: i128,
}

/// What is answered where more than is due is paid.
#[derive(Clone, Copy, Debug, PartialEq, Eq, Structural)]
pub struct OverpaymentAnswers {
    /// What the scheduled payments take.
    pub scheduled_total: i128,
    /// What they leave of what is owed.
    pub total_left: i128,
    pub principal_left: i128,
    pub management_fee_left: i128,
    /// What they leave of the payment, and what is put into the loan of it at the scale of the loan.
    pub remainder: i128,
    pub rounded_overpayment: i128,
    pub periodic_rate: i128,
    /// What putting it into the loan comes to; none where nothing can be made of it.
    pub extra: Option<ExtraParts>,
    /// The scheduled payments and the rest together.
    pub principal: i128,
    pub interest: i128,
    pub management_fee: i128,
    pub fee: i128,
    pub value_change: i128,
}

/// What is answered while a payment is divided. Each answer counts only where the question comes
/// up.
#[derive(Clone, Copy, Debug, PartialEq, Eq, Structural)]
pub struct PaymentAnswers {
    /// As many scheduled payments as the amount covers, or, for a late payment, one.
    pub scheduled: PaymentParts,
    pub late: LateAnswers,
    pub full: FullAnswers,
    pub over: OverpaymentAnswers,
}

/// What a payment goes to, or why it is refused, and what was asked for to find that out.
#[verifier::ext_equal]
pub struct Divided {
    pub result: Result<PaymentParts, Ter>,
    pub calls: Seq<LoanCall>,
}

impl LoanTerms {
    /// The loan as it stands, for a scheduled payment.
    pub open spec fn spec_period(self, setting: PaymentSetting) -> PeriodQuery {
        PeriodQuery {
            asset: setting.asset,
            scale: self.scale,
            total_value: self.total_value_outstanding,
            principal: self.principal_outstanding,
            management_fee: self.management_fee_outstanding,
            periodic_payment: self.periodic_payment,
            interest_rate: self.interest_rate,
            payment_interval: self.payment_interval,
            payments_remaining: self.payments_remaining,
            management_fee_rate: setting.management_fee_rate,
        }
    }

    /// The loan as it stands, for a scheduled payment.
    pub fn period(&self, setting: &PaymentSetting) -> (r: PeriodQuery)
        ensures
            r == self.spec_period(*setting),
    {
        PeriodQuery {
            asset: setting.asset,
            scale: self.scale,
            total_value: self.total_value_outstanding,
            principal: self.principal_outstanding,
            management_fee: self.management_fee_outstanding,
            periodic_payment: self.periodic_payment,
            interest_rate: self.interest_rate,
            payment_interval: self.payment_interval,
            payments_remaining: self.payments_remaining,
            management_fee_rate: setting.management_fee_rate,
        }
    }

    pub open spec fn schedule_call(self, setting: PaymentSetting, offered: i128) -> LoanCall {
        LoanCall::Schedule {
            offered,
            service_fee: self.service_fee,
            period: self.spec_period(setting),
        }
    }

    pub open spec fn rate_call(self) -> LoanCall {
        LoanCall::PeriodicRate {
            interest_rate: self.interest_rate,
            payment_interval: self.payment_interval,
        }
    }
}

/// A scheduled payment.
pub open spec fn regular_parts(
    loan: LoanTerms,
    setting: PaymentSetting,
    offered: Offered,
    answers: PaymentAnswers,
) -> Divided {
    if offered.regular_payment <= 0 {
        Divided {
            result: Ok(
                PaymentParts::spec_principal_only(
                    smaller(offered.amount, loan.principal_outstanding),
                ),
            ),
            calls: seq![],
        }
    } else if offered.amount < offered.regular_payment {
        Divided { result: Err(Ter::TEC_INSUFFICIENT_PAYMENT), calls: seq![] }
    } else {
        Divided {
            result: Ok(PaymentParts { periodic_payment: None, ..answers.scheduled }),
            calls: seq![loan.schedule_call(setting, offered.amount)],
        }
    }
}

pub open spec fn due_date_or_zero(due_date: Option<u32>) -> u32 {
    match due_date {
        Some(date) => date,
        None => 0,
    }
}

/// What is asked for to find out what a late payment takes.
pub open spec fn late_calls(
    loan: LoanTerms,
    setting: PaymentSetting,
    answers: PaymentAnswers,
) -> Seq<LoanCall> {
    let one = answers.scheduled;
    let late = answers.late;
    seq![
        LoanCall::Expired { next_due: loan.next_payment_due_date },
        LoanCall::OnePayment(loan.spec_period(setting)),
        LoanCall::LateInterest {
            principal: loan.principal_outstanding,
            rate: loan.late_interest_rate,
            close_time: setting.close_time,
            due_date: due_date_or_zero(loan.next_payment_due_date),
        },
        LoanCall::Round {
            asset: setting.asset,
            number: late.raw_interest,
            scale: loan.scale,
            mode: Rounding::ToNearest,
        },
        LoanCall::PartInterest {
            asset: setting.asset,
            interest: late.interest,
            management_fee_rate: setting.management_fee_rate,
            scale: loan.scale,
        },
        LoanCall::SumOfThree {
            first: one.principal,
            second: one.interest,
            third: one.management_fee,
        },
        LoanCall::SumOfFour {
            first: one.management_fee,
            second: loan.service_fee,
            third: loan.late_payment_fee,
            fourth: late.management_fee,
        },
        LoanCall::SumOfFour {
            first: late.tracked_due,
            second: loan.service_fee,
            third: loan.late_payment_fee,
            fourth: late.interest,
        },
    ]
}

/// A late payment.
pub open spec fn late_parts(
    loan: LoanTerms,
    setting: PaymentSetting,
    offered: Offered,
    answers: PaymentAnswers,
) -> Divided {
    let one = answers.scheduled;
    let late = answers.late;
    if !late.expired {
        Divided {
            result: Err(Ter::TEC_TOO_SOON),
            calls: seq![LoanCall::Expired { next_due: loan.next_payment_due_date }],
        }
    } else if offered.amount < late.total_due {
        Divided {
            result: Err(Ter::TEC_INSUFFICIENT_PAYMENT),
            calls: late_calls(loan, setting, answers),
        }
    } else {
        Divided {
            result: Ok(
                PaymentParts {
                    principal: one.principal,
                    interest: late.interest_paid,
                    management_fee: one.management_fee,
                    fee: late.fee,
                    value_change: late.net_interest,
                    periods: 1,
                    periodic_payment: None,
                },
            ),
            calls: late_calls(loan, setting, answers).push(
                LoanCall::Sum { first: one.interest, second: late.net_interest },
            ),
        }
    }
}

pub open spec fn full_query(loan: LoanTerms, setting: PaymentSetting, full: FullAnswers) -> FullQuery {
    FullQuery {
        asset: setting.asset,
        scale: loan.scale,
        close_time: setting.close_time,
        outstanding_interest: spec_floor_zero(full.beyond_principal),
        periodic_payment: loan.periodic_payment,
        periodic_rate: full.periodic_rate,
        payments_remaining: loan.payments_remaining,
        previous_payment_date: loan.previous_payment_date,
        start_date: loan.start_date,
        payment_interval: loan.payment_interval,
        close_interest_rate: loan.close_interest_rate,
        close_payment_fee: loan.close_payment_fee,
        management_fee_rate: setting.management_fee_rate,
    }
}

/// A payment in full.
pub open spec fn full_parts(
    loan: LoanTerms,
    setting: PaymentSetting,
    offered: Offered,
    answers: PaymentAnswers,
) -> Divided {
    let full = answers.full;
    if loan.payments_remaining <= 1 {
        Divided { result: Err(Ter::TEC_KILLED), calls: seq![] }
    } else {
        Divided {
            result: if offered.amount < full.due {
                Err(Ter::TEC_INSUFFICIENT_PAYMENT)
            } else {
                Ok(
                    PaymentParts {
                        principal: loan.principal_outstanding,
                        interest: full.interest,
                        management_fee: loan.management_fee_outstanding,
                        fee: full.fee,
                        value_change: full.value_change,
                        periods: loan.payments_remaining,
                        periodic_payment: None,
                    },
                )
            },
            calls: seq![
                LoanCall::DifferenceOfThree {
                    from: loan.total_value_outstanding,
                    first: loan.principal_outstanding,
                    second: loan.management_fee_outstanding,
                },
                loan.rate_call(),
                LoanCall::FullPayment(full_query(loan, setting, full)),
                LoanCall::SumOfThree {
                    first: loan.total_value_outstanding,
                    second: full.value_change,
                    third: full.fee,
                },
                LoanCall::Difference {
                    from: full.gross_due,
                    first: loan.management_fee_outstanding,
                },
            ],
        }
    }
}

/// There is something left of the payment, and a loan left to put it into.
pub open spec fn can_overpay(loan: LoanTerms, offered: Offered, answers: PaymentAnswers) -> bool {
    &&& loan.overpayment_allowed
    &&& answers.scheduled.periods < loan.payments_remaining
    &&& answers.over.scheduled_total < offered.effective
    &&& answers.scheduled.periods < LOAN_MAXIMUM_PAYMENTS_PER_TRANSACTION
}

/// What is left of a payment to be put into the loan: no more than is owed.
pub open spec fn raw_overpayment(over: OverpaymentAnswers) -> i128 {
    smaller(over.remainder, spec_floor_zero(over.total_left))
}

/// The loan once the scheduled payments are done with, and what is put into it on top. Since the
/// second cleanup of the rules that is rounded down to the scale of the loan first.
pub open spec fn overpayment_query(
    loan: LoanTerms,
    setting: PaymentSetting,
    answers: PaymentAnswers,
) -> OverpaymentQuery {
    let over = answers.over;
    OverpaymentQuery {
        amount: if setting.fix_cleanup_3_2_0 {
            over.rounded_overpayment
        } else {
            raw_overpayment(over)
        },
        period: PeriodQuery {
            total_value: spec_floor_zero(over.total_left),
            principal: spec_floor_zero(over.principal_left),
            management_fee: spec_floor_zero(over.management_fee_left),
            payments_remaining: (loan.payments_remaining - answers.scheduled.periods) as u32,
            ..loan.spec_period(setting)
        },
        periodic_rate: over.periodic_rate,
        overpayment_interest_rate: loan.overpayment_interest_rate,
        overpayment_fee_rate: loan.overpayment_fee_rate,
    }
}

/// What is asked for to put the rest of a payment into the loan.
pub open spec fn overpayment_calls(
    loan: LoanTerms,
    setting: PaymentSetting,
    offered: Offered,
    answers: PaymentAnswers,
) -> Seq<LoanCall> {
    let scheduled = answers.scheduled;
    let over = answers.over;
    seq![
        LoanCall::DifferenceOfFour {
            from: loan.total_value_outstanding,
            first: scheduled.principal,
            second: scheduled.interest,
            third: scheduled.management_fee,
        },
        LoanCall::Difference { from: loan.principal_outstanding, first: scheduled.principal },
        LoanCall::Difference {
            from: loan.management_fee_outstanding,
            first: scheduled.management_fee,
        },
        LoanCall::Difference { from: offered.effective, first: over.scheduled_total },
    ] + (if setting.fix_cleanup_3_2_0 {
        seq![
            LoanCall::Round {
                asset: setting.asset,
                number: raw_overpayment(over),
                scale: loan.scale,
                mode: Rounding::Downward,
            },
        ]
    } else {
        seq![]
    }) + seq![
        loan.rate_call(),
        LoanCall::Reamortize(overpayment_query(loan, setting, answers)),
    ] + match over.extra {
        Some(extra) => seq![
            LoanCall::Sum { first: scheduled.principal, second: extra.principal },
            LoanCall::Sum { first: scheduled.interest, second: extra.interest },
            LoanCall::Sum { first: scheduled.management_fee, second: extra.management_fee },
            LoanCall::Sum { first: scheduled.fee, second: extra.fee },
            LoanCall::Sum { first: scheduled.value_change, second: extra.value_change },
        ],
        None => seq![],
    }
}

pub open spec fn one_at_least(periods: u32) -> u32 {
    if periods < 1 {
        1
    } else {
        periods
    }
}

/// More than is due.
pub open spec fn over_parts(
    loan: LoanTerms,
    setting: PaymentSetting,
    offered: Offered,
    answers: PaymentAnswers,
) -> Divided {
    let scheduled = answers.scheduled;
    let over = answers.over;
    let plain = PaymentParts {
        periods: one_at_least(scheduled.periods),
        periodic_payment: None,
        ..scheduled
    };
    let asked = seq![
        loan.schedule_call(setting, offered.effective),
        LoanCall::SumOfThree {
            first: scheduled.principal,
            second: scheduled.interest,
            third: scheduled.fee,
        },
    ];
    if offered.regular_payment <= 0 {
        Divided {
            result: Ok(
                PaymentParts::spec_principal_only(
                    smaller(offered.effective, loan.principal_outstanding),
                ),
            ),
            calls: seq![],
        }
    } else if can_overpay(loan, offered, answers) {
        Divided {
            result: Ok(
                match over.extra {
                    Some(extra) => PaymentParts {
                        principal: over.principal,
                        interest: over.interest,
                        management_fee: over.management_fee,
                        fee: over.fee,
                        value_change: over.value_change,
                        periods: one_at_least(scheduled.periods),
                        periodic_payment: Some(extra.periodic_payment),
                    },
                    None => plain,
                },
            ),
            calls: asked + overpayment_calls(loan, setting, offered, answers),
        }
    } else {
        Divided { result: Ok(plain), calls: asked }
    }
}

/// What a payment goes to, or why it is refused, and what is asked for on the way.
pub open spec fn divided(
    payment_type: LoanPayPaymentType,
    loan: LoanTerms,
    setting: PaymentSetting,
    offered: Offered,
    answers: PaymentAnswers,
) -> Divided {
    match payment_type {
        LoanPayPaymentType::Regular => regular_parts(loan, setting, offered, answers),
        LoanPayPaymentType::Late => late_parts(loan, setting, offered, answers),
        LoanPayPaymentType::Full => full_parts(loan, setting, offered, answers),
        LoanPayPaymentType::Overpayment => over_parts(loan, setting, offered, answers),
    }
}

fn divide_regular(
    loan: &LoanTerms,
    setting: &PaymentSetting,
    offered: &Offered,
    answers: &PaymentAnswers,
    calls: &mut Vec<LoanCall>,
) -> (r: Result<PaymentParts, Ter>)
    ensures
        r == regular_parts(*loan, *setting, *offered, *answers).result,
        final(calls)@ == old(calls)@ + regular_parts(*loan, *setting, *offered, *answers).calls,
{
    if offered.regular_payment <= 0 {
        return Ok(PaymentParts::principal_only(min(offered.amount, loan.principal_outstanding)));
    }
    if offered.amount < offered.regular_payment {
        return Err(Ter::TEC_INSUFFICIENT_PAYMENT);
    }
    calls.push(
        LoanCall::Schedule {
            offered: offered.amount,
            service_fee: loan.service_fee,
            period: loan.period(setting),
        },
    );
    let mut parts = answers.scheduled;
    parts.periodic_payment = None;
    Ok(parts)
}

fn divide_late(
    loan: &LoanTerms,
    setting: &PaymentSetting,
    offered: &Offered,
    answers: &PaymentAnswers,
    calls: &mut Vec<LoanCall>,
) -> (r: Result<PaymentParts, Ter>)
    ensures
        r == late_parts(*loan, *setting, *offered, *answers).result,
        final(calls)@ == old(calls)@ + late_parts(*loan, *setting, *offered, *answers).calls,
{
    let one = &answers.scheduled;
    let late = &answers.late;
    calls.push(LoanCall::Expired { next_due: loan.next_payment_due_date });
    if !late.expired {
        return Err(Ter::TEC_TOO_SOON);
    }
    calls.push(LoanCall::OnePayment(loan.period(setting)));
    let due_date: u32 = match loan.next_payment_due_date {
        Some(date) => date,
        None => 0,
    };
    calls.push(
        LoanCall::LateInterest {
            principal: loan.principal_outstanding,
            rate: loan.late_interest_rate,
            close_time: setting.close_time,
            due_date,
        },
    );
    calls.push(
        LoanCall::Round {
            asset: setting.asset,
            number: late.raw_interest,
            scale: loan.scale,
            mode: Rounding::ToNearest,
        },
    );
    calls.push(
        LoanCall::PartInterest {
            asset: setting.asset,
            interest: late.interest,
            management_fee_rate: setting.management_fee_rate,
            scale: loan.scale,
        },
    );
    calls.push(
        LoanCall::SumOfThree {
            first: one.principal,
            second: one.interest,
            third: one.management_fee,
        },
    );
    calls.push(
        LoanCall::SumOfFour {
            first: one.management_fee,
            second: loan.service_fee,
            third: loan.late_payment_fee,
            fourth: late.management_fee,
        },
    );
    calls.push(
        LoanCall::SumOfFour {
            first: late.tracked_due,
            second: loan.service_fee,
            third: loan.late_payment_fee,
            fourth: late.interest,
        },
    );
    assert(calls@ =~= old(calls)@ + late_calls(*loan, *setting, *answers));
    if offered.amount < late.total_due {
        return Err(Ter::TEC_INSUFFICIENT_PAYMENT);
    }
    calls.push(LoanCall::Sum { first: one.interest, second: late.net_interest });
    Ok(
        PaymentParts {
            principal: one.principal,
            interest: late.interest_paid,
            management_fee: one.management_fee,
            fee: late.fee,
            value_change: late.net_interest,
            periods: 1,
            periodic_payment: None,
        },
    )
}

fn divide_full(
    loan: &LoanTerms,
    setting: &PaymentSetting,
    offered: &Offered,
    answers: &PaymentAnswers,
    calls: &mut Vec<LoanCall>,
) -> (r: Result<PaymentParts, Ter>)
    ensures
        r == full_parts(*loan, *setting, *offered, *answers).result,
        final(calls)@ == old(calls)@ + full_parts(*loan, *setting, *offered, *answers).calls,
{
    if loan.payments_remaining <= 1 {
        return Err(Ter::TEC_KILLED);
    }
    let full = &answers.full;
    calls.push(
        LoanCall::DifferenceOfThree {
            from: loan.total_value_outstanding,
            first: loan.principal_outstanding,
            second: loan.management_fee_outstanding,
        },
    );
    calls.push(
        LoanCall::PeriodicRate {
            interest_rate: loan.interest_rate,
            payment_interval: loan.payment_interval,
        },
    );
    calls.push(
        LoanCall::FullPayment(
            FullQuery {
                asset: setting.asset,
                scale: loan.scale,
                close_time: setting.close_time,
                outstanding_interest: floor_zero(full.beyond_principal),
                periodic_payment: loan.periodic_payment,
                periodic_rate: full.periodic_rate,
                payments_remaining: loan.payments_remaining,
                previous_payment_date: loan.previous_payment_date,
                start_date: loan.start_date,
                payment_interval: loan.payment_interval,
                close_interest_rate: loan.close_interest_rate,
                close_payment_fee: loan.close_payment_fee,
                management_fee_rate: setting.management_fee_rate,
            },
        ),
    );
    calls.push(
        LoanCall::SumOfThree {
            first: loan.total_value_outstanding,
            second: full.value_change,
            third: full.fee,
        },
    );
    calls.push(
        LoanCall::Difference { from: full.gross_due, first: loan.management_fee_outstanding },
    );
    if offered.amount < full.due {
        return Err(Ter::TEC_INSUFFICIENT_PAYMENT);
    }
    Ok(
        PaymentParts {
            principal: loan.principal_outstanding,
            interest: full.interest,
            management_fee: loan.management_fee_outstanding,
            fee: full.fee,
            value_change: full.value_change,
            periods: loan.payments_remaining,
            periodic_payment: None,
        },
    )
}

fn ask_for_overpayment(
    loan: &LoanTerms,
    setting: &PaymentSetting,
    offered: &Offered,
    answers: &PaymentAnswers,
    calls: &mut Vec<LoanCall>,
)
    requires
        answers.scheduled.periods < loan.payments_remaining,
    ensures
        final(calls)@ == old(calls)@ + overpayment_calls(*loan, *setting, *offered, *answers),
{
    let scheduled = &answers.scheduled;
    let over = &answers.over;
    calls.push(
        LoanCall::DifferenceOfFour {
            from: loan.total_value_outstanding,
            first: scheduled.principal,
            second: scheduled.interest,
            third: scheduled.management_fee,
        },
    );
    calls.push(
        LoanCall::Difference { from: loan.principal_outstanding, first: scheduled.principal },
    );
    calls.push(
        LoanCall::Difference {
            from: loan.management_fee_outstanding,
            first: scheduled.management_fee,
        },
    );
    calls.push(LoanCall::Difference { from: offered.effective, first: over.scheduled_total });
    let total_left: i128 = floor_zero(over.total_left);
    let mut amount: i128 = min(over.remainder, total_left);
    if setting.fix_cleanup_3_2_0 {
        calls.push(
            LoanCall::Round {
                asset: setting.asset,
                number: amount,
                scale: loan.scale,
                mode: Rounding::Downward,
            },
        );
        amount = over.rounded_overpayment;
    }
    calls.push(
        LoanCall::PeriodicRate {
            interest_rate: loan.interest_rate,
            payment_interval: loan.payment_interval,
        },
    );
    let mut period = loan.period(setting);
    period.total_value = total_left;
    period.principal = floor_zero(over.principal_left);
    period.management_fee = floor_zero(over.management_fee_left);
    period.payments_remaining = loan.payments_remaining - scheduled.periods;
    let query = OverpaymentQuery {
        amount,
        period,
        periodic_rate: over.periodic_rate,
        overpayment_interest_rate: loan.overpayment_interest_rate,
        overpayment_fee_rate: loan.overpayment_fee_rate,
    };
    assert(query == overpayment_query(*loan, *setting, *answers));
    calls.push(LoanCall::Reamortize(query));
    if let Some(extra) = over.extra {
        calls.push(LoanCall::Sum { first: scheduled.principal, second: extra.principal });
        calls.push(LoanCall::Sum { first: scheduled.interest, second: extra.interest });
        calls.push(
            LoanCall::Sum { first: scheduled.management_fee, second: extra.management_fee },
        );
        calls.push(LoanCall::Sum { first: scheduled.fee, second: extra.fee });
        calls.push(LoanCall::Sum { first: scheduled.value_change, second: extra.value_change });
    }
    assert(calls@ =~= old(calls)@ + overpayment_calls(*loan, *setting, *offered, *answers));
}

fn divide_over(
    loan: &LoanTerms,
    setting: &PaymentSetting,
    offered: &Offered,
    answers: &PaymentAnswers,
    calls: &mut Vec<LoanCall>,
) -> (r: Result<PaymentParts, Ter>)
    ensures
        r == over_parts(*loan, *setting, *offered, *answers).result,
        final(calls)@ == old(calls)@ + over_parts(*loan, *setting, *offered, *answers).calls,
{
    if offered.regular_payment <= 0 {
        return Ok(PaymentParts::principal_only(min(offered.effective, loan.principal_outstanding)));
    }
    let over = &answers.over;
    let mut parts = answers.scheduled;
    parts.periodic_payment = None;
    calls.push(
        LoanCall::Schedule {
            offered: offered.effective,
            service_fee: loan.service_fee,
            period: loan.period(setting),
        },
    );
    calls.push(
        LoanCall::SumOfThree { first: parts.principal, second: parts.interest, third: parts.fee },
    );
    if loan.overpayment_allowed && parts.periods < loan.payments_remaining && over.scheduled_total
        < offered.effective && parts.periods < LOAN_MAXIMUM_PAYMENTS_PER_TRANSACTION {
        ask_for_overpayment(loan, setting, offered, answers, calls);
        if let Some(extra) = over.extra {
            parts.principal = over.principal;
            parts.interest = over.interest;
            parts.management_fee = over.management_fee;
            parts.fee = over.fee;
            parts.value_change = over.value_change;
            parts.periodic_payment = Some(extra.periodic_payment);
        }
    }
    if parts.periods < 1 {
        parts.periods = 1;
    }
    assert(calls@ =~= old(calls)@ + over_parts(*loan, *setting, *offered, *answers).calls);
    Ok(parts)
}

/// Divides a payment. What is asked for on the way is added to the calls.
pub fn payment_parts(
    payment_type: LoanPayPaymentType,
    loan: &LoanTerms,
    setting: &PaymentSetting,
    offered: &Offered,
    answers: &PaymentAnswers,
    calls: &mut Vec<LoanCall>,
) -> (r: Result<PaymentParts, Ter>)
    ensures
        r == divided(payment_type, *loan, *setting, *offered, *answers).result,
        final(calls)@ == old(calls)@ + divided(
            payment_type,
            *loan,
            *setting,
            *offered,
            *answers,
        ).calls,
{
    match payment_type {
        LoanPayPaymentType::Regular => divide_regular(loan, setting, offered, answers, calls),
        LoanPayPaymentType::Late => divide_late(loan, setting, offered, answers, calls),
        LoanPayPaymentType::Full => divide_full(loan, setting, offered, answers, calls),
        LoanPayPaymentType::Overpayment => divide_over(loan, setting, offered, answers, calls),
    }
}

/// A payment in full pays back all that was lent and leaves no scheduled payment.
pub proof fn full_payment_settles_the_loan(
    loan: LoanTerms,
    setting: PaymentSetting,
    offered: Offered,
    answers: PaymentAnswers,
)
    ensures
        divided(LoanPayPaymentType::Full, loan, setting, offered, answers).result matches Ok(parts)
            ==> parts.principal == loan.principal_outstanding && parts.management_fee
            == loan.management_fee_outstanding && parts.periods == loan.payments_remaining,
{
}

/// Only where more than is due is paid does it matter what counts of the amount, and there the
/// amount itself does not.
pub proof fn effective_amount_counts_for_overpayments(
    payment_type: LoanPayPaymentType,
    loan: LoanTerms,
    setting: PaymentSetting,
    offered: Offered,
    other: Offered,
    answers: PaymentAnswers,
)
    requires
        offered.regular_payment == other.regular_payment,
        payment_type == LoanPayPaymentType::Overpayment ==> offered.effective == other.effective,
        payment_type != LoanPayPaymentType::Overpayment ==> offered.amount == other.amount,
    ensures
        divided(payment_type, loan, setting, offered, answers) == divided(
            payment_type,
            loan,
            setting,
            other,
            answers,
        ),
{
}

} // verus!
