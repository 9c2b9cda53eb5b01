//! What paying on a loan asks for.
use vstd::prelude::*;
use crate::amount::Asset;
use crate::ids::{AccountID, Uint256};
use crate::lending::loan_pay::LoanUpdate;
use crate::lending::parts::LoanPayPaymentType;
use crate::lending::views::{LpBrokerView, LpVaultView};

verus! {

/// Which way a number goes that has too many digits for a scale.
#[derive(Clone, Copy, Debug, PartialEq, Eq, Structural)]
pub enum Rounding {
    Upward,
    ToNearest,
    Downward,
}

/// What dividing a scheduled payment needs: what is owed, and on which terms.
#[derive(Clone, Copy, Debug, PartialEq, Eq, Structural)]
pub struct PeriodQuery {
    pub asset: Asset,
    pub scale: i32,
    pub total_value: i128,
    pub principal: i128,
    pub management_fee: i128,
    pub periodic_payment: i128,
    pub interest_rate: u32,
    pub payment_interval: u32,
    pub payments_remaining: u32,
    pub management_fee_rate: u16,
}

/// What dividing a payment in full needs.
#[derive(Clone, Copy, Debug, PartialEq, Eq, Structural)]
pub struct FullQuery {
    pub asset: Asset,
    pub scale: i32,
    pub close_time: u32,
    /// The interest that is still to come.
    pub outstanding_interest: i128,
    pub periodic_payment: i128,
    pub periodic_rate: i128,
    pub payments_remaining: u32,
    pub previous_payment_date: u32,
    pub start_date: u32,
    pub payment_interval: u32,
    pub close_interest_rate: u32,
    pub close_payment_fee: i128,
    pub management_fee_rate: u16,
}

/// What putting the rest of a payment into a loan needs.
#[derive(Clone, Copy, Debug, PartialEq, Eq, Structural)]
pub struct OverpaymentQuery {
    /// What is put into the loan.
    pub amount: i128,
    /// What is owed once the scheduled payments are done with.
    pub period: PeriodQuery,
    pub periodic_rate: i128,
    pub overpayment_interest_rate: u32,
    pub overpayment_fee_rate: u32,
}

/// One thing that is asked of the ledger, or of the calculations elsewhere, while a loan is being
/// paid.
#[derive(Clone, Copy, Debug, PartialEq, Eq, Structural)]
pub enum LoanCall {
    /// Check the fields of the transaction.
    Preflight { loan_id_is_zero: bool, amount_is_positive: bool, flags: u32 },
    /// How the loan is being paid, by the flags that are set.
    PaymentType { late: bool, full: bool, overpayment: bool },
    ReadLoan { id: Uint256 },
    ReadBroker { id: Uint256 },
    ReadVault { id: Uint256 },
    /// Take the loan out of its impairment.
    Unimpair { loan_id: Uint256, vault_id: Uint256, asset: Asset },
    /// The scale of what the vault has.
    VaultScale { vault_id: Uint256, asset: Asset },
    /// A number of the asset at a scale.
    Round { asset: Asset, number: i128, scale: i32, mode: Rounding },
    /// Numbers added up from the left.
    Sum { first: i128, second: i128 },
    SumOfThree { first: i128, second: i128, third: i128 },
    SumOfFour { first: i128, second: i128, third: i128, fourth: i128 },
    /// Numbers taken away from the left.
    Difference { from: i128, first: i128 },
    DifferenceOfThree { from: i128, first: i128, second: i128 },
    DifferenceOfFour { from: i128, first: i128, second: i128, third: i128 },
    /// What counts of an amount.
    Effective {
        payment_type: LoanPayPaymentType,
        fix_cleanup_3_1_3: bool,
        fix_cleanup_3_2_0: bool,
        asset: Asset,
        offered: i128,
        scale: i32,
    },
    /// Divide an amount among as many scheduled payments as it covers.
    Schedule { offered: i128, service_fee: i128, period: PeriodQuery },
    /// Whether the due date has passed.
    Expired { next_due: Option<u32> },
    /// Divide one scheduled payment.
    OnePayment(PeriodQuery),
    /// The interest for being late, on what was lent.
    LateInterest { principal: i128, rate: u32, close_time: u32, due_date: u32 },
    /// Part an interest into what the vault and what the broker gets of it.
    PartInterest { asset: Asset, interest: i128, management_fee_rate: u16, scale: i32 },
    /// The interest rate of one payment interval.
    PeriodicRate { interest_rate: u32, payment_interval: u32 },
    /// Divide a payment in full.
    FullPayment(FullQuery),
    /// Put what is left of a payment into the loan.
    Reamortize(OverpaymentQuery),
    /// The least cover that goes with so much debt.
    MinimumCover {
        asset: Asset,
        debt_total: i128,
        rate: u32,
        loan_scale: i32,
        vault_scale: i32,
        fix_cleanup_3_2_0: bool,
    },
    /// Whether an account is deeply frozen.
    DeepFrozen { account: AccountID, asset: Asset },
    /// Whether an account is still to be authorized.
    StrongAuth { account: AccountID, asset: Asset },
    /// Whether an account may be paid.
    CheckPayee { account: AccountID, asset: Asset },
    /// A number in the form in which it is sent, rounded down.
    Units { asset: Asset, number: i128 },
    /// Read the issuance of the token.
    Issuance { asset: Asset },
    /// Whether the issuer can send so much.
    SendLimit { outstanding: u64, maximum: u64, total: u64 },
    /// Send from the borrower to the vault and to whoever gets the fee.
    Send {
        borrower: AccountID,
        asset: Asset,
        vault_account: AccountID,
        to_vault: i128,
        payee: AccountID,
        to_broker: i128,
    },
    UpdateLoan { id: Uint256, asset: Asset, loan: LoanUpdate },
    UpdateVault { id: Uint256, asset: Asset, vault: LpVaultView },
    UpdateBroker { id: Uint256, asset: Asset, broker: LpBrokerView },
}

} // verus!
