//! A payment on a loan from end to end.
use vstd::prelude::*;
use crate::amount::Asset;
use crate::lending::calls::{LoanCall, Rounding};
use crate::lending::parts::{
    Divided, LoanPayPaymentType, LoanTerms, Offered, PaymentAnswers, PaymentParts, PaymentSetting,
    can_overpay, divided, overpayment_query, payment_parts, raw_overpayment,
};
use crate::lending::schedule::LoanSchedule;
use crate::lending::views::{LpBrokerView, LpVaultView, floor_zero, spec_floor_zero};
use crate::ids::{AccountID, Uint256};
use crate::submit::flags::{Present, Read};
use crate::ter::{Ter, is_tes_success};

verus! {

/// A loan, as paying it sees it.
#[derive(Clone, Copy, Debug, PartialEq, Eq, Structural)]
pub struct LoanFacts {
    pub broker_id: Uint256,
    pub terms: LoanTerms,
    pub impaired: bool,
}

/// What the issuance of a token allows its issuer to send.
#[derive(Clone, Copy, Debug, PartialEq, Eq, Structural)]
pub struct IssuanceCap {
    pub outstanding_amount: u64,
    pub maximum_amount: i64,
    /// What is to be sent goes beyond the maximum, as is answered where that is asked.
    pub exceeded: bool,
}

/// The flags of the transaction: those that only such a transaction has, and what they mean.
#[derive(Clone, Copy, Debug, PartialEq, Eq, Structural)]
pub struct LoanPayFlags {
    pub specific: u32,
    pub late: bool,
    pub full: bool,
    pub overpayment: bool,
}

/// What is answered once a payment has been divided: sums and differences, and numbers at a scale.
/// Each counts only where the question comes up.
#[derive(Clone, Copy, Debug, PartialEq, Eq, Structural)]
pub struct TransferAnswers {
    /// What the vault gets, and what is paid in all.
    pub to_vault: i128,
    pub total_paid: i128,
    /// The cover that the broker must have to be paid its fee.
    pub required_cover: i128,
    /// What the vault gets, rounded down to its scale, and what it then has.
    pub rounded_to_vault: i128,
    pub available_after: i128,
    pub total_after: i128,
    /// What is sent in all.
    pub sent: i128,
    /// By how much the debt falls, and what it comes to.
    pub debt_reduction: i128,
    pub debt_after: i128,
    pub cover_after: i128,
    /// What is left of the loan.
    pub principal_after: i128,
    pub management_fee_after: i128,
    /// What the payment takes off the value of the loan: before and after that value changes.
    pub tracked_paid: i128,
    pub value_paid: i128,
    pub value_after: i128,
}

/// What the ledger and the calculations elsewhere answer while a loan is being paid. Each answer
/// counts only where the question comes up.
#[derive(Clone, Copy, Debug)]
pub struct LoanPayRun {
    pub lending_enabled: bool,
    pub dependencies_enabled: bool,
    pub fix_cleanup_3_1_3: bool,
    pub fix_cleanup_3_2_0: bool,
    /// When the ledger before this one closed.
    pub close_time: u32,
    pub borrower: AccountID,
    pub loan_id: Uint256,
    pub amount: i128,
    pub flags: LoanPayFlags,
    pub preflight: Ter,
    pub payment_type: LoanPayPaymentType,
    pub loan: Read<LoanFacts>,
    pub broker: Read<LpBrokerView>,
    pub vault: Read<LpVaultView>,
    /// Taking the loan out of its impairment, and the loan and the vault after that.
    pub unimpair: Ter,
    pub loan_again: Read<LoanFacts>,
    pub vault_again: Read<LpVaultView>,
    pub vault_scale: i32,
    /// One scheduled payment at the scale of the loan, and with the service fee.
    pub rounded_periodic_payment: i128,
    pub regular_payment: i128,
    /// What counts of the amount where more than is due is paid.
    pub effective: i128,
    pub parts: PaymentAnswers,
    pub transfer_answers: TransferAnswers,
    pub owner_deep_frozen: Result<bool, Ter>,
    pub owner_requires_strong_auth: Result<bool, Ter>,
    pub pseudo_account_check: Ter,
    /// What the vault and the broker get, in whole tokens.
    pub vault_units: Option<i64>,
    pub broker_units: Option<i64>,
    pub issuance: Read<IssuanceCap>,
    /// What the vault and the broker get can be written down.
    pub to_vault_writable: bool,
    pub to_broker_writable: bool,
    pub transfer: Ter,
    /// Where the loan stands in its schedule by then; none where it has none any more.
    pub loan_now: Read<Option<LoanSchedule>>,
    pub loan_updated: bool,
    pub vault_now: Read<Present>,
    pub vault_updated: bool,
    pub broker_now: Read<Present>,
    pub broker_updated: bool,
}

/// The loan after a payment.
#[derive(Clone, Copy, Debug, PartialEq, Eq, Structural)]
pub struct LoanUpdate {
    pub principal_outstanding: i128,
    pub management_fee_outstanding: i128,
    pub total_value_outstanding: i128,
    /// The scheduled payment, where it changes.
    pub periodic_payment: Option<i128>,
    pub schedule: Option<LoanSchedule>,
}

/// What a payment moves.
#[derive(Clone, Copy, Debug, PartialEq, Eq, Structural)]
pub struct LoanPayment {
    pub to_vault: i128,
    pub to_broker: i128,
    /// Who gets the fee.
    pub broker_payee: AccountID,
    pub loan: LoanUpdate,
    pub vault: LpVaultView,
    pub broker: LpBrokerView,
}

/// What paying came to: a result, and the payment where it went through.
#[derive(Clone, Copy, Debug, PartialEq, Eq, Structural)]
pub struct LoanPayOutcome {
    pub result: Ter,
    pub payment: Option<LoanPayment>,
}

/// Loan, broker and vault, as the payment starts from them, and what the vault lends.
#[derive(Clone, Copy, Debug, PartialEq, Eq, Structural)]
pub struct LoanParties {
    pub loan: LoanFacts,
    pub broker_id: Uint256,
    pub broker: LpBrokerView,
    pub vault: LpVaultView,
    pub asset: Asset,
}

impl LoanPayRun {
    /// Loan, broker and vault as they were found, or why the payment does not start.
    pub open spec fn spec_found(self) -> Result<LoanParties, Ter> {
        if !self.lending_enabled || !self.dependencies_enabled {
            Err(Ter::TEM_DISABLED)
        } else if self.preflight != Ter::TES_SUCCESS {
            Err(self.preflight)
        } else {
            match (self.loan, self.broker, self.vault) {
                (Read::Found(loan), broker, vault) => if self.payment_type
                    == LoanPayPaymentType::Overpayment && !loan.terms.overpayment_allowed {
                    Err(
                        if self.fix_cleanup_3_1_3 {
                            Ter::TEC_NO_PERMISSION
                        } else {
                            Ter::TEM_INVALID_FLAG
                        },
                    )
                } else {
                    match (broker, vault) {
                        (Read::Found(broker), Read::Found(vault)) => if self.amount <= 0 {
                            Err(Ter::TEM_BAD_AMOUNT)
                        } else {
                            Ok(
                                LoanParties {
                                    loan,
                                    broker_id: loan.broker_id,
                                    broker,
                                    vault,
                                    asset: vault.asset,
                                },
                            )
                        },
                        _ => Err(Ter::TEF_BAD_LEDGER),
                    }
                },
                _ => Err(Ter::TEC_NO_ENTRY),
            }
        }
    }

    /// What is asked for to find loan, broker and vault, each by what the one before it names.
    #[verifier::opaque]
    pub open spec fn found_calls(self) -> Seq<LoanCall> {
        let preflight = LoanCall::Preflight {
            loan_id_is_zero: self.loan_id == Uint256::spec_zero(),
            amount_is_positive: self.amount > 0,
            flags: self.flags.specific,
        };
        let typed = LoanCall::PaymentType {
            late: self.flags.late,
            full: self.flags.full,
            overpayment: self.flags.overpayment,
        };
        let read_loan = LoanCall::ReadLoan { id: self.loan_id };
        if !self.lending_enabled || !self.dependencies_enabled {
            seq![]
        } else if self.preflight != Ter::TES_SUCCESS {
            seq![preflight]
        } else {
            seq![preflight, typed, read_loan] + match self.loan {
                Read::Found(loan) => if self.payment_type == LoanPayPaymentType::Overpayment
                    && !loan.terms.overpayment_allowed {
                    seq![]
                } else {
                    seq![LoanCall::ReadBroker { id: loan.broker_id }] + match self.broker {
                        Read::Found(broker) => seq![LoanCall::ReadVault { id: broker.vault_id }],
                        _ => seq![],
                    }
                },
                _ => seq![],
            }
        }
    }

    /// What the payment starts from, or why it does not start. An impaired loan is taken out of
    /// its impairment first, and read again together with its vault.
    pub open spec fn spec_parties(self) -> Result<LoanParties, Ter> {
        match self.spec_found() {
            Err(ter) => Err(ter),
            Ok(found) => if !found.loan.impaired {
                Ok(found)
            } else if self.unimpair != Ter::TES_SUCCESS {
                Err(self.unimpair)
            } else {
                match (self.loan_again, self.vault_again) {
                    (Read::Found(loan), Read::Found(vault)) => Ok(
                        LoanParties { loan, vault, ..found },
                    ),
                    _ => Err(Ter::TEF_BAD_LEDGER),
                }
            },
        }
    }

    /// What is asked for before the payment starts.
    pub open spec fn party_calls(self) -> Seq<LoanCall> {
        self.found_calls() + match self.spec_found() {
            Err(_) => seq![],
            Ok(found) => {
                let vault = found.broker.vault_id;
                let unimpair = LoanCall::Unimpair {
                    loan_id: self.loan_id,
                    vault_id: vault,
                    asset: found.asset,
                };
                let read_loan = LoanCall::ReadLoan { id: self.loan_id };
                if !found.loan.impaired {
                    seq![]
                } else if self.unimpair != Ter::TES_SUCCESS {
                    seq![unimpair]
                } else if !(self.loan_again is Found) {
                    seq![unimpair, read_loan]
                } else {
                    seq![unimpair, read_loan, LoanCall::ReadVault { id: vault }]
                }
            },
        }
    }

    /// What the payment is divided under.
    pub open spec fn spec_setting(self, parties: LoanParties) -> PaymentSetting {
        PaymentSetting {
            asset: parties.asset,
            management_fee_rate: parties.broker.management_fee_rate,
            close_time: self.close_time,
            fix_cleanup_3_2_0: self.fix_cleanup_3_2_0,
        }
    }

    pub open spec fn spec_offered(self) -> Offered {
        Offered {
            amount: self.amount,
            effective: self.effective,
            regular_payment: self.regular_payment,
        }
    }

    /// What is asked for to find out what is offered: what one scheduled payment takes, and what
    /// counts of the amount.
    #[verifier::opaque]
    pub open spec fn offered_calls(self, parties: LoanParties) -> Seq<LoanCall> {
        let terms = parties.loan.terms;
        seq![
            LoanCall::VaultScale { vault_id: parties.broker.vault_id, asset: parties.asset },
            LoanCall::Round {
                asset: parties.asset,
                number: terms.periodic_payment,
                scale: terms.scale,
                mode: Rounding::Upward,
            },
            LoanCall::Sum { first: self.rounded_periodic_payment, second: terms.service_fee },
            LoanCall::Effective {
                payment_type: self.payment_type,
                fix_cleanup_3_1_3: self.fix_cleanup_3_1_3,
                fix_cleanup_3_2_0: self.fix_cleanup_3_2_0,
                asset: parties.asset,
                offered: self.amount,
                scale: terms.scale,
            },
        ]
    }

    /// How the payment is divided.
    #[verifier::opaque]
    pub open spec fn spec_divided(self, parties: LoanParties) -> Divided {
        divided(
            self.payment_type,
            parties.loan.terms,
            self.spec_setting(parties),
            self.spec_offered(),
            self.parts,
        )
    }

    /// What is asked for to find out who gets the fee.
    #[verifier::opaque]
    pub open spec fn route_calls(self, parties: LoanParties) -> Seq<LoanCall> {
        let broker = parties.broker;
        let asset = parties.asset;
        let cover = LoanCall::MinimumCover {
            asset,
            debt_total: broker.debt_total,
            rate: broker.cover_rate_minimum,
            loan_scale: parties.loan.terms.scale,
            vault_scale: self.vault_scale,
            fix_cleanup_3_2_0: self.fix_cleanup_3_2_0,
        };
        let frozen = LoanCall::DeepFrozen { account: broker.owner, asset };
        let auth = LoanCall::StrongAuth { account: broker.owner, asset };
        match (self.owner_deep_frozen, self.owner_requires_strong_auth) {
            (Err(_), _) => seq![cover, frozen],
            (_, Err(_)) => seq![cover, frozen, auth],
            (Ok(deep), Ok(strong)) => if broker.cover_available
                >= self.transfer_answers.required_cover && !deep && !strong {
                seq![cover, frozen, auth]
            } else {
                seq![cover, frozen, auth, LoanCall::CheckPayee { account: broker.pseudo, asset }]
            },
        }
    }

    /// Whether the fee goes to the owner of the broker, or stays with the broker as cover.
    pub open spec fn spec_fee_route(self, broker: LpBrokerView) -> Result<bool, Ter> {
        match (self.owner_deep_frozen, self.owner_requires_strong_auth) {
            (Err(ter), _) => Err(ter),
            (_, Err(ter)) => Err(ter),
            (Ok(frozen), Ok(strong_auth)) => {
                let to_owner = broker.cover_available >= self.transfer_answers.required_cover
                    && !frozen && !strong_auth;
                if !to_owner && self.pseudo_account_check != Ter::TES_SUCCESS {
                    Err(self.pseudo_account_check)
                } else {
                    Ok(to_owner)
                }
            },
        }
    }

    /// The vault after the payment.
    pub open spec fn vault_after(self, vault: LpVaultView, parts: PaymentParts) -> LpVaultView {
        LpVaultView {
            assets_available: self.transfer_answers.available_after,
            assets_total: if parts.value_change != 0 {
                self.transfer_answers.total_after
            } else {
                vault.assets_total
            },
            ..vault
        }
    }

    /// The payment moves what the vault has, and leaves no more available than there is.
    pub open spec fn vault_precise(self, vault: LpVaultView, parts: PaymentParts) -> Option<Ter> {
        let after = self.vault_after(vault, parts);
        if after.assets_available > after.assets_total {
            Some(Ter::TEC_INTERNAL)
        } else if after.assets_available == vault.assets_available {
            Some(Ter::TEC_PRECISION_LOSS)
        } else if parts.value_change != 0 && after.assets_total == vault.assets_total {
            Some(Ter::TEC_PRECISION_LOSS)
        } else {
            None
        }
    }

    /// Why the vault cannot take the payment.
    pub open spec fn vault_fault(self, vault: LpVaultView, parts: PaymentParts) -> Option<Ter> {
        match self.vault_precise(vault, parts) {
            Some(ter) => Some(ter),
            None => if self.transfer_answers.sent > self.amount {
                Some(Ter::TEC_INSUFFICIENT_PAYMENT)
            } else {
                None
            },
        }
    }

    /// What is asked for to find out what the vault has after the payment.
    #[verifier::opaque]
    pub open spec fn vault_calls(self, parties: LoanParties, parts: PaymentParts) -> Seq<LoanCall> {
        let t = self.transfer_answers;
        seq![
            LoanCall::Round {
                asset: parties.asset,
                number: t.to_vault,
                scale: self.vault_scale,
                mode: Rounding::Downward,
            },
            LoanCall::Sum { first: parties.vault.assets_available, second: t.rounded_to_vault },
        ] + (if parts.value_change != 0 {
            seq![LoanCall::Sum { first: parties.vault.assets_total, second: parts.value_change }]
        } else {
            seq![]
        }) + if self.vault_precise(parties.vault, parts) is Some {
            seq![]
        } else {
            seq![LoanCall::Sum { first: t.rounded_to_vault, second: parts.fee }]
        }
    }

    /// The broker after the payment: less is owed to it, and a fee that does not go to its owner
    /// becomes cover.
    pub open spec fn broker_after(
        self,
        broker: LpBrokerView,
        parts: PaymentParts,
        to_owner: bool,
    ) -> LpBrokerView {
        LpBrokerView {
            debt_total: spec_floor_zero(self.transfer_answers.debt_after),
            cover_available: if !to_owner && parts.fee > 0 {
                self.transfer_answers.cover_after
            } else {
                broker.cover_available
            },
            ..broker
        }
    }

    /// What is asked for to find out what is owed to the broker, and what cover it has.
    #[verifier::opaque]
    pub open spec fn broker_calls(
        self,
        broker: LpBrokerView,
        parts: PaymentParts,
        to_owner: bool,
    ) -> Seq<LoanCall> {
        let t = self.transfer_answers;
        let reduction = LoanCall::Difference { from: t.to_vault, first: parts.value_change };
        let debt = LoanCall::Difference { from: broker.debt_total, first: t.debt_reduction };
        if !to_owner && parts.fee > 0 {
            seq![
                reduction,
                debt,
                LoanCall::Sum { first: broker.cover_available, second: parts.fee },
            ]
        } else {
            seq![reduction, debt]
        }
    }

    /// The borrower issues the token that it pays with, and the rules look at that.
    pub open spec fn issuer_pays(self, asset: Asset) -> bool {
        self.fix_cleanup_3_1_3 && (asset matches Asset::Mpt(id) && id.issuer == self.borrower)
    }

    /// What is asked for where the issuer of a token pays.
    #[verifier::opaque]
    pub open spec fn issuer_calls(self, asset: Asset, parts: PaymentParts) -> Seq<LoanCall> {
        let to_vault = self.transfer_answers.rounded_to_vault;
        if !self.issuer_pays(asset) {
            seq![]
        } else {
            units_calls(asset, to_vault) + if share_units(to_vault, self.vault_units) is None {
                seq![]
            } else {
                units_calls(asset, parts.fee) + match spec_issuer_send(
                    to_vault,
                    self.vault_units,
                    parts.fee,
                    self.broker_units,
                ) {
                    Err(_) => seq![],
                    Ok(total) => seq![LoanCall::Issuance { asset }] + match self.issuance {
                        Read::Found(cap) => if cap.maximum_amount >= 0 {
                            seq![
                                LoanCall::SendLimit {
                                    outstanding: cap.outstanding_amount,
                                    maximum: cap.maximum_amount as u64,
                                    total,
                                },
                            ]
                        } else {
                            seq![]
                        },
                        _ => seq![],
                    },
                }
            }
        }
    }

    /// Why the issuer of a token cannot send this much of it.
    pub open spec fn issuer_fault(self, asset: Asset, parts: PaymentParts) -> Option<Ter> {
        if !self.issuer_pays(asset) {
            None
        } else {
            match spec_issuer_send(
                self.transfer_answers.rounded_to_vault,
                self.vault_units,
                parts.fee,
                self.broker_units,
            ) {
                Err(ter) => Some(ter),
                Ok(_) => match self.issuance {
                    Read::Missing => Some(Ter::TEC_OBJECT_NOT_FOUND),
                    Read::Failed => Some(Ter::TEF_BAD_LEDGER),
                    Read::Found(cap) => if cap.maximum_amount < 0 {
                        Some(Ter::TEC_INTERNAL)
                    } else if cap.exceeded {
                        Some(Ter::TEC_PATH_DRY)
                    } else {
                        None
                    },
                },
            }
        }
    }

    /// The loan after a payment of these parts.
    pub open spec fn loan_after(self, parts: PaymentParts) -> LoanUpdate {
        let t = self.transfer_answers;
        LoanUpdate {
            principal_outstanding: t.principal_after,
            management_fee_outstanding: spec_floor_zero(t.management_fee_after),
            total_value_outstanding: spec_floor_zero(t.value_after),
            periodic_payment: parts.periodic_payment,
            schedule: match self.loan_now {
                Read::Found(Some(schedule)) => Some(
                    schedule.paid(parts.periods, self.payment_type == LoanPayPaymentType::Full),
                ),
                _ => None,
            },
        }
    }

    /// What is asked for to find out what is left of the loan, and to write it down.
    #[verifier::opaque]
    pub open spec fn loan_calls(self, parties: LoanParties, parts: PaymentParts) -> Seq<LoanCall> {
        let terms = parties.loan.terms;
        let t = self.transfer_answers;
        seq![
            LoanCall::Difference { from: terms.principal_outstanding, first: parts.principal },
            LoanCall::Difference {
                from: terms.management_fee_outstanding,
                first: parts.management_fee,
            },
            LoanCall::SumOfThree {
                first: parts.principal,
                second: parts.interest,
                third: parts.management_fee,
            },
            LoanCall::Difference { from: t.tracked_paid, first: parts.value_change },
            LoanCall::Difference { from: terms.total_value_outstanding, first: t.value_paid },
            LoanCall::UpdateLoan {
                id: self.loan_id,
                asset: parties.asset,
                loan: self.loan_after(parts),
            },
        ]
    }

    /// What is asked for to carry the payment out, in order, up to the first thing that fails.
    #[verifier::opaque]
    pub open spec fn write_calls(
        self,
        parties: LoanParties,
        parts: PaymentParts,
        payment: LoanPayment,
    ) -> Seq<LoanCall> {
        let asset = parties.asset;
        let vault_id = parties.broker.vault_id;
        let to_vault = LoanCall::Units { asset, number: payment.to_vault };
        let to_broker = LoanCall::Units { asset, number: payment.to_broker };
        let send = LoanCall::Send {
            borrower: self.borrower,
            asset,
            vault_account: parties.vault.pseudo,
            to_vault: payment.to_vault,
            payee: payment.broker_payee,
            to_broker: payment.to_broker,
        };
        let read_loan = LoanCall::ReadLoan { id: self.loan_id };
        let read_vault = LoanCall::ReadVault { id: vault_id };
        let vault = LoanCall::UpdateVault { id: vault_id, asset, vault: payment.vault };
        let read_broker = LoanCall::ReadBroker { id: parties.broker_id };
        let broker = LoanCall::UpdateBroker { id: parties.broker_id, asset, broker: payment.broker };
        if !self.to_vault_writable {
            seq![to_vault]
        } else if !self.to_broker_writable {
            seq![to_vault, to_broker]
        } else if !self.transfer.success() {
            seq![to_vault, to_broker, send]
        } else if !(self.loan_now is Found) {
            seq![to_vault, to_broker, send, read_loan]
        } else {
            seq![to_vault, to_broker, send, read_loan] + self.loan_calls(parties, parts)
                + if !self.loan_updated {
                seq![]
            } else if !(self.vault_now is Found) {
                seq![read_vault]
            } else if !self.vault_updated {
                seq![read_vault, vault]
            } else if !(self.broker_now is Found) {
                seq![read_vault, vault, read_broker]
            } else {
                seq![read_vault, vault, read_broker, broker]
            }
        }
    }

    /// Why the payment could not be written into the ledger.
    pub open spec fn write_fault(self) -> Option<Ter> {
        if !self.to_vault_writable || !self.to_broker_writable {
            Some(Ter::TEC_INTERNAL)
        } else if !self.transfer.success() {
            Some(self.transfer)
        } else if !(self.loan_now is Found) || !self.loan_updated || !(self.vault_now is Found)
            || !self.vault_updated || !(self.broker_now is Found) || !self.broker_updated {
            Some(Ter::TEF_BAD_LEDGER)
        } else {
            None
        }
    }

    /// The payment of these parts.
    pub open spec fn payment_of(
        self,
        parties: LoanParties,
        parts: PaymentParts,
        to_owner: bool,
    ) -> LoanPayment {
        LoanPayment {
            to_vault: self.transfer_answers.rounded_to_vault,
            to_broker: parts.fee,
            broker_payee: if to_owner {
                parties.broker.owner
            } else {
                parties.broker.pseudo
            },
            loan: self.loan_after(parts),
            vault: self.vault_after(parties.vault, parts),
            broker: self.broker_after(parties.broker, parts, to_owner),
        }
    }

    /// What a payment of these parts comes to.
    pub open spec fn paid(self, parties: LoanParties, parts: PaymentParts) -> LoanPayOutcome {
        match self.spec_fee_route(parties.broker) {
            Err(ter) => unpaid(ter),
            Ok(to_owner) => if let Some(ter) = self.vault_fault(parties.vault, parts) {
                unpaid(ter)
            } else if let Some(ter) = self.issuer_fault(parties.asset, parts) {
                unpaid(ter)
            } else if let Some(ter) = self.write_fault() {
                unpaid(ter)
            } else {
                LoanPayOutcome {
                    result: Ter::TES_SUCCESS,
                    payment: Some(self.payment_of(parties, parts, to_owner)),
                }
            },
        }
    }

    /// What is asked for once it is clear that something is paid.
    pub open spec fn payment_calls(self, parties: LoanParties, parts: PaymentParts) -> Seq<LoanCall> {
        self.route_calls(parties) + match self.spec_fee_route(parties.broker) {
            Err(_) => seq![],
            Ok(to_owner) => self.vault_calls(parties, parts) + if self.vault_fault(
                parties.vault,
                parts,
            ) is Some {
                seq![]
            } else {
                self.broker_calls(parties.broker, parts, to_owner) + self.issuer_calls(
                    parties.asset,
                    parts,
                ) + if self.issuer_fault(parties.asset, parts) is Some {
                    seq![]
                } else {
                    self.write_calls(parties, parts, self.payment_of(parties, parts, to_owner))
                }
            },
        }
    }

    /// What is asked for to find out what is paid in all.
    pub open spec fn total_calls(self, parts: PaymentParts) -> Seq<LoanCall> {
        seq![
            LoanCall::Sum { first: parts.principal, second: parts.interest },
            LoanCall::Sum { first: self.transfer_answers.to_vault, second: parts.fee },
        ]
    }

    /// What paying comes to.
    pub open spec fn outcome(self) -> LoanPayOutcome {
        match self.spec_parties() {
            Err(ter) => unpaid(ter),
            Ok(parties) => match self.spec_divided(parties).result {
                Err(ter) => unpaid(ter),
                Ok(parts) => if self.transfer_answers.total_paid <= 0 {
                    unpaid(Ter::TEC_INSUFFICIENT_PAYMENT)
                } else {
                    self.paid(parties, parts)
                },
            },
        }
    }

    /// All that is asked for, in order.
    pub open spec fn calls(self) -> Seq<LoanCall> {
        self.party_calls() + match self.spec_parties() {
            Err(_) => seq![],
            Ok(parties) => self.offered_calls(parties) + self.spec_divided(parties).calls
                + match self.spec_divided(parties).result {
                Err(_) => seq![],
                Ok(parts) => self.total_calls(parts) + if self.transfer_answers.total_paid <= 0 {
                    seq![]
                } else {
                    self.payment_calls(parties, parts)
                },
            },
        }
    }
}

pub open spec fn unpaid(ter: Ter) -> LoanPayOutcome {
    LoanPayOutcome { result: ter, payment: None }
}

/// What one share adds to what is sent: nothing where there is nothing of it.
pub open spec fn share_units(value: i128, units: Option<i64>) -> Option<u64> {
    if value <= 0 {
        Some(0)
    } else {
        match units {
            Some(units) => if units >= 0 {
                Some(units as u64)
            } else {
                None
            },
            None => None,
        }
    }
}

pub open spec fn spec_issuer_send(
    to_vault: i128,
    vault_units: Option<i64>,
    to_broker: i128,
    broker_units: Option<i64>,
) -> Result<u64, Ter> {
    match (share_units(to_vault, vault_units), share_units(to_broker, broker_units)) {
        (Some(vault), Some(broker)) => if vault + broker > u64::MAX {
            Err(Ter::TEC_PATH_DRY)
        } else {
            Ok((vault + broker) as u64)
        },
        _ => Err(Ter::TEC_INTERNAL),
    }
}

/// A share is asked for in whole tokens only where there is something of it.
pub open spec fn units_calls(asset: Asset, value: i128) -> Seq<LoanCall> {
    if value <= 0 {
        seq![]
    } else {
        seq![LoanCall::Units { asset, number: value }]
    }
}

fn share_in_units(asset: Asset, value: i128, units: Option<i64>, calls: &mut Vec<LoanCall>) -> (r:
    Option<u64>)
    ensures
        r == share_units(value, units),
        final(calls)@ == old(calls)@ + units_calls(asset, value),
{
    if value <= 0 {
        return Some(0);
    }
    calls.push(LoanCall::Units { asset, number: value });
    match units {
        Some(units) => if units >= 0 {
            Some(units as u64)
        } else {
            None
        },
        None => None,
    }
}

fn find_parties(run: &LoanPayRun, calls: &mut Vec<LoanCall>) -> (r: Result<LoanParties, Ter>)
    ensures
        r == run.spec_found(),
        final(calls)@ == old(calls)@ + run.found_calls(),
{
    proof {
        reveal(LoanPayRun::found_calls);
    }
    if !run.lending_enabled || !run.dependencies_enabled {
        return Err(Ter::TEM_DISABLED);
    }
    calls.push(
        LoanCall::Preflight {
            loan_id_is_zero: run.loan_id.is_zero(),
            amount_is_positive: run.amount > 0,
            flags: run.flags.specific,
        },
    );
    if run.preflight != Ter::TES_SUCCESS {
        return Err(run.preflight);
    }
    calls.push(
        LoanCall::PaymentType {
            late: run.flags.late,
            full: run.flags.full,
            overpayment: run.flags.overpayment,
        },
    );
    calls.push(LoanCall::ReadLoan { id: run.loan_id });
    let loan = match run.loan {
        Read::Found(loan) => loan,
        _ => {
            return Err(Ter::TEC_NO_ENTRY);
        },
    };
    if run.payment_type == LoanPayPaymentType::Overpayment && !loan.terms.overpayment_allowed {
        return if run.fix_cleanup_3_1_3 {
            Err(Ter::TEC_NO_PERMISSION)
        } else {
            Err(Ter::TEM_INVALID_FLAG)
        };
    }
    calls.push(LoanCall::ReadBroker { id: loan.broker_id });
    let broker = match run.broker {
        Read::Found(broker) => broker,
        _ => {
            return Err(Ter::TEF_BAD_LEDGER);
        },
    };
    calls.push(LoanCall::ReadVault { id: broker.vault_id });
    let vault = match run.vault {
        Read::Found(vault) => vault,
        _ => {
            return Err(Ter::TEF_BAD_LEDGER);
        },
    };
    if run.amount <= 0 {
        return Err(Ter::TEM_BAD_AMOUNT);
    }
    Ok(LoanParties { loan, broker_id: loan.broker_id, broker, vault, asset: vault.asset })
}

fn load_parties(run: &LoanPayRun, calls: &mut Vec<LoanCall>) -> (r: Result<LoanParties, Ter>)
    ensures
        r == run.spec_parties(),
        final(calls)@ == old(calls)@ + run.party_calls(),
{
    let mut parties = match find_parties(run, calls) {
        Ok(found) => found,
        Err(ter) => {
            return Err(ter);
        },
    };
    if !parties.loan.impaired {
        return Ok(parties);
    }
    let vault_id = parties.broker.vault_id;
    calls.push(
        LoanCall::Unimpair { loan_id: run.loan_id, vault_id, asset: parties.asset },
    );
    if run.unimpair != Ter::TES_SUCCESS {
        return Err(run.unimpair);
    }
    calls.push(LoanCall::ReadLoan { id: run.loan_id });
    parties.loan = match run.loan_again {
        Read::Found(loan) => loan,
        _ => {
            return Err(Ter::TEF_BAD_LEDGER);
        },
    };
    calls.push(LoanCall::ReadVault { id: vault_id });
    parties.vault = match run.vault_again {
        Read::Found(vault) => vault,
        _ => {
            return Err(Ter::TEF_BAD_LEDGER);
        },
    };
    Ok(parties)
}

fn divide_payment(run: &LoanPayRun, parties: &LoanParties, calls: &mut Vec<LoanCall>) -> (r: Result<
    PaymentParts,
    Ter,
>)
    ensures
        r == run.spec_divided(*parties).result,
        final(calls)@ == old(calls)@ + run.offered_calls(*parties) + run.spec_divided(
            *parties,
        ).calls,
{
    proof {
        reveal(LoanPayRun::offered_calls);
        reveal(LoanPayRun::spec_divided);
    }
    let terms = &parties.loan.terms;
    let asset = parties.asset;
    calls.push(LoanCall::VaultScale { vault_id: parties.broker.vault_id, asset });
    calls.push(
        LoanCall::Round {
            asset,
            number: terms.periodic_payment,
            scale: terms.scale,
            mode: Rounding::Upward,
        },
    );
    calls.push(
        LoanCall::Sum { first: run.rounded_periodic_payment, second: terms.service_fee },
    );
    calls.push(
        LoanCall::Effective {
            payment_type: run.payment_type,
            fix_cleanup_3_1_3: run.fix_cleanup_3_1_3,
            fix_cleanup_3_2_0: run.fix_cleanup_3_2_0,
            asset,
            offered: run.amount,
            scale: terms.scale,
        },
    );
    assert(calls@ =~= old(calls)@ + run.offered_calls(*parties));
    let setting = PaymentSetting {
        asset,
        management_fee_rate: parties.broker.management_fee_rate,
        close_time: run.close_time,
        fix_cleanup_3_2_0: run.fix_cleanup_3_2_0,
    };
    let offered = Offered {
        amount: run.amount,
        effective: run.effective,
        regular_payment: run.regular_payment,
    };
    payment_parts(run.payment_type, terms, &setting, &offered, &run.parts, calls)
}

/// Whether the fee goes to the owner of the broker: only one with enough cover, that is neither
/// frozen nor still to be authorized, is paid out. What is asked for on the way is added to the
/// calls.
pub fn send_fee_to_owner(run: &LoanPayRun, parties: &LoanParties, calls: &mut Vec<LoanCall>) -> (r:
    Result<bool, Ter>)
    ensures
        r == run.spec_fee_route(parties.broker),
        final(calls)@ == old(calls)@ + run.route_calls(*parties),
{
    proof {
        reveal(LoanPayRun::route_calls);
    }
    let broker = &parties.broker;
    let asset = parties.asset;
    calls.push(
        LoanCall::MinimumCover {
            asset,
            debt_total: broker.debt_total,
            rate: broker.cover_rate_minimum,
            loan_scale: parties.loan.terms.scale,
            vault_scale: run.vault_scale,
            fix_cleanup_3_2_0: run.fix_cleanup_3_2_0,
        },
    );
    calls.push(LoanCall::DeepFrozen { account: broker.owner, asset });
    let frozen = match run.owner_deep_frozen {
        Ok(frozen) => frozen,
        Err(ter) => {
            return Err(ter);
        },
    };
    calls.push(LoanCall::StrongAuth { account: broker.owner, asset });
    let strong_auth = match run.owner_requires_strong_auth {
        Ok(required) => required,
        Err(ter) => {
            return Err(ter);
        },
    };
    let to_owner = broker.cover_available >= run.transfer_answers.required_cover && !frozen
        && !strong_auth;
    if !to_owner {
        calls.push(LoanCall::CheckPayee { account: broker.pseudo, asset });
        if run.pseudo_account_check != Ter::TES_SUCCESS {
            return Err(run.pseudo_account_check);
        }
    }
    Ok(to_owner)
}

fn update_vault(
    run: &LoanPayRun,
    parties: &LoanParties,
    parts: &PaymentParts,
    calls: &mut Vec<LoanCall>,
) -> (r: Result<LpVaultView, Ter>)
    ensures
        r == (match run.vault_fault(parties.vault, *parts) {
            Some(ter) => Err::<LpVaultView, Ter>(ter),
            None => Ok(run.vault_after(parties.vault, *parts)),
        }),
        final(calls)@ == old(calls)@ + run.vault_calls(*parties, *parts),
{
    proof {
        reveal(LoanPayRun::vault_calls);
    }
    let vault = &parties.vault;
    let answers = &run.transfer_answers;
    let mut after = *vault;
    calls.push(
        LoanCall::Round {
            asset: parties.asset,
            number: answers.to_vault,
            scale: run.vault_scale,
            mode: Rounding::Downward,
        },
    );
    calls.push(LoanCall::Sum { first: vault.assets_available, second: answers.rounded_to_vault });
    after.assets_available = answers.available_after;
    if parts.value_change != 0 {
        calls.push(LoanCall::Sum { first: vault.assets_total, second: parts.value_change });
        after.assets_total = answers.total_after;
    }
    if after.assets_available_exceeds_total() {
        return Err(Ter::TEC_INTERNAL);
    }
    if after.assets_available == vault.assets_available {
        return Err(Ter::TEC_PRECISION_LOSS);
    }
    if parts.value_change != 0 && after.assets_total == vault.assets_total {
        return Err(Ter::TEC_PRECISION_LOSS);
    }
    calls.push(LoanCall::Sum { first: answers.rounded_to_vault, second: parts.fee });
    if answers.sent > run.amount {
        return Err(Ter::TEC_INSUFFICIENT_PAYMENT);
    }
    Ok(after)
}

fn update_broker(
    run: &LoanPayRun,
    broker: &LpBrokerView,
    parts: &PaymentParts,
    to_owner: bool,
    calls: &mut Vec<LoanCall>,
) -> (r: LpBrokerView)
    ensures
        r == run.broker_after(*broker, *parts, to_owner),
        final(calls)@ == old(calls)@ + run.broker_calls(*broker, *parts, to_owner),
{
    proof {
        reveal(LoanPayRun::broker_calls);
    }
    let answers = &run.transfer_answers;
    let mut after = *broker;
    calls.push(LoanCall::Difference { from: answers.to_vault, first: parts.value_change });
    calls.push(LoanCall::Difference { from: broker.debt_total, first: answers.debt_reduction });
    after.adjust_debt_total(answers.debt_after);
    if !to_owner && parts.fee > 0 {
        calls.push(LoanCall::Sum { first: broker.cover_available, second: parts.fee });
        after.add_cover_available(answers.cover_after);
    }
    after
}

fn issuer_is_borrower(run: &LoanPayRun, asset: Asset) -> (r: bool)
    ensures
        r == run.issuer_pays(asset),
{
    match asset {
        Asset::Mpt(id) => run.fix_cleanup_3_1_3 && id.issuer == run.borrower,
        _ => false,
    }
}

fn check_issuer(
    run: &LoanPayRun,
    asset: Asset,
    parts: &PaymentParts,
    calls: &mut Vec<LoanCall>,
) -> (r: Option<Ter>)
    ensures
        r == run.issuer_fault(asset, *parts),
        final(calls)@ == old(calls)@ + run.issuer_calls(asset, *parts),
{
    proof {
        reveal(LoanPayRun::issuer_calls);
    }
    if !issuer_is_borrower(run, asset) {
        return None;
    }
    let vault: u64 = match share_in_units(
        asset,
        run.transfer_answers.rounded_to_vault,
        run.vault_units,
        calls,
    ) {
        Some(units) => units,
        None => {
            return Some(Ter::TEC_INTERNAL);
        },
    };
    let broker: u64 = match share_in_units(asset, parts.fee, run.broker_units, calls) {
        Some(units) => units,
        None => {
            return Some(Ter::TEC_INTERNAL);
        },
    };
    let total: u64 = match vault.checked_add(broker) {
        Some(total) => total,
        None => {
            return Some(Ter::TEC_PATH_DRY);
        },
    };
    calls.push(LoanCall::Issuance { asset });
    match run.issuance {
        Read::Missing => Some(Ter::TEC_OBJECT_NOT_FOUND),
        Read::Failed => Some(Ter::TEF_BAD_LEDGER),
        Read::Found(cap) => {
            if cap.maximum_amount < 0 {
                return Some(Ter::TEC_INTERNAL);
            }
            calls.push(
                LoanCall::SendLimit {
                    outstanding: cap.outstanding_amount,
                    maximum: cap.maximum_amount as u64,
                    total,
                },
            );
            if cap.exceeded {
                Some(Ter::TEC_PATH_DRY)
            } else {
                None
            }
        },
    }
}

fn update_loan(run: &LoanPayRun, parts: &PaymentParts) -> (r: LoanUpdate)
    ensures
        r == run.loan_after(*parts),
{
    let answers = &run.transfer_answers;
    let schedule = match run.loan_now {
        Read::Found(Some(schedule)) => {
            let mut schedule = schedule;
            schedule.advance(parts.periods, run.payment_type == LoanPayPaymentType::Full);
            Some(schedule)
        },
        _ => None,
    };
    LoanUpdate {
        principal_outstanding: answers.principal_after,
        management_fee_outstanding: floor_zero(answers.management_fee_after),
        total_value_outstanding: floor_zero(answers.value_after),
        periodic_payment: parts.periodic_payment,
        schedule,
    }
}

fn write_loan(
    run: &LoanPayRun,
    parties: &LoanParties,
    parts: &PaymentParts,
    loan: LoanUpdate,
    calls: &mut Vec<LoanCall>,
)
    requires
        loan == run.loan_after(*parts),
    ensures
        final(calls)@ == old(calls)@ + run.loan_calls(*parties, *parts),
{
    proof {
        reveal(LoanPayRun::loan_calls);
    }
    let terms = &parties.loan.terms;
    let answers = &run.transfer_answers;
    calls.push(
        LoanCall::Difference { from: terms.principal_outstanding, first: parts.principal },
    );
    calls.push(
        LoanCall::Difference {
            from: terms.management_fee_outstanding,
            first: parts.management_fee,
        },
    );
    calls.push(
        LoanCall::SumOfThree {
            first: parts.principal,
            second: parts.interest,
            third: parts.management_fee,
        },
    );
    calls.push(LoanCall::Difference { from: answers.tracked_paid, first: parts.value_change });
    calls.push(
        LoanCall::Difference { from: terms.total_value_outstanding, first: answers.value_paid },
    );
    calls.push(LoanCall::UpdateLoan { id: run.loan_id, asset: parties.asset, loan });
}

fn write_payment(
    run: &LoanPayRun,
    parties: &LoanParties,
    parts: &PaymentParts,
    payment: &LoanPayment,
    calls: &mut Vec<LoanCall>,
) -> (r: Option<Ter>)
    requires
        payment.loan == run.loan_after(*parts),
    ensures
        r == run.write_fault(),
        final(calls)@ == old(calls)@ + run.write_calls(*parties, *parts, *payment),
{
    proof {
        reveal(LoanPayRun::write_calls);
    }
    let asset = parties.asset;
    calls.push(LoanCall::Units { asset, number: payment.to_vault });
    if !run.to_vault_writable {
        return Some(Ter::TEC_INTERNAL);
    }
    calls.push(LoanCall::Units { asset, number: payment.to_broker });
    if !run.to_broker_writable {
        return Some(Ter::TEC_INTERNAL);
    }
    calls.push(
        LoanCall::Send {
            borrower: run.borrower,
            asset,
            vault_account: parties.vault.pseudo,
            to_vault: payment.to_vault,
            payee: payment.broker_payee,
            to_broker: payment.to_broker,
        },
    );
    if !is_tes_success(run.transfer) {
        return Some(run.transfer);
    }
    calls.push(LoanCall::ReadLoan { id: run.loan_id });
    if !matches!(run.loan_now, Read::Found(_)) {
        return Some(Ter::TEF_BAD_LEDGER);
    }
    write_loan(run, parties, parts, payment.loan, calls);
    if !run.loan_updated {
        return Some(Ter::TEF_BAD_LEDGER);
    }
    let vault_id = parties.broker.vault_id;
    calls.push(LoanCall::ReadVault { id: vault_id });
    if !matches!(run.vault_now, Read::Found(_)) {
        return Some(Ter::TEF_BAD_LEDGER);
    }
    calls.push(LoanCall::UpdateVault { id: vault_id, asset, vault: payment.vault });
    if !run.vault_updated {
        return Some(Ter::TEF_BAD_LEDGER);
    }
    calls.push(LoanCall::ReadBroker { id: parties.broker_id });
    if !matches!(run.broker_now, Read::Found(_)) {
        return Some(Ter::TEF_BAD_LEDGER);
    }
    calls.push(LoanCall::UpdateBroker { id: parties.broker_id, asset, broker: payment.broker });
    if !run.broker_updated {
        return Some(Ter::TEF_BAD_LEDGER);
    }
    None
}

fn carry_out(
    run: &LoanPayRun,
    parties: &LoanParties,
    parts: &PaymentParts,
    calls: &mut Vec<LoanCall>,
) -> (r: LoanPayOutcome)
    ensures
        r == run.paid(*parties, *parts),
        final(calls)@ == old(calls)@ + run.payment_calls(*parties, *parts),
{
    let to_owner = match send_fee_to_owner(run, parties, calls) {
        Ok(to_owner) => to_owner,
        Err(ter) => {
            return LoanPayOutcome { result: ter, payment: None };
        },
    };
    let vault = match update_vault(run, parties, parts, calls) {
        Ok(vault) => vault,
        Err(ter) => {
            return LoanPayOutcome { result: ter, payment: None };
        },
    };
    let broker = update_broker(run, &parties.broker, parts, to_owner, calls);
    if let Some(ter) = check_issuer(run, parties.asset, parts, calls) {
        return LoanPayOutcome { result: ter, payment: None };
    }
    let payment = LoanPayment {
        to_vault: run.transfer_answers.rounded_to_vault,
        to_broker: parts.fee,
        broker_payee: if to_owner {
            parties.broker.owner
        } else {
            parties.broker.pseudo
        },
        loan: update_loan(run, parts),
        vault,
        broker,
    };
    if let Some(ter) = write_payment(run, parties, parts, &payment, calls) {
        return LoanPayOutcome { result: ter, payment: None };
    }
    LoanPayOutcome { result: Ter::TES_SUCCESS, payment: Some(payment) }
}

/// Pays on a loan. What is asked for on the way is added to the calls.
pub fn apply_loan_pay(run: &LoanPayRun, calls: &mut Vec<LoanCall>) -> (r: LoanPayOutcome)
    ensures
        r == run.outcome(),
        final(calls)@ == old(calls)@ + run.calls(),
{
    let parties = match load_parties(run, calls) {
        Ok(parties) => parties,
        Err(ter) => {
            return LoanPayOutcome { result: ter, payment: None };
        },
    };
    let parts = match divide_payment(run, &parties, calls) {
        Ok(parts) => parts,
        Err(ter) => {
            return LoanPayOutcome { result: ter, payment: None };
        },
    };
    calls.push(LoanCall::Sum { first: parts.principal, second: parts.interest });
    calls.push(LoanCall::Sum { first: run.transfer_answers.to_vault, second: parts.fee });
    if run.transfer_answers.total_paid <= 0 {
        return LoanPayOutcome { result: Ter::TEC_INSUFFICIENT_PAYMENT, payment: None };
    }
    carry_out(run, &parties, &parts, calls)
}

/// A payment that goes through sends no more than was offered, by the sum that was asked for, and
/// something was offered.
pub proof fn payment_is_within_the_amount(run: LoanPayRun)
    ensures
        run.outcome().payment is Some ==> run.transfer_answers.sent <= run.amount && run.amount > 0
            && run.transfer_answers.total_paid > 0,
{
}

/// A payment that goes through never leaves a vault with more available than it has, and never
/// leaves what it has available unchanged.
pub proof fn vault_stays_covered(run: LoanPayRun)
    ensures
        run.outcome().payment matches Some(payment) ==> payment.vault.assets_available
            <= payment.vault.assets_total,
        run.outcome().payment matches Some(payment) ==> (run.spec_parties() matches Ok(parties)
            && payment.vault.assets_available != parties.vault.assets_available),
{
}

/// Neither what a loan is worth nor what is owed to its broker ever falls below zero.
pub proof fn balances_never_fall_below_zero(run: LoanPayRun)
    ensures
        run.outcome().payment matches Some(payment) ==> payment.loan.total_value_outstanding >= 0
            && payment.loan.management_fee_outstanding >= 0 && payment.broker.debt_total >= 0,
{
}

/// A payment in full takes all of the principal off the principal, and leaves no payment to come.
pub proof fn full_payment_ends_the_loan(run: LoanPayRun)
    requires
        run.payment_type == LoanPayPaymentType::Full,
    ensures
        run.outcome().payment matches Some(payment) ==> {
            &&& run.spec_parties() matches Ok(parties) && (run.spec_divided(parties).result matches Ok(
                parts,
            ) && parts.principal == parties.loan.terms.principal_outstanding)
            &&& payment.loan.schedule matches Some(schedule) ==> schedule.payments_remaining == 0
                && schedule.next_due_date == 0
        },
{
    reveal(LoanPayRun::spec_divided);
}

/// A payment is reported only together with a success.
pub proof fn refused_payments_move_nothing(run: LoanPayRun)
    ensures
        run.outcome().payment is Some ==> run.outcome().result == Ter::TES_SUCCESS,
        !run.outcome().result.success() ==> run.outcome().payment is None,
{
}

/// Digits of an amount that do not count do not matter: where more than is due is paid, two amounts
/// of which the same counts are paid in the same way. All that is asked for is the same, but for
/// the question what counts of the amount. This leaves out a payment that sends more than the one
/// amount and no more than the other.
pub proof fn digits_that_do_not_count_do_not_matter(run: LoanPayRun, amount: i128)
    requires
        run.payment_type == LoanPayPaymentType::Overpayment,
        run.amount > 0,
        amount > 0,
        run.spec_parties() is Ok ==> (run.transfer_answers.sent <= run.amount) == (
        run.transfer_answers.sent <= amount),
    ensures
        ({
            let other = LoanPayRun { amount, ..run };
            &&& other.outcome() == run.outcome()
            &&& other.calls().len() == run.calls().len()
            &&& forall|i: int|
                0 <= i < run.calls().len() && !((#[trigger] run.calls()[i]) is Effective)
                    ==> other.calls()[i] == run.calls()[i]
        }),
{
    let other = LoanPayRun { amount, ..run };
    same_parties(run, amount);
    if let Ok(parties) = run.spec_parties() {
        let asked = run.offered_calls(parties);
        let other_asked = other.offered_calls(parties);
        assert(asked.len() == other_asked.len() && forall|i: int|
            0 <= i < asked.len() && !((#[trigger] asked[i]) is Effective) ==> other_asked[i]
                == asked[i]) by {
            reveal(LoanPayRun::offered_calls);
        }
        let parted = run.spec_divided(parties);
        same_division(run, amount, parties);
        let rest = match parted.result {
            Err(_) => Seq::<LoanCall>::empty(),
            Ok(parts) => run.total_calls(parts) + if run.transfer_answers.total_paid <= 0 {
                seq![]
            } else {
                run.payment_calls(parties, parts)
            },
        };
        if let Ok(parts) = parted.result {
            same_payment(run, amount, parties, parts);
        }
        let first = run.party_calls();
        assert(run.calls() =~= first + asked + parted.calls + rest);
        assert(other.calls() =~= first + other_asked + parted.calls + rest);
        assert forall|i: int|
            0 <= i < run.calls().len() && !((#[trigger] run.calls()[i]) is Effective) implies other.calls()[i]
            == run.calls()[i] by {
            let k = i - first.len();
            if 0 <= k < asked.len() {
                assert(run.calls()[i] == asked[k]);
                assert(other.calls()[i] == other_asked[k]);
            }
        }
    }
}

/// Of an amount only what counts is paid: where more than is due is paid, and what is sent is no more
/// than what counts of the amount, every amount of which the same counts is paid in the same way. One
/// of them is what counts itself, so that digits finer than the scale of the loan are as good as
/// absent. All that is asked for is the same, but for the question what counts of the amount.
pub proof fn only_what_counts_is_paid(run: LoanPayRun, amount: i128)
    requires
        run.payment_type == LoanPayPaymentType::Overpayment,
        0 < run.effective <= run.amount,
        run.effective <= amount,
        run.transfer_answers.sent <= run.effective,
    ensures
        ({
            let other = LoanPayRun { amount, ..run };
            &&& other.outcome() == run.outcome()
            &&& other.calls().len() == run.calls().len()
            &&& forall|i: int|
                0 <= i < run.calls().len() && !((#[trigger] run.calls()[i]) is Effective)
                    ==> other.calls()[i] == run.calls()[i]
        }),
{
    digits_that_do_not_count_do_not_matter(run, amount);
}

impl LoanPayRun {
    /// The calculations behind a payment of more than is due add up, with every number at one scale:
    /// sums are exact, what is rounded down does not grow, the scheduled payments take no more than
    /// they are offered, and what is put into the loan on top takes no more than it is.
    pub open spec fn adds_up(self, parties: LoanParties) -> bool {
        let terms = parties.loan.terms;
        let scheduled = self.parts.scheduled;
        let over = self.parts.over;
        let t = self.transfer_answers;
        let query = overpayment_query(terms, self.spec_setting(parties), self.parts);
        &&& self.regular_payment > 0 ==> {
            &&& over.scheduled_total == scheduled.principal + scheduled.interest + scheduled.fee
            &&& over.scheduled_total <= self.effective
        }
        &&& self.regular_payment > 0 && can_overpay(terms, self.spec_offered(), self.parts) ==> {
            &&& over.remainder == self.effective - over.scheduled_total
            &&& over.rounded_overpayment <= raw_overpayment(over)
            &&& over.extra matches Some(extra) ==> {
                &&& extra.principal + extra.interest + extra.fee <= query.amount
                &&& over.principal == scheduled.principal + extra.principal
                &&& over.interest == scheduled.interest + extra.interest
                &&& over.fee == scheduled.fee + extra.fee
            }
        }
        &&& self.spec_divided(parties).result matches Ok(parts) ==> {
            &&& t.to_vault == parts.principal + parts.interest
            &&& t.rounded_to_vault <= t.to_vault
            &&& t.sent == t.rounded_to_vault + parts.fee
        }
    }
}

/// Where the calculations add up, no more is sent than what counts of the amount.
pub proof fn sums_stay_within_what_counts(run: LoanPayRun, parties: LoanParties)
    requires
        run.payment_type == LoanPayPaymentType::Overpayment,
        run.adds_up(parties),
    ensures
        run.transfer_answers.sent <= run.effective,
{
    reveal(LoanPayRun::spec_divided);
}

/// Digits finer than the scale of the loan are as good as absent: where more than is due is paid and
/// the calculations add up, paying an amount and paying what counts of it come to the same, with the
/// same payments and the same entries written.
pub proof fn finer_digits_are_as_good_as_absent(run: LoanPayRun)
    requires
        run.payment_type == LoanPayPaymentType::Overpayment,
        0 < run.effective <= run.amount,
        run.spec_parties() matches Ok(parties) ==> run.adds_up(parties),
    ensures
        ({
            let counted = LoanPayRun { amount: run.effective, ..run };
            &&& counted.outcome() == run.outcome()
            &&& counted.calls().len() == run.calls().len()
            &&& forall|i: int|
                0 <= i < run.calls().len() && !((#[trigger] run.calls()[i]) is Effective)
                    ==> counted.calls()[i] == run.calls()[i]
        }),
{
    if let Ok(parties) = run.spec_parties() {
        sums_stay_within_what_counts(run, parties);
    }
    digits_that_do_not_count_do_not_matter(run, run.effective);
}

proof fn same_division(run: LoanPayRun, amount: i128, parties: LoanParties)
    requires
        run.payment_type == LoanPayPaymentType::Overpayment,
    ensures
        (LoanPayRun { amount, ..run }).spec_divided(parties) == run.spec_divided(parties),
{
    reveal(LoanPayRun::spec_divided);
}

proof fn same_parties(run: LoanPayRun, amount: i128)
    requires
        run.amount > 0,
        amount > 0,
    ensures
        (LoanPayRun { amount, ..run }).spec_parties() == run.spec_parties(),
        (LoanPayRun { amount, ..run }).party_calls() == run.party_calls(),
{
    reveal(LoanPayRun::found_calls);
}

proof fn same_payment(run: LoanPayRun, amount: i128, parties: LoanParties, parts: PaymentParts)
    requires
        (run.transfer_answers.sent <= run.amount) == (run.transfer_answers.sent <= amount),
    ensures
        (LoanPayRun { amount, ..run }).payment_calls(parties, parts) == run.payment_calls(
            parties,
            parts,
        ),
        (LoanPayRun { amount, ..run }).paid(parties, parts) == run.paid(parties, parts),
{
    let other = LoanPayRun { amount, ..run };
    assert(other.route_calls(parties) == run.route_calls(parties)) by {
        reveal(LoanPayRun::route_calls);
    }
    assert(other.vault_calls(parties, parts) == run.vault_calls(parties, parts)) by {
        reveal(LoanPayRun::vault_calls);
    }
    assert(other.issuer_calls(parties.asset, parts) == run.issuer_calls(parties.asset, parts)) by {
        reveal(LoanPayRun::issuer_calls);
    }
    if let Ok(to_owner) = run.spec_fee_route(parties.broker) {
        assert(other.broker_calls(parties.broker, parts, to_owner) == run.broker_calls(
            parties.broker,
            parts,
            to_owner,
        )) by {
            reveal(LoanPayRun::broker_calls);
        }
        let payment = run.payment_of(parties, parts, to_owner);
        assert(other.payment_of(parties, parts, to_owner) == payment);
        assert(other.write_calls(parties, parts, payment) == run.write_calls(
            parties,
            parts,
            payment,
        )) by {
            reveal(LoanPayRun::write_calls);
            reveal(LoanPayRun::loan_calls);
        }
    }
}

/// No call of these sends anything.
pub open spec fn sends_nothing(calls: Seq<LoanCall>) -> bool {
    forall|i: int| 0 <= i < calls.len() ==> !((#[trigger] calls[i]) is Send)
}

/// Money is sent only where something was offered, and only where the sum of it is no more than
/// that.
pub proof fn sends_are_within_the_amount(run: LoanPayRun)
    ensures
        forall|i: int|
            0 <= i < run.calls().len() && (#[trigger] run.calls()[i]) is Send ==> 0 < run.amount
                && run.transfer_answers.sent <= run.amount,
{
    let first = run.party_calls();
    assert(sends_nothing(first)) by {
        reveal(LoanPayRun::found_calls);
    }
    if let Ok(parties) = run.spec_parties() {
        let asked = run.offered_calls(parties);
        let parted = run.spec_divided(parties).calls;
        assert(sends_nothing(asked)) by {
            reveal(LoanPayRun::offered_calls);
        }
        dividing_asks_for_no_send(run, parties);
        let before = first + asked + parted;
        assert(sends_nothing(before));
        if let Ok(parts) = run.spec_divided(parties).result {
            let total = run.total_calls(parts);
            assert(sends_nothing(before + total));
            if run.transfer_answers.total_paid > 0 {
                let rest = run.payment_calls(parties, parts);
                payment_sends_within_the_amount(run, parties, parts);
                assert(run.calls() =~= before + total + rest);
                assert forall|i: int|
                    0 <= i < run.calls().len() && (#[trigger] run.calls()[i]) is Send implies 0
                    < run.amount && run.transfer_answers.sent <= run.amount by {
                    if i < (before + total).len() {
                        assert(run.calls()[i] == (before + total)[i]);
                    } else {
                        assert(run.calls()[i] == rest[i - (before + total).len()]);
                    }
                }
            } else {
                assert(run.calls() =~= before + total);
            }
        } else {
            assert(run.calls() =~= before);
        }
    } else {
        assert(run.calls() =~= first);
    }
}

proof fn dividing_asks_for_no_send(run: LoanPayRun, parties: LoanParties)
    ensures
        sends_nothing(run.spec_divided(parties).calls),
{
    reveal(LoanPayRun::spec_divided);
}

proof fn payment_sends_within_the_amount(
    run: LoanPayRun,
    parties: LoanParties,
    parts: PaymentParts,
)
    ensures
        run.transfer_answers.sent <= run.amount || sends_nothing(run.payment_calls(parties, parts)),
{
    let route = run.route_calls(parties);
    let vault = run.vault_calls(parties, parts);
    assert(sends_nothing(route)) by {
        reveal(LoanPayRun::route_calls);
    }
    assert(sends_nothing(vault)) by {
        reveal(LoanPayRun::vault_calls);
    }
    if run.vault_fault(parties.vault, parts) is Some || run.spec_fee_route(parties.broker) is Err {
        assert(sends_nothing(route + vault));
        assert(run.payment_calls(parties, parts) =~= route || run.payment_calls(parties, parts)
            =~= route + vault);
    }
}

} // verus!
