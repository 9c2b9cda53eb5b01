//! What is found of a transaction by its place in the ledger.
use vstd::prelude::*;
use crate::queue::base_fee::batch_preclaim_ter;
use crate::ter::{Ter, is_tes_success};
use crate::tx_type::TxType;

verus! {

/// Who looks at a transaction of a type.
#[derive(Clone, Copy, Debug, PartialEq, Eq, Structural)]
pub enum TypedPreclaimRoute {
    AppReadViewHelper,
    ChangeReadViewHelper,
    AppAuditedNoop,
    DexReadViewHelper,
    LoanReadViewHelper,
    NfTokenReadViewHelper,
    TokenReadViewHelper,
    TokenAuditedNoop,
    VaultReadViewHelper,
    BridgeDomainReadViewHelper,
    BridgeDomainAuditedNoop,
    SystemReadViewHelper,
    SponsorshipReadViewHelper,
    ConfidentialMptReadViewHelper,
    BatchSpecialPreclaim,
    FailClosed,
}

/// Who looks at a transaction of a type; nobody at one of a type that is not known.
pub open spec fn spec_route(txn_type: TxType) -> TypedPreclaimRoute {
    match txn_type {
        TxType::ACCOUNT_SET
        | TxType::ACCOUNT_DELETE
        | TxType::DELEGATE_SET
        | TxType::DEPOSIT_PREAUTH
        | TxType::PAYMENT
        | TxType::PAYCHAN_CREATE
        | TxType::PAYCHAN_CLAIM
        | TxType::CHECK_CREATE
        | TxType::CHECK_CASH
        | TxType::CHECK_CANCEL
        | TxType::ESCROW_CREATE
        | TxType::ESCROW_FINISH
        | TxType::ESCROW_CANCEL => TypedPreclaimRoute::AppReadViewHelper,
        TxType::REGULAR_KEY_SET
        | TxType::SIGNER_LIST_SET
        | TxType::PAYCHAN_FUND => TypedPreclaimRoute::AppAuditedNoop,
        TxType::OFFER_CREATE
        | TxType::OFFER_CANCEL
        | TxType::AMM_CREATE
        | TxType::AMM_DEPOSIT
        | TxType::AMM_WITHDRAW
        | TxType::AMM_VOTE
        | TxType::AMM_BID
        | TxType::AMM_DELETE
        | TxType::AMM_CLAWBACK => TypedPreclaimRoute::DexReadViewHelper,
        TxType::LOAN_SET
        | TxType::LOAN_MANAGE
        | TxType::LOAN_PAY
        | TxType::LOAN_DELETE
        | TxType::LOAN_BROKER_SET
        | TxType::LOAN_BROKER_DELETE
        | TxType::LOAN_BROKER_COVER_DEPOSIT
        | TxType::LOAN_BROKER_COVER_WITHDRAW
        | TxType::LOAN_BROKER_COVER_CLAWBACK => TypedPreclaimRoute::LoanReadViewHelper,
        TxType::NFTOKEN_MINT
        | TxType::NFTOKEN_BURN
        | TxType::NFTOKEN_CREATE_OFFER
        | TxType::NFTOKEN_CANCEL_OFFER
        | TxType::NFTOKEN_ACCEPT_OFFER
        | TxType::NFTOKEN_MODIFY => TypedPreclaimRoute::NfTokenReadViewHelper,
        TxType::TRUST_SET
        | TxType::CLAWBACK
        | TxType::MPTOKEN_AUTHORIZE
        | TxType::MPTOKEN_ISSUANCE_DESTROY
        | TxType::MPTOKEN_ISSUANCE_SET => TypedPreclaimRoute::TokenReadViewHelper,
        TxType::MPTOKEN_ISSUANCE_CREATE => TypedPreclaimRoute::TokenAuditedNoop,
        TxType::VAULT_CREATE
        | TxType::VAULT_SET
        | TxType::VAULT_DELETE
        | TxType::VAULT_DEPOSIT
        | TxType::VAULT_WITHDRAW
        | TxType::VAULT_CLAWBACK => TypedPreclaimRoute::VaultReadViewHelper,
        TxType::XCHAIN_CREATE_CLAIM_ID
        | TxType::XCHAIN_COMMIT
        | TxType::XCHAIN_CLAIM
        | TxType::XCHAIN_ACCOUNT_CREATE_COMMIT
        | TxType::XCHAIN_ADD_CLAIM_ATTESTATION
        | TxType::XCHAIN_ADD_ACCOUNT_CREATE_ATTESTATION
        | TxType::XCHAIN_MODIFY_BRIDGE
        | TxType::XCHAIN_CREATE_BRIDGE
        | TxType::ORACLE_SET
        | TxType::ORACLE_DELETE
        | TxType::PERMISSIONED_DOMAIN_SET
        | TxType::PERMISSIONED_DOMAIN_DELETE
        | TxType::CREDENTIAL_CREATE
        | TxType::CREDENTIAL_ACCEPT
        | TxType::CREDENTIAL_DELETE => TypedPreclaimRoute::BridgeDomainReadViewHelper,
        TxType::DID_SET | TxType::DID_DELETE => TypedPreclaimRoute::BridgeDomainAuditedNoop,
        TxType::BATCH => TypedPreclaimRoute::BatchSpecialPreclaim,
        TxType::AMENDMENT
        | TxType::FEE
        | TxType::UNL_MODIFY => TypedPreclaimRoute::ChangeReadViewHelper,
        TxType::TICKET_CREATE
        | TxType::LEDGER_STATE_FIX => TypedPreclaimRoute::SystemReadViewHelper,
        TxType::SPONSORSHIP_TRANSFER
        | TxType::SPONSORSHIP_SET => TypedPreclaimRoute::SponsorshipReadViewHelper,
        TxType::CONFIDENTIAL_MPT_CONVERT
        | TxType::CONFIDENTIAL_MPT_MERGE_INBOX
        | TxType::CONFIDENTIAL_MPT_CONVERT_BACK
        | TxType::CONFIDENTIAL_MPT_SEND
        | TxType::CONFIDENTIAL_MPT_CLAWBACK => TypedPreclaimRoute::ConfidentialMptReadViewHelper,
        TxType::Other(_) => TypedPreclaimRoute::FailClosed,
    }
}

/// Who looks at a transaction of a type.
pub fn typed_preclaim_route(txn_type: TxType) -> (r: TypedPreclaimRoute)
    ensures
        r == spec_route(txn_type),
{
    match txn_type {
        TxType::ACCOUNT_SET
        | TxType::ACCOUNT_DELETE
        | TxType::DELEGATE_SET
        | TxType::DEPOSIT_PREAUTH
        | TxType::PAYMENT
        | TxType::PAYCHAN_CREATE
        | TxType::PAYCHAN_CLAIM
        | TxType::CHECK_CREATE
        | TxType::CHECK_CASH
        | TxType::CHECK_CANCEL
        | TxType::ESCROW_CREATE
        | TxType::ESCROW_FINISH
        | TxType::ESCROW_CANCEL => TypedPreclaimRoute::AppReadViewHelper,
        TxType::REGULAR_KEY_SET
        | TxType::SIGNER_LIST_SET
        | TxType::PAYCHAN_FUND => TypedPreclaimRoute::AppAuditedNoop,
        TxType::OFFER_CREATE
        | TxType::OFFER_CANCEL
        | TxType::AMM_CREATE
        | TxType::AMM_DEPOSIT
        | TxType::AMM_WITHDRAW
        | TxType::AMM_VOTE
        | TxType::AMM_BID
        | TxType::AMM_DELETE
        | TxType::AMM_CLAWBACK => TypedPreclaimRoute::DexReadViewHelper,
        TxType::LOAN_SET
        | TxType::LOAN_MANAGE
        | TxType::LOAN_PAY
        | TxType::LOAN_DELETE
        | TxType::LOAN_BROKER_SET
        | TxType::LOAN_BROKER_DELETE
        | TxType::LOAN_BROKER_COVER_DEPOSIT
        | TxType::LOAN_BROKER_COVER_WITHDRAW
        | TxType::LOAN_BROKER_COVER_CLAWBACK => TypedPreclaimRoute::LoanReadViewHelper,
        TxType::NFTOKEN_MINT
        | TxType::NFTOKEN_BURN
        | TxType::NFTOKEN_CREATE_OFFER
        | TxType::NFTOKEN_CANCEL_OFFER
        | TxType::NFTOKEN_ACCEPT_OFFER
        | TxType::NFTOKEN_MODIFY => TypedPreclaimRoute::NfTokenReadViewHelper,
        TxType::TRUST_SET
        | TxType::CLAWBACK
        | TxType::MPTOKEN_AUTHORIZE
        | TxType::MPTOKEN_ISSUANCE_DESTROY
        | TxType::MPTOKEN_ISSUANCE_SET => TypedPreclaimRoute::TokenReadViewHelper,
        TxType::MPTOKEN_ISSUANCE_CREATE => TypedPreclaimRoute::TokenAuditedNoop,
        TxType::VAULT_CREATE
        | TxType::VAULT_SET
        | TxType::VAULT_DELETE
        | TxType::VAULT_DEPOSIT
        | TxType::VAULT_WITHDRAW
        | TxType::VAULT_CLAWBACK => TypedPreclaimRoute::VaultReadViewHelper,
        TxType::XCHAIN_CREATE_CLAIM_ID
        | TxType::XCHAIN_COMMIT
        | TxType::XCHAIN_CLAIM
        | TxType::XCHAIN_ACCOUNT_CREATE_COMMIT
        | TxType::XCHAIN_ADD_CLAIM_ATTESTATION
        | TxType::XCHAIN_ADD_ACCOUNT_CREATE_ATTESTATION
        | TxType::XCHAIN_MODIFY_BRIDGE
        | TxType::XCHAIN_CREATE_BRIDGE
        | TxType::ORACLE_SET
        | TxType::ORACLE_DELETE
        | TxType::PERMISSIONED_DOMAIN_SET
        | TxType::PERMISSIONED_DOMAIN_DELETE
        | TxType::CREDENTIAL_CREATE
        | TxType::CREDENTIAL_ACCEPT
        | TxType::CREDENTIAL_DELETE => TypedPreclaimRoute::BridgeDomainReadViewHelper,
        TxType::DID_SET | TxType::DID_DELETE => TypedPreclaimRoute::BridgeDomainAuditedNoop,
        TxType::BATCH => TypedPreclaimRoute::BatchSpecialPreclaim,
        TxType::AMENDMENT
        | TxType::FEE
        | TxType::UNL_MODIFY => TypedPreclaimRoute::ChangeReadViewHelper,
        TxType::TICKET_CREATE
        | TxType::LEDGER_STATE_FIX => TypedPreclaimRoute::SystemReadViewHelper,
        TxType::SPONSORSHIP_TRANSFER
        | TxType::SPONSORSHIP_SET => TypedPreclaimRoute::SponsorshipReadViewHelper,
        TxType::CONFIDENTIAL_MPT_CONVERT
        | TxType::CONFIDENTIAL_MPT_MERGE_INBOX
        | TxType::CONFIDENTIAL_MPT_CONVERT_BACK
        | TxType::CONFIDENTIAL_MPT_SEND
        | TxType::CONFIDENTIAL_MPT_CLAWBACK => TypedPreclaimRoute::ConfidentialMptReadViewHelper,
        TxType::Other(_) => TypedPreclaimRoute::FailClosed,
    }
}

/// What is found by those who look at a transaction. `helper` is what the one in charge says, and
/// nothing if it does not know the type; `direct` is what the one says who always knows.
pub open spec fn spec_typed_preclaim(txn_type: TxType, helper: Option<Ter>, direct: Ter) -> Ter {
    match spec_route(txn_type) {
        TypedPreclaimRoute::BatchSpecialPreclaim => Ter::TES_SUCCESS,
        TypedPreclaimRoute::SponsorshipReadViewHelper
        | TypedPreclaimRoute::ConfidentialMptReadViewHelper => direct,
        TypedPreclaimRoute::FailClosed => Ter::TEM_UNKNOWN,
        _ => match helper {
            Some(ter) => ter,
            None => Ter::TEM_UNKNOWN,
        },
    }
}

/// What is found of a transaction by those who look at its type.
pub fn typed_preclaim_ter(txn_type: TxType, helper: Option<Ter>, direct: Ter) -> (r: Ter)
    ensures
        r == spec_typed_preclaim(txn_type, helper, direct),
{
    match typed_preclaim_route(txn_type) {
        TypedPreclaimRoute::BatchSpecialPreclaim => Ter::TES_SUCCESS,
        TypedPreclaimRoute::SponsorshipReadViewHelper
        | TypedPreclaimRoute::ConfidentialMptReadViewHelper => direct,
        TypedPreclaimRoute::FailClosed => Ter::TEM_UNKNOWN,
        _ => match helper {
            Some(ter) => ter,
            None => Ter::TEM_UNKNOWN,
        },
    }
}

/// The last thing that is found of a transaction before it is applied: by its type, and of a
/// batch by its fee.
pub fn preclaim_tail(
    txn_type: TxType,
    helper: Option<Ter>,
    direct: Ter,
    batch_fee: Result<u64, Ter>,
) -> (r: Ter)
    ensures
        ({
            let typed = spec_typed_preclaim(txn_type, helper, direct);
            &&& !typed.success() ==> r == typed
            &&& typed.success() && txn_type != TxType::BATCH ==> r == Ter::TES_SUCCESS
            &&& txn_type == TxType::BATCH ==> r == (match batch_fee {
                Err(ter) => ter,
                Ok(fee) => if fee == crate::queue::base_fee::INVALID_BATCH_BASE_FEE {
                    Ter::TEC_INSUFF_FEE
                } else {
                    Ter::TES_SUCCESS
                },
            })
        }),
{
    let typed = typed_preclaim_ter(txn_type, helper, direct);
    if !is_tes_success(typed) {
        return typed;
    }
    if txn_type == TxType::BATCH {
        batch_preclaim_ter(txn_type, batch_fee)
    } else {
        Ter::TES_SUCCESS
    }
}

/// A transaction of a type that nobody knows never passes, whatever anybody says of it.
pub proof fn unknown_type_never_passes(txn_type: TxType, helper: Option<Ter>, direct: Ter)
    requires
        spec_route(txn_type) == TypedPreclaimRoute::FailClosed,
    ensures
        !spec_typed_preclaim(txn_type, helper, direct).success(),
{
}

/// Every type that is known has somebody who looks at it.
pub proof fn known_types_are_routed(txn_type: TxType)
    ensures
        spec_route(txn_type) == TypedPreclaimRoute::FailClosed <==> txn_type is Other,
{
}

} // verus!
