//! Transaction types.
use vstd::prelude::*;

verus! {

/// The type a transaction names. A code that no rule of this library names is `Other`.
#[allow(non_camel_case_types)]
#[derive(Clone, Copy, Debug, PartialEq, Eq, Structural)]
pub enum TxType {
    ACCOUNT_DELETE,
    ACCOUNT_SET,
    AMENDMENT,
    AMM_BID,
    AMM_CLAWBACK,
    AMM_CREATE,
    AMM_DELETE,
    AMM_DEPOSIT,
    AMM_VOTE,
    AMM_WITHDRAW,
    BATCH,
    CHECK_CANCEL,
    CHECK_CASH,
    CHECK_CREATE,
    CLAWBACK,
    CONFIDENTIAL_MPT_CLAWBACK,
    CONFIDENTIAL_MPT_CONVERT,
    CONFIDENTIAL_MPT_CONVERT_BACK,
    CONFIDENTIAL_MPT_MERGE_INBOX,
    CONFIDENTIAL_MPT_SEND,
    CREDENTIAL_ACCEPT,
    CREDENTIAL_CREATE,
    CREDENTIAL_DELETE,
    DELEGATE_SET,
    DEPOSIT_PREAUTH,
    DID_DELETE,
    DID_SET,
    ESCROW_CANCEL,
    ESCROW_CREATE,
    ESCROW_FINISH,
    FEE,
    LEDGER_STATE_FIX,
    LOAN_BROKER_COVER_CLAWBACK,
    LOAN_BROKER_COVER_DEPOSIT,
    LOAN_BROKER_COVER_WITHDRAW,
    LOAN_BROKER_DELETE,
    LOAN_BROKER_SET,
    LOAN_DELETE,
    LOAN_MANAGE,
    LOAN_PAY,
    LOAN_SET,
    MPTOKEN_AUTHORIZE,
    MPTOKEN_ISSUANCE_CREATE,
    MPTOKEN_ISSUANCE_DESTROY,
    MPTOKEN_ISSUANCE_SET,
    NFTOKEN_ACCEPT_OFFER,
    NFTOKEN_BURN,
    NFTOKEN_CANCEL_OFFER,
    NFTOKEN_CREATE_OFFER,
    NFTOKEN_MINT,
    NFTOKEN_MODIFY,
    OFFER_CANCEL,
    OFFER_CREATE,
    ORACLE_DELETE,
    ORACLE_SET,
    PAYCHAN_CLAIM,
    PAYCHAN_CREATE,
    PAYCHAN_FUND,
    PAYMENT,
    PERMISSIONED_DOMAIN_DELETE,
    PERMISSIONED_DOMAIN_SET,
    REGULAR_KEY_SET,
    SIGNER_LIST_SET,
    SPONSORSHIP_SET,
    SPONSORSHIP_TRANSFER,
    TICKET_CREATE,
    TRUST_SET,
    UNL_MODIFY,
    VAULT_CLAWBACK,
    VAULT_CREATE,
    VAULT_DELETE,
    VAULT_DEPOSIT,
    VAULT_SET,
    VAULT_WITHDRAW,
    XCHAIN_ACCOUNT_CREATE_COMMIT,
    XCHAIN_ADD_ACCOUNT_CREATE_ATTESTATION,
    XCHAIN_ADD_CLAIM_ATTESTATION,
    XCHAIN_CLAIM,
    XCHAIN_COMMIT,
    XCHAIN_CREATE_BRIDGE,
    XCHAIN_CREATE_CLAIM_ID,
    XCHAIN_MODIFY_BRIDGE,
    Other(u16),
}

impl TxType {
    pub open spec fn confidential_mpt(self) -> bool {
        self is CONFIDENTIAL_MPT_CONVERT || self is CONFIDENTIAL_MPT_MERGE_INBOX
            || self is CONFIDENTIAL_MPT_CONVERT_BACK || self is CONFIDENTIAL_MPT_SEND
            || self is CONFIDENTIAL_MPT_CLAWBACK
    }

    /// The transaction moves value between public and encrypted token balances.
    pub fn is_confidential_mpt(self) -> (r: bool)
        ensures
            r == self.confidential_mpt(),
    {
        matches!(
            self,
            TxType::CONFIDENTIAL_MPT_CONVERT | TxType::CONFIDENTIAL_MPT_MERGE_INBOX
                | TxType::CONFIDENTIAL_MPT_CONVERT_BACK | TxType::CONFIDENTIAL_MPT_SEND
                | TxType::CONFIDENTIAL_MPT_CLAWBACK
        )
    }

    pub open spec fn change_pseudo_transaction(self) -> bool {
        self is AMENDMENT || self is FEE || self is UNL_MODIFY
    }
}

} // verus!
