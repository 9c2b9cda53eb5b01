//! Ledger entries, as far as the token checks read them.
use vstd::prelude::*;
use crate::bytes::same_bytes;
use crate::ids::{AccountID, MPTID, Uint256, ViewError, make_mpt_id};

verus! {

/// The largest amount of a token that can be outstanding.
pub const MAX_MP_TOKEN_AMOUNT: u64 = 0x7FFF_FFFF_FFFF_FFFF;

/// A token issuance.
#[derive(Clone, Copy, Debug, PartialEq, Eq, Structural)]
pub struct MPTokenIssuance {
    pub sequence: u32,
    pub issuer: AccountID,
    pub outstanding_amount: u64,
    pub maximum_amount: Option<u64>,
    pub confidential_outstanding_amount: Option<u64>,
    pub reference_holding: Option<Uint256>,
    pub locked: bool,
    pub can_transfer: bool,
    pub can_trade: bool,
    pub require_auth: bool,
    pub can_hold_confidential_balance: bool,
}

/// What one account holds of an issuance. An amount that the ledger leaves out is zero.
pub struct MPToken {
    pub account: AccountID,
    pub issuance_id: MPTID,
    pub amount: u64,
    pub locked_amount: u64,
    pub authorized: bool,
    pub locked: bool,
    pub confidential_balance_inbox: Option<Vec<u8>>,
    pub confidential_balance_spending: Option<Vec<u8>>,
    pub issuer_encrypted_balance: Option<Vec<u8>>,
    pub auditor_encrypted_balance: Option<Vec<u8>>,
    pub confidential_balance_version: Option<u32>,
}

/// A ledger entry of any kind.
pub enum LedgerEntry {
    MPTokenIssuance(MPTokenIssuance),
    MPToken(MPToken),
    /// A trust line, with the accounts of its low and its high limit.
    RippleState { low: AccountID, high: AccountID },
    Other,
}

/// What a read of an issuance brought.
#[derive(Clone, Copy, Debug, PartialEq, Eq, Structural)]
pub enum IssuanceRead {
    Found(MPTokenIssuance),
    Missing,
    Failed(ViewError),
}

impl MPTokenIssuance {
    pub open spec fn spec_id(self) -> MPTID {
        MPTID { sequence: self.sequence, issuer: self.issuer }
    }

    pub open spec fn spec_max_amount(self) -> u64 {
        match self.maximum_amount {
            Some(amount) => amount,
            None => MAX_MP_TOKEN_AMOUNT,
        }
    }

    pub open spec fn spec_confidential_outstanding(self) -> u64 {
        match self.confidential_outstanding_amount {
            Some(amount) => amount,
            None => 0,
        }
    }

    /// The confidential amount outstanding; none is zero.
    pub fn confidential_outstanding(&self) -> (r: u64)
        ensures
            r == self.spec_confidential_outstanding(),
    {
        match self.confidential_outstanding_amount {
            Some(amount) => amount,
            None => 0,
        }
    }
}

/// Bytes that may be absent, as a sequence that may be absent.
pub open spec fn optional_bytes(bytes: Option<Vec<u8>>) -> Option<Seq<u8>> {
    match bytes {
        Some(b) => Some(b@),
        None => None,
    }
}

impl MPToken {
    pub open spec fn inbox(self) -> Option<Seq<u8>> {
        optional_bytes(self.confidential_balance_inbox)
    }

    pub open spec fn spending(self) -> Option<Seq<u8>> {
        optional_bytes(self.confidential_balance_spending)
    }

    pub open spec fn issuer_balance(self) -> Option<Seq<u8>> {
        optional_bytes(self.issuer_encrypted_balance)
    }

    pub open spec fn auditor_balance(self) -> Option<Seq<u8>> {
        optional_bytes(self.auditor_encrypted_balance)
    }

    /// Some encrypted balance is kept in this entry.
    pub open spec fn has_encrypted_balance(self) -> bool {
        self.inbox() is Some || self.spending() is Some || self.issuer_balance() is Some
            || self.auditor_balance() is Some
    }
}

/// Whether both are absent, or both are there with the same bytes.
pub fn same_optional_bytes(a: &Option<Vec<u8>>, b: &Option<Vec<u8>>) -> (r: bool)
    ensures
        r == (optional_bytes(*a) == optional_bytes(*b)),
{
    match (a, b) {
        (Some(x), Some(y)) => same_bytes(x, y),
        (None, None) => true,
        _ => false,
    }
}

/// Whether both hashes are absent, or both are there and equal.
pub fn same_optional_h256(before: Option<Uint256>, after: Option<Uint256>) -> (r: bool)
    ensures
        r == (before == after),
{
    match (before, after) {
        (Some(x), Some(y)) => x == y,
        (None, None) => true,
        _ => false,
    }
}

/// The largest amount that any issuance may have outstanding.
pub fn max_mpt_token_amount() -> (r: u64)
    ensures
        r == MAX_MP_TOKEN_AMOUNT,
{
    MAX_MP_TOKEN_AMOUNT
}

/// The identifier of an issuance.
pub fn mpt_id_from_issuance(issuance: &MPTokenIssuance) -> (id: MPTID)
    ensures
        id == issuance.spec_id(),
{
    make_mpt_id(issuance.sequence, issuance.issuer)
}

/// The amount that an issuance may have outstanding: its own maximum, or the general one.
pub fn mpt_max_amount(issuance: &MPTokenIssuance) -> (r: u64)
    ensures
        r == issuance.spec_max_amount(),
{
    match issuance.maximum_amount {
        Some(amount) => amount,
        None => max_mpt_token_amount(),
    }
}

} // verus!
