//! Transaction engine results.
use vstd::prelude::*;

verus! {

/// What processing one transaction came to.
///
/// The variants named one by one are those that a rule of this library gives or tests. Every
/// other result only passes through, and keeps its class and its engine code in one of the last
/// five variants. A result that has a variant of its own is never held in one of those: whoever
/// reads engine codes names it.
#[allow(non_camel_case_types)]
#[derive(Clone, Copy, Debug, PartialEq, Eq, Structural)]
pub enum Ter {
    TES_SUCCESS,
    TEL_INSUF_FEE_P,
    TEM_BAD_AMOUNT,
    TEM_BAD_FEE,
    TEM_BAD_OFFER,
    TEM_BAD_SRC_ACCOUNT,
    TEM_DISABLED,
    TEM_INVALID,
    TEM_INVALID_FLAG,
    TEM_INVALID_INNER_BATCH,
    TEM_MALFORMED,
    TEM_UNKNOWN,
    TEF_ALREADY,
    TEF_BAD_LEDGER,
    TEF_EXCEPTION,
    TEF_INTERNAL,
    TEF_MAX_LEDGER,
    TEF_NO_TICKET,
    TEF_WRONG_PRIOR,
    TER_INSUF_FEE_B,
    TER_NO_ACCOUNT,
    TER_NO_PERMISSION,
    TER_QUEUED,
    TEC_DIR_FULL,
    TEC_EXPIRED,
    TEC_INCOMPLETE,
    TEC_INSUFF_FEE,
    TEC_INSUFFICIENT_PAYMENT,
    TEC_INSUF_RESERVE_OFFER,
    TEC_INTERNAL,
    TEC_INVARIANT_FAILED,
    TEC_KILLED,
    TEC_NO_ENTRY,
    TEC_NO_PERMISSION,
    TEC_OBJECT_NOT_FOUND,
    TEC_OVERSIZE,
    TEC_PATH_DRY,
    TEC_PRECISION_LOSS,
    TEC_TOO_SOON,
    TEC_UNFUNDED_OFFER,
    OtherTel(i32),
    OtherTem(i32),
    OtherTef(i32),
    OtherTer(i32),
    OtherTec(i32),
}

/// The class a result belongs to: what may be done with the transaction.
#[derive(Clone, Copy, Debug, PartialEq, Eq, Structural)]
pub enum TerClass {
    /// Refused here for a local reason.
    Local,
    /// Can never be valid.
    Malformed,
    /// Cannot be applied to this ledger.
    Failure,
    /// May be applied later.
    Retry,
    /// Applied.
    Success,
    /// Not applied, but the fee is claimed.
    Claim,
}

impl Ter {
    pub open spec fn spec_class(self) -> TerClass {
        match self {
            Ter::TES_SUCCESS => TerClass::Success,
            Ter::TEL_INSUF_FEE_P | Ter::OtherTel(_) => TerClass::Local,
            Ter::TEM_BAD_AMOUNT | Ter::TEM_BAD_FEE | Ter::TEM_BAD_OFFER | Ter::TEM_BAD_SRC_ACCOUNT
            | Ter::TEM_DISABLED | Ter::TEM_INVALID | Ter::TEM_INVALID_FLAG
            | Ter::TEM_INVALID_INNER_BATCH | Ter::TEM_MALFORMED | Ter::TEM_UNKNOWN
            | Ter::OtherTem(_) => TerClass::Malformed,
            Ter::TEF_ALREADY | Ter::TEF_BAD_LEDGER | Ter::TEF_EXCEPTION | Ter::TEF_INTERNAL
            | Ter::TEF_MAX_LEDGER | Ter::TEF_NO_TICKET | Ter::TEF_WRONG_PRIOR
            | Ter::OtherTef(_) => TerClass::Failure,
            Ter::TER_INSUF_FEE_B | Ter::TER_NO_ACCOUNT | Ter::TER_NO_PERMISSION | Ter::TER_QUEUED
            | Ter::OtherTer(_) => TerClass::Retry,
            _ => TerClass::Claim,
        }
    }

    /// The class of this result.
    pub fn class(self) -> (class: TerClass)
        ensures
            class == self.spec_class(),
    {
        match self {
            Ter::TES_SUCCESS => TerClass::Success,
            Ter::TEL_INSUF_FEE_P | Ter::OtherTel(_) => TerClass::Local,
            Ter::TEM_BAD_AMOUNT | Ter::TEM_BAD_FEE | Ter::TEM_BAD_OFFER | Ter::TEM_BAD_SRC_ACCOUNT
            | Ter::TEM_DISABLED | Ter::TEM_INVALID | Ter::TEM_INVALID_FLAG
            | Ter::TEM_INVALID_INNER_BATCH | Ter::TEM_MALFORMED | Ter::TEM_UNKNOWN
            | Ter::OtherTem(_) => TerClass::Malformed,
            Ter::TEF_ALREADY | Ter::TEF_BAD_LEDGER | Ter::TEF_EXCEPTION | Ter::TEF_INTERNAL
            | Ter::TEF_MAX_LEDGER | Ter::TEF_NO_TICKET | Ter::TEF_WRONG_PRIOR
            | Ter::OtherTef(_) => TerClass::Failure,
            Ter::TER_INSUF_FEE_B | Ter::TER_NO_ACCOUNT | Ter::TER_NO_PERMISSION | Ter::TER_QUEUED
            | Ter::OtherTer(_) => TerClass::Retry,
            _ => TerClass::Claim,
        }
    }

    pub open spec fn success(self) -> bool {
        self.spec_class() == TerClass::Success
    }

    pub open spec fn claim(self) -> bool {
        self.spec_class() == TerClass::Claim
    }

    pub open spec fn failure(self) -> bool {
        self.spec_class() == TerClass::Failure
    }

    pub open spec fn malformed(self) -> bool {
        self.spec_class() == TerClass::Malformed
    }

    pub open spec fn retry(self) -> bool {
        self.spec_class() == TerClass::Retry
    }

    /// A transaction with this result may reach the apply step.
    pub open spec fn likely_to_claim_fee(self) -> bool {
        self.success() || self.claim()
    }
}

/// The transaction was applied.
pub fn is_tes_success(result: Ter) -> (r: bool)
    ensures
        r == result.success(),
{
    result.class() == TerClass::Success
}

/// The transaction failed, but its fee is claimed.
pub fn is_tec_claim(result: Ter) -> (r: bool)
    ensures
        r == result.claim(),
{
    result.class() == TerClass::Claim
}

/// The transaction cannot be applied to this ledger.
pub fn is_tef_failure(result: Ter) -> (r: bool)
    ensures
        r == result.failure(),
{
    result.class() == TerClass::Failure
}

/// The transaction is malformed.
pub fn is_tem_malformed(result: Ter) -> (r: bool)
    ensures
        r == result.malformed(),
{
    result.class() == TerClass::Malformed
}

/// The transaction may succeed in a later ledger.
pub fn is_ter_retry(result: Ter) -> (r: bool)
    ensures
        r == result.retry(),
{
    result.class() == TerClass::Retry
}

/// A `tes` or `tec` result: the transaction goes on to be applied.
pub fn admits_apply(result: Ter) -> (r: bool)
    ensures
        r == result.likely_to_claim_fee(),
{
    is_tes_success(result) || is_tec_claim(result)
}

} // verus!
