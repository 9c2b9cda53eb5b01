//! Identifiers of ledger objects, as plain integers.
use vstd::prelude::*;

verus! {

/// What an identifier is worth as a number: identifiers are ordered by it.
pub trait Key: Copy {
    spec fn rank(self) -> int;

    proof fn rank_is_injective(self, other: Self)
        ensures
            self.rank() == other.rank() ==> self == other,
    ;

    /// Whether this identifier stands before the other.
    fn precedes(&self, other: &Self) -> (r: bool)
        ensures
            r == (self.rank() < other.rank()),
    ;
}

/// A 256 bit hash.
#[derive(Clone, Copy, Debug, PartialEq, Eq, Structural)]
pub struct Uint256 {
    pub hi: u128,
    pub lo: u128,
}

impl Uint256 {
    pub open spec fn spec_zero() -> Uint256 {
        Uint256 { hi: 0, lo: 0 }
    }

    /// The hash whose bits are all clear.
    pub fn zero() -> (r: Uint256)
        ensures
            r == Uint256::spec_zero(),
    {
        Uint256 { hi: 0, lo: 0 }
    }

    /// Whether every bit is clear.
    pub fn is_zero(&self) -> (r: bool)
        ensures
            r == (*self == Uint256::spec_zero()),
    {
        self.hi == 0 && self.lo == 0
    }

    /// Whether some bit is set.
    pub fn is_non_zero(&self) -> (r: bool)
        ensures
            r == (*self != Uint256::spec_zero()),
    {
        !self.is_zero()
    }
}

impl Key for Uint256 {
    open spec fn rank(self) -> int {
        self.hi * 0x1_0000_0000_0000_0000_0000_0000_0000_0000int + self.lo
    }

    proof fn rank_is_injective(self, other: Self) {
    }

    fn precedes(&self, other: &Self) -> (r: bool) {
        self.hi < other.hi || (self.hi == other.hi && self.lo < other.lo)
    }
}

/// An account: 160 bits.
#[derive(Clone, Copy, Debug, PartialEq, Eq, Structural)]
pub struct AccountID {
    pub hi: u32,
    pub lo: u128,
}

impl AccountID {
    pub open spec fn spec_zero() -> AccountID {
        AccountID { hi: 0, lo: 0 }
    }

    /// The account whose bits are all clear; it names nobody.
    pub fn zero() -> (r: AccountID)
        ensures
            r == AccountID::spec_zero(),
    {
        AccountID { hi: 0, lo: 0 }
    }

    /// Whether this is the account that names nobody.
    pub fn is_zero(&self) -> (r: bool)
        ensures
            r == (*self == AccountID::spec_zero()),
    {
        self.hi == 0 && self.lo == 0
    }
}

impl Key for AccountID {
    open spec fn rank(self) -> int {
        self.hi * 0x1_0000_0000_0000_0000_0000_0000_0000_0000int + self.lo
    }

    proof fn rank_is_injective(self, other: Self) {
    }

    fn precedes(&self, other: &Self) -> (r: bool) {
        self.hi < other.hi || (self.hi == other.hi && self.lo < other.lo)
    }
}

/// The identifier of a multi-purpose token issuance: the sequence of the transaction that
/// created it, then its issuer.
#[derive(Clone, Copy, Debug, PartialEq, Eq, Structural)]
pub struct MPTID {
    pub sequence: u32,
    pub issuer: AccountID,
}

impl MPTID {
    pub open spec fn spec_zero() -> MPTID {
        MPTID { sequence: 0, issuer: AccountID::spec_zero() }
    }
}

impl Key for MPTID {
    open spec fn rank(self) -> int {
        self.sequence * 0x1_0000_0000_0000_0000_0000_0000_0000_0000_0000_0000int
            + self.issuer.rank()
    }

    proof fn rank_is_injective(self, other: Self) {
        self.issuer.rank_is_injective(other.issuer);
    }

    fn precedes(&self, other: &Self) -> (r: bool) {
        self.sequence < other.sequence || (self.sequence == other.sequence
            && self.issuer.precedes(&other.issuer))
    }
}

/// The identifier that `issuer` gives to the issuance it creates with `sequence`.
pub fn make_mpt_id(sequence: u32, issuer: AccountID) -> (id: MPTID)
    ensures
        id == (MPTID { sequence, issuer }),
{
    MPTID { sequence, issuer }
}

/// Why a read of the ledger failed, by the number under which the caller keeps the error.
#[derive(Clone, Copy, Debug, PartialEq, Eq, Structural)]
pub struct ViewError {
    pub id: u32,
}

} // verus!
