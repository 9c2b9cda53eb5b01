//! Amounts of the three kinds of assets.
use vstd::prelude::*;
use crate::ids::{AccountID, MPTID};

verus! {

/// A currency code: 160 bits.
#[derive(Clone, Copy, Debug, PartialEq, Eq, Structural)]
pub struct Currency {
    pub hi: u32,
    pub lo: u128,
}

/// What an amount is an amount of.
#[derive(Clone, Copy, Debug, PartialEq, Eq, Structural)]
pub enum Asset {
    /// The native currency, in drops.
    Xrp,
    /// A currency that an account issues.
    Issue { currency: Currency, issuer: AccountID },
    /// A multi-purpose token.
    Mpt(MPTID),
}

/// The largest amount of drops that can be written down.
pub const ST_AMOUNT_MAX_NATIVE: u64 = 9_000_000_000_000_000_000;

/// The most drops there can be.
pub const MAX_NATIVE_NETWORK: u64 = 100_000_000_000_000_000;

/// The largest mantissa of an issued amount.
pub const ST_AMOUNT_MAX_MANTISSA: u64 = 9_999_999_999_999_999;

/// The largest exponent of an issued amount.
pub const ST_AMOUNT_MAX_OFFSET: i32 = 80;

/// The exponent of an issued amount of zero.
pub const ST_AMOUNT_ZERO_OFFSET: i32 = -100;

/// An amount: a mantissa and a power of ten. Native and token amounts have the power zero.
#[derive(Clone, Copy, Debug, PartialEq, Eq, Structural)]
pub struct Amount {
    pub asset: Asset,
    pub negative: bool,
    pub mantissa: u64,
    pub exponent: i32,
}

impl Amount {
    pub open spec fn spec_signum(self) -> int {
        if self.mantissa == 0 {
            0
        } else if self.negative {
            -1
        } else {
            1
        }
    }

    pub open spec fn positive(self) -> bool {
        self.spec_signum() > 0
    }

    pub open spec fn native(self) -> bool {
        self.asset is Xrp
    }

    /// The sign of the amount: -1, 0 or 1.
    pub fn signum(&self) -> (r: i8)
        ensures
            r == self.spec_signum(),
    {
        if self.mantissa == 0 {
            0
        } else if self.negative {
            -1
        } else {
            1
        }
    }

    /// Whether the amount is more than zero.
    pub fn is_positive(&self) -> (r: bool)
        ensures
            r == self.positive(),
    {
        self.signum() > 0
    }

    /// Whether the amount is one of drops.
    pub fn is_native(&self) -> (r: bool)
        ensures
            r == self.native(),
    {
        matches!(self.asset, Asset::Xrp)
    }

    pub open spec fn spec_zeroed(self) -> Amount {
        Amount {
            asset: self.asset,
            negative: false,
            mantissa: 0,
            exponent: if self.asset is Issue {
                ST_AMOUNT_ZERO_OFFSET
            } else {
                0
            },
        }
    }

    /// Nothing of the same asset.
    pub fn zeroed(&self) -> (r: Amount)
        ensures
            r == self.spec_zeroed(),
            r.spec_signum() == 0,
    {
        Amount {
            asset: self.asset,
            negative: false,
            mantissa: 0,
            exponent: if let Asset::Issue { .. } = self.asset {
                ST_AMOUNT_ZERO_OFFSET
            } else {
                0
            },
        }
    }

    /// This amount, or zero where it is below zero.
    pub fn clamped(&self) -> (r: Amount)
        ensures
            r == (if self.spec_signum() < 0 {
                self.spec_zeroed()
            } else {
                *self
            }),
    {
        if self.signum() < 0 {
            self.zeroed()
        } else {
            *self
        }
    }

    pub open spec fn of_integer(asset: Asset, value: i64) -> Amount {
        Amount {
            asset,
            negative: value < 0,
            mantissa: (if value < 0 {
                -(value as int)
            } else {
                value as int
            }) as u64,
            exponent: 0,
        }
    }

    /// A whole amount of drops or of a token.
    pub fn from_integer(asset: Asset, value: i64) -> (r: Amount)
        ensures
            r == Amount::of_integer(asset, value),
    {
        if value < 0 {
            let magnitude: i128 = -(value as i128);
            Amount { asset, negative: true, mantissa: magnitude as u64, exponent: 0 }
        } else {
            Amount { asset, negative: false, mantissa: value as u64, exponent: 0 }
        }
    }

    /// Whether the network accepts the amount: there are only so many drops.
    pub fn is_legal_net(&self) -> (r: bool)
        ensures
            r == (self.native() ==> self.mantissa <= MAX_NATIVE_NETWORK),
    {
        !self.is_native() || self.mantissa <= MAX_NATIVE_NETWORK
    }
}

/// A calculation on amounts whose result cannot be written down.
#[derive(Clone, Copy, Debug, PartialEq, Eq, Structural)]
pub struct AmountError;

} // verus!
