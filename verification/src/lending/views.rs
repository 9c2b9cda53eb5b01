//! The broker and the vault behind a loan.
//!
//! The numbers of a loan are decimals. Each is held as an integer that is ordered as the decimals
//! are: equal for equal ones, less for a lesser one, and zero for zero. A sum or a difference of
//! decimals can lose digits, so none is made here: each is asked for, and its answer is taken.
use vstd::prelude::*;
use crate::amount::Asset;
use crate::ids::{AccountID, Uint256};

verus! {

pub open spec fn spec_floor_zero(number: i128) -> i128 {
    if number < 0 {
        0
    } else {
        number
    }
}

/// A number, or zero where it is below zero.
pub fn floor_zero(number: i128) -> (r: i128)
    ensures
        r == spec_floor_zero(number),
{
    if number < 0 {
        0
    } else {
        number
    }
}

/// The broker of a loan.
#[derive(Clone, Copy, Debug, PartialEq, Eq, Structural)]
pub struct LpBrokerView {
    pub owner: AccountID,
    pub pseudo: AccountID,
    pub vault_id: Uint256,
    pub cover_available: i128,
    pub debt_total: i128,
    pub cover_rate_minimum: u32,
    /// The share of the broker in every interest.
    pub management_fee_rate: u16,
}

impl LpBrokerView {
    /// The cover is what it comes to with an amount added.
    pub fn add_cover_available(&mut self, sum: i128)
        ensures
            *final(self) == (LpBrokerView { cover_available: sum, ..*old(self) }),
    {
        self.cover_available = sum;
    }

    /// The debt is what it comes to once moved; it never falls below zero.
    pub fn adjust_debt_total(&mut self, moved: i128)
        ensures
            *final(self) == (LpBrokerView { debt_total: spec_floor_zero(moved), ..*old(self) }),
    {
        self.debt_total = floor_zero(moved);
    }
}

/// The vault that a loan came from.
#[derive(Clone, Copy, Debug, PartialEq, Eq, Structural)]
pub struct LpVaultView {
    pub pseudo: AccountID,
    /// What the vault lends.
    pub asset: Asset,
    pub assets_available: i128,
    pub assets_total: i128,
}

impl LpVaultView {
    /// Whether more is available than there is.
    pub fn assets_available_exceeds_total(&self) -> (r: bool)
        ensures
            r == (self.assets_available > self.assets_total),
    {
        self.assets_available > self.assets_total
    }
}

} // verus!
