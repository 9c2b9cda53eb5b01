//! What the account behind an offer has to trade with.
use vstd::prelude::*;
use crate::amount::{Amount, Asset, ST_AMOUNT_MAX_MANTISSA, ST_AMOUNT_MAX_NATIVE, ST_AMOUNT_MAX_OFFSET};
use crate::ids::{AccountID, Key};
use crate::mpt::entry::MAX_MP_TOKEN_AMOUNT;
use crate::submit::flags::Read;
use crate::ter::Ter;

verus! {

/// The freezes on a trust line.
#[derive(Clone, Copy, Debug, PartialEq, Eq, Structural)]
pub struct LineFreezes {
    pub low: bool,
    pub high: bool,
    pub low_deep: bool,
    pub high_deep: bool,
}

/// The issuance of a token, as its trader sees it.
#[derive(Clone, Copy, Debug, PartialEq, Eq, Structural)]
pub struct TokenIssuance {
    pub issuer: AccountID,
    /// What the issuer can still issue.
    pub available: i64,
}

/// What the ledger says of the funds of an account. Each answer counts only where the question
/// comes up; `None` is a read that failed.
#[derive(Clone, Copy, Debug, PartialEq, Eq, Structural)]
pub struct FundsReads {
    /// The drops that are free to spend.
    pub liquid: Option<i64>,
    /// The issuer, and whether it has frozen everything.
    pub issuer: Read<bool>,
    pub line: Read<LineFreezes>,
    /// What the trust line holds.
    pub held: Option<Amount>,
    pub issuance: Read<TokenIssuance>,
    pub token_frozen: Option<bool>,
    pub token_authorization: Option<Ter>,
    /// What the holding of a token is worth.
    pub token: Read<i64>,
}

/// What there is to trade with, and whether trading without anything is barred.
#[derive(Clone, Copy, Debug, PartialEq, Eq, Structural)]
pub struct Funds {
    pub amount: Amount,
    pub disallow_unfunded: bool,
}

/// Only what the issuer has frozen is frozen: a freeze by the holder itself does not count, but a
/// deep freeze by either side does.
pub open spec fn line_frozen(account: AccountID, issuer: AccountID, line: LineFreezes) -> bool {
    (if issuer.rank() > account.rank() {
        line.high
    } else {
        line.low
    }) || line.low_deep || line.high_deep
}

pub open spec fn issued_funds(
    account: AccountID,
    issuer: AccountID,
    amount: Amount,
    reads: FundsReads,
) -> Result<Funds, Ter> {
    if reads.issuer is Failed || reads.line is Failed {
        Err(Ter::TEF_BAD_LEDGER)
    } else if reads.issuer == Read::Found(true) || (reads.line matches Read::Found(line)
        && line_frozen(account, issuer, line)) {
        Ok(Funds { amount: amount.spec_zeroed(), disallow_unfunded: true })
    } else {
        match reads.held {
            Some(held) => Ok(Funds { amount: held, disallow_unfunded: true }),
            None => Err(Ter::TEF_BAD_LEDGER),
        }
    }
}

pub open spec fn token_funds(account: AccountID, amount: Amount, reads: FundsReads) -> Result<Funds, Ter> {
    let nothing = Ok(Funds { amount: amount.spec_zeroed(), disallow_unfunded: true });
    match reads.issuance {
        Read::Failed => Err(Ter::TEF_BAD_LEDGER),
        Read::Missing => nothing,
        Read::Found(issuance) => if issuance.issuer == account {
            Ok(
                Funds {
                    amount: Amount::of_integer(amount.asset, issuance.available),
                    disallow_unfunded: false,
                },
            )
        } else {
            match (reads.token_frozen, reads.token_authorization) {
                (None, _) => Err(Ter::TEF_BAD_LEDGER),
                (Some(true), _) => nothing,
                (_, None) => Err(Ter::TEF_BAD_LEDGER),
                (_, Some(ter)) => if ter != Ter::TES_SUCCESS {
                    nothing
                } else {
                    match reads.token {
                        Read::Failed => Err(Ter::TEF_BAD_LEDGER),
                        Read::Missing => nothing,
                        Read::Found(value) => Ok(
                            Funds {
                                amount: Amount::of_integer(amount.asset, value),
                                disallow_unfunded: true,
                            },
                        ),
                    }
                },
            }
        },
    }
}

/// What the account has to trade with, of the asset that it offers. An issuer has all it offers;
/// only the issuer of a token may trade without having anything.
pub open spec fn spec_crossing_funds(
    account: AccountID,
    amount: Amount,
    reads: FundsReads,
) -> Result<Funds, Ter> {
    match amount.asset {
        Asset::Xrp => match reads.liquid {
            Some(drops) => Ok(
                Funds { amount: Amount::of_integer(Asset::Xrp, drops), disallow_unfunded: true },
            ),
            None => Err(Ter::TEF_BAD_LEDGER),
        },
        Asset::Issue { issuer, .. } => if issuer == account {
            Ok(Funds { amount, disallow_unfunded: true })
        } else {
            issued_funds(account, issuer, amount, reads)
        },
        Asset::Mpt(_) => token_funds(account, amount, reads),
    }
}

fn issued_crossing_funds(
    account: AccountID,
    issuer: AccountID,
    amount: &Amount,
    reads: &FundsReads,
) -> (r: Result<Funds, Ter>)
    ensures
        r == issued_funds(account, issuer, *amount, *reads),
{
    let globally_frozen = match reads.issuer {
        Read::Failed => {
            return Err(Ter::TEF_BAD_LEDGER);
        },
        Read::Missing => false,
        Read::Found(frozen) => frozen,
    };
    let frozen = match reads.line {
        Read::Failed => {
            return Err(Ter::TEF_BAD_LEDGER);
        },
        Read::Missing => false,
        Read::Found(line) => {
            let by_issuer = if account.precedes(&issuer) {
                line.high
            } else {
                line.low
            };
            by_issuer || line.low_deep || line.high_deep
        },
    };
    if globally_frozen || frozen {
        return Ok(Funds { amount: amount.zeroed(), disallow_unfunded: true });
    }
    match reads.held {
        Some(held) => Ok(Funds { amount: held, disallow_unfunded: true }),
        None => Err(Ter::TEF_BAD_LEDGER),
    }
}

fn token_crossing_funds(account: AccountID, amount: &Amount, reads: &FundsReads) -> (r: Result<
    Funds,
    Ter,
>)
    ensures
        r == token_funds(account, *amount, *reads),
{
    let nothing = Funds { amount: amount.zeroed(), disallow_unfunded: true };
    let issuance = match reads.issuance {
        Read::Failed => {
            return Err(Ter::TEF_BAD_LEDGER);
        },
        Read::Missing => {
            return Ok(nothing);
        },
        Read::Found(issuance) => issuance,
    };
    if issuance.issuer == account {
        return Ok(
            Funds {
                amount: Amount::from_integer(amount.asset, issuance.available),
                disallow_unfunded: false,
            },
        );
    }
    match reads.token_frozen {
        None => {
            return Err(Ter::TEF_BAD_LEDGER);
        },
        Some(true) => {
            return Ok(nothing);
        },
        Some(false) => {},
    }
    match reads.token_authorization {
        None => {
            return Err(Ter::TEF_BAD_LEDGER);
        },
        Some(ter) => {
            if ter != Ter::TES_SUCCESS {
                return Ok(nothing);
            }
        },
    }
    match reads.token {
        Read::Failed => Err(Ter::TEF_BAD_LEDGER),
        Read::Missing => Ok(nothing),
        Read::Found(value) => Ok(
            Funds { amount: Amount::from_integer(amount.asset, value), disallow_unfunded: true },
        ),
    }
}

/// What the account has to trade with, of the asset that it offers.
pub fn crossing_account_funds(account: AccountID, amount: &Amount, reads: &FundsReads) -> (r: Result<
    Funds,
    Ter,
>)
    ensures
        r == spec_crossing_funds(account, *amount, *reads),
{
    match amount.asset {
        Asset::Xrp => match reads.liquid {
            Some(drops) => Ok(
                Funds { amount: Amount::from_integer(Asset::Xrp, drops), disallow_unfunded: true },
            ),
            None => Err(Ter::TEF_BAD_LEDGER),
        },
        Asset::Issue { issuer, .. } => if issuer == account {
            Ok(Funds { amount: *amount, disallow_unfunded: true })
        } else {
            issued_crossing_funds(account, issuer, amount, reads)
        },
        Asset::Mpt(_) => token_crossing_funds(account, amount, reads),
    }
}

pub open spec fn spec_sell_limit(taker_pays: Amount) -> Amount {
    match taker_pays.asset {
        Asset::Xrp => Amount {
            asset: taker_pays.asset,
            negative: false,
            mantissa: ST_AMOUNT_MAX_NATIVE,
            exponent: 0,
        },
        Asset::Issue { .. } => Amount {
            asset: taker_pays.asset,
            negative: false,
            mantissa: (ST_AMOUNT_MAX_MANTISSA / 2) as u64,
            exponent: ST_AMOUNT_MAX_OFFSET,
        },
        Asset::Mpt(_) => Amount {
            asset: taker_pays.asset,
            negative: false,
            mantissa: (MAX_MP_TOKEN_AMOUNT / 2) as u64,
            exponent: 0,
        },
    }
}

/// The most that a selling offer may receive: more than there is of the asset, and little enough
/// that a transfer fee on it can still be worked out.
pub fn sell_cross_deliver_limit(taker_pays: &Amount) -> (r: Amount)
    ensures
        r == spec_sell_limit(*taker_pays),
{
    match taker_pays.asset {
        Asset::Xrp => Amount {
            asset: taker_pays.asset,
            negative: false,
            mantissa: ST_AMOUNT_MAX_NATIVE,
            exponent: 0,
        },
        Asset::Issue { .. } => Amount {
            asset: taker_pays.asset,
            negative: false,
            mantissa: ST_AMOUNT_MAX_MANTISSA / 2,
            exponent: ST_AMOUNT_MAX_OFFSET,
        },
        Asset::Mpt(_) => Amount {
            asset: taker_pays.asset,
            negative: false,
            mantissa: MAX_MP_TOKEN_AMOUNT / 2,
            exponent: 0,
        },
    }
}

/// A transfer rate that takes nothing.
pub const PARITY_RATE: u32 = 1_000_000_000;

/// What one transfer costs through the issuer of what the taker gets; `None` where the rate
/// could not be read. An account does not pay for its own issue, and drops and tokens are free.
pub fn gateway_rate(account: AccountID, taker_gets: &Amount, transfer_rate: Option<u32>) -> (r: Option<u32>)
    ensures
        r == spec_gateway_rate(account, *taker_gets, transfer_rate),
{
    match taker_gets.asset {
        Asset::Issue { issuer, .. } => if issuer != account {
            transfer_rate
        } else {
            Some(PARITY_RATE)
        },
        _ => Some(PARITY_RATE),
    }
}

pub open spec fn spec_gateway_rate(
    account: AccountID,
    taker_gets: Amount,
    transfer_rate: Option<u32>,
) -> Option<u32> {
    match taker_gets.asset {
        Asset::Issue { issuer, .. } => if issuer != account {
            transfer_rate
        } else {
            Some(PARITY_RATE)
        },
        _ => Some(PARITY_RATE),
    }
}

pub open spec fn spec_send_max(taker_gets: Amount, gateway_rate: u32, with_fee: Amount) -> Amount {
    if gateway_rate == PARITY_RATE || taker_gets.native() {
        taker_gets
    } else {
        with_fee
    }
}

/// The most the offer sends: what the taker gets, or that with the transfer fee on it, which
/// `with_fee` is.
pub fn gateway_adjusted_send_max(taker_gets: &Amount, gateway_rate: u32, with_fee: Amount) -> (r: Amount)
    ensures
        r == spec_send_max(*taker_gets, gateway_rate, with_fee),
{
    if gateway_rate == PARITY_RATE || taker_gets.is_native() {
        return *taker_gets;
    }
    with_fee
}

/// Frozen funds are no funds: whoever is not the issuer and is frozen has nothing to trade with.
pub proof fn frozen_funds_are_zero(account: AccountID, amount: Amount, reads: FundsReads)
    requires
        amount.asset matches Asset::Issue { issuer, .. } && issuer != account,
        !(reads.issuer is Failed),
        !(reads.line is Failed),
        reads.issuer == Read::Found(true),
    ensures
        spec_crossing_funds(account, amount, reads) matches Ok(funds) && funds.amount.spec_signum()
            == 0 && funds.disallow_unfunded,
{
}

} // verus!
