//! What is asked of the exchange and of the ledger while an offer is being created.
use vstd::prelude::*;
use crate::amount::{Amount, Asset};
use crate::ids::{AccountID, Uint256};
use crate::offer::directory::BookDirectory;

verus! {

/// How a trade treats what the offer asks for: as a limit, or as something to go beyond.
#[derive(Clone, Copy, Debug, PartialEq, Eq, Structural)]
pub enum OfferCrossing {
    Yes,
    Sell,
}

/// The worst rate at which an offer still trades: what goes in for what comes out.
#[derive(Clone, Copy, Debug, PartialEq, Eq, Structural)]
pub struct Threshold {
    pub input: Amount,
    pub output: Amount,
    /// An offer at this very rate does not count any more.
    pub strictly_better: bool,
}

/// The ways that a trade may take.
#[derive(Clone, Copy, Debug, PartialEq, Eq, Structural)]
pub struct Strands {
    pub account: AccountID,
    pub deliver: Asset,
    pub send: Asset,
    /// Besides the direct way there is one through the native currency.
    pub through_xrp: bool,
    pub domain: Option<Uint256>,
}

/// A trade of an account with whoever offers.
#[derive(Clone, Copy, Debug, PartialEq, Eq, Structural)]
pub struct Trade {
    pub account: AccountID,
    pub deliver: Amount,
    pub send_max: Amount,
    pub partial: bool,
    pub crossing: OfferCrossing,
    pub threshold: Threshold,
}

/// The entry of an offer in the ledger.
#[derive(Clone, Copy, Debug, PartialEq, Eq, Structural)]
pub struct OfferEntry {
    pub account: AccountID,
    pub sequence: u32,
    pub taker_pays: Amount,
    pub taker_gets: Amount,
    pub flags: u32,
    pub domain: Option<Uint256>,
    pub expiration: Option<u32>,
    pub owner_page: u64,
    /// The rate under which the offer stands in its book, and the page there.
    pub rate: u64,
    pub book_page: u64,
    /// Where the offer stands in the open book, if it stands there too.
    pub open_book: Option<OpenBook>,
}

/// The rate and the page of an offer in the open book.
#[derive(Clone, Copy, Debug, PartialEq, Eq, Structural)]
pub struct OpenBook {
    pub rate: u64,
    pub page: u64,
}

/// One thing that is asked for.
#[derive(Clone, Copy, Debug, PartialEq, Eq, Structural)]
pub enum OfferCall {
    /// The checks that come before a fee is taken.
    Preclaim,
    /// The offer of the account with this sequence is to go.
    Delete { sequence: u32 },
    /// A quotient without a unit.
    Quotient { dividend: Amount, divisor: Amount },
    /// The amount that a rate stands for, and whether that is zero.
    RateAmount { rate: u64 },
    /// A side of the offer at a rate.
    Multiply { amount: Amount, rate: u64, asset: Asset },
    Divide { amount: Amount, rate: u64, asset: Asset },
    /// An amount with a transfer fee on top, rounded up.
    AddFee { amount: Amount, fee_rate: u32 },
    /// What is left of an amount without its transfer fee.
    TakeOffFee { amount: Amount, fee_rate: u32, asset: Asset },
    /// Whether an amount is more than another.
    Exceeds { amount: Amount, limit: Amount },
    Strands(Strands),
    Trade(Trade),
    /// The own offers that stood in the way are to go.
    CancelOwn,
    Subtract { from: Amount, amount: Amount },
    /// An amount of the one side at the rate of the whole offer: the first kind is rounded
    /// down, the second up.
    PaysFor { gets: Amount, whole_gets: Amount, whole_pays: Amount },
    GetsFor { pays: Amount, whole_gets: Amount, whole_pays: Amount },
    /// The offer is to stand in the directory of its owner.
    OwnerPage { account: AccountID, sequence: u32 },
    /// The account owns one thing more.
    OwnerCount { account: AccountID },
    /// The offer is to stand in a book, under a rate, at its end.
    BookPage { rate: u64, directory: BookDirectory },
    Insert(OfferEntry),
}

} // verus!
