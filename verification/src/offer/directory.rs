//! The directory of a book.
use vstd::prelude::*;
use crate::amount::{Amount, Asset, Currency};
use crate::ids::{AccountID, MPTID, Uint256};

verus! {

/// One side of a book, as its directory states it.
#[derive(Clone, Copy, Debug, PartialEq, Eq, Structural)]
pub enum BookSide {
    /// A currency and its issuer; both are zero for drops.
    Currency { currency: Currency, issuer: AccountID },
    Mpt(MPTID),
}

/// What the directory of a book states of it.
#[derive(Clone, Copy, Debug, PartialEq, Eq, Structural)]
pub struct BookDirectory {
    pub taker_pays: BookSide,
    pub taker_gets: BookSide,
    pub exchange_rate: u64,
    pub domain: Option<Uint256>,
}

pub open spec fn spec_book_side(asset: Asset) -> BookSide {
    match asset {
        Asset::Xrp => BookSide::Currency {
            currency: Currency { hi: 0, lo: 0 },
            issuer: AccountID::spec_zero(),
        },
        Asset::Issue { currency, issuer } => BookSide::Currency { currency, issuer },
        Asset::Mpt(id) => BookSide::Mpt(id),
    }
}

fn book_side(asset: Asset) -> (r: BookSide)
    ensures
        r == spec_book_side(asset),
{
    match asset {
        Asset::Xrp => BookSide::Currency {
            currency: Currency { hi: 0, lo: 0 },
            issuer: AccountID::zero(),
        },
        Asset::Issue { currency, issuer } => BookSide::Currency { currency, issuer },
        Asset::Mpt(id) => BookSide::Mpt(id),
    }
}

pub open spec fn spec_book_directory(
    taker_pays: Amount,
    taker_gets: Amount,
    rate: u64,
    domain: Option<Uint256>,
) -> BookDirectory {
    BookDirectory {
        taker_pays: spec_book_side(taker_pays.asset),
        taker_gets: spec_book_side(taker_gets.asset),
        exchange_rate: rate,
        domain,
    }
}

/// What the directory of the book of an offer states.
pub fn set_book_directory_fields(
    taker_pays: &Amount,
    taker_gets: &Amount,
    rate: u64,
    domain: Option<Uint256>,
) -> (r: BookDirectory)
    ensures
        r == spec_book_directory(*taker_pays, *taker_gets, rate, domain),
{
    BookDirectory {
        taker_pays: book_side(taker_pays.asset),
        taker_gets: book_side(taker_gets.asset),
        exchange_rate: rate,
        domain,
    }
}

} // verus!
