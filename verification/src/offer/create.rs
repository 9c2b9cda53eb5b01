//! Creating an offer.
use vstd::prelude::*;
use crate::amount::{Amount, AmountError, Asset};
use crate::ids::{AccountID, Uint256};
use crate::offer::calls::{OfferCall, OfferEntry, OpenBook, Trade};
use crate::offer::cross::{CrossRun, Crossing, OfferAmounts, Residual, amount_or_exception, cross_offer, crossing_inserts_nothing};
use crate::offer::directory::{set_book_directory_fields, spec_book_directory};
use crate::offer::mode::OfferMode;
use crate::offer::quality::{
    MAX_TICK_SIZE, get_rate, get_tick_size, rate_is_zero, round_quality, spec_get_rate,
    spec_get_tick_size, spec_rate_is_zero, spec_round_quality,
};
use crate::submit::flags::{Present, Read};
use crate::ter::{Ter, is_tes_success};

verus! {

/// A transaction that creates an offer.
#[derive(Clone, Copy, Debug, PartialEq, Eq, Structural)]
pub struct OfferTx {
    pub account: AccountID,
    /// The sequence or the ticket that the transaction uses.
    pub sequence: u32,
    pub taker_pays: Amount,
    pub taker_gets: Amount,
    pub flags: u32,
    pub domain: Option<Uint256>,
    /// The offer that this one is to replace.
    pub offer_sequence: Option<u32>,
    pub expiration: Option<u32>,
}

/// The account behind an offer, as placing it sees it.
#[derive(Clone, Copy, Debug, PartialEq, Eq, Structural)]
pub struct OfferAccount {
    pub balance: i64,
    /// What the account must keep with one more offer.
    pub reserve: i64,
}

/// What the ledger answers while an offer is being created. Each answer counts only where the
/// question comes up.
#[derive(Clone, Copy, Debug)]
pub struct OfferRun {
    /// The balance before the fee; none where the fee was not taken by the usual way.
    pub pre_fee_balance: Option<i64>,
    pub permissioned_dex: bool,
    pub fix_cleanup_3_2_0: bool,
    pub close_time: u32,
    pub direct_preclaim: Ter,
    pub replaced: Read<Present>,
    pub replaced_delete: Ter,
    pub pays_issuer_tick: Read<Option<u8>>,
    pub gets_issuer_tick: Read<Option<u8>>,
    /// What the taker pays divided by what the taker gets.
    pub quotient: Result<Amount, AmountError>,
    /// The amount that the rounded rate stands for is zero.
    pub rate_amount_is_zero: bool,
    /// What the taker pays, and gets, at the rounded rate.
    pub pays_at_rounded_rate: Result<Amount, AmountError>,
    pub gets_at_rounded_rate: Result<Amount, AmountError>,
    pub cross: CrossRun,
    pub account_root: Read<OfferAccount>,
    /// The page of the directory of the owner that took the offer.
    pub owner_page: Option<u64>,
    pub owner_counted: bool,
    /// The quotient of the amounts with which the offer was crossed.
    pub placed_quotient: Result<Amount, AmountError>,
    pub book_page: Option<u64>,
    /// The quotient of the amounts that are left.
    pub rest_quotient: Result<Amount, AmountError>,
    pub open_book_page: Option<u64>,
    pub inserted: bool,
}

/// What creating an offer came to: a result, and all that was asked for on the way, in order.
#[derive(Debug)]
pub struct OfferOutcome {
    pub result: Ter,
    pub calls: Vec<OfferCall>,
}

impl OfferTx {
    pub open spec fn mode(self) -> OfferMode {
        OfferMode::spec_from_flags(self.flags)
    }

    /// An offer trades two different assets, and some of both.
    pub open spec fn bad_offer(self) -> bool {
        ||| self.taker_pays.native() && self.taker_gets.native()
        ||| !self.taker_pays.native() && !self.taker_gets.native() && self.taker_pays.asset
            == self.taker_gets.asset
        ||| !self.taker_pays.positive()
        ||| !self.taker_gets.positive()
    }

    /// Why the offer ends before anything is traded.
    pub open spec fn early_end(self, run: OfferRun) -> Option<Ter> {
        if self.bad_offer() {
            Some(Ter::TEM_BAD_OFFER)
        } else if self.mode().hybrid && self.domain is None {
            Some(Ter::TEM_INVALID_FLAG)
        } else if self.domain is Some && !run.permissioned_dex {
            Some(Ter::TEM_DISABLED)
        } else if run.pre_fee_balance is None && run.direct_preclaim != Ter::TES_SUCCESS {
            Some(run.direct_preclaim)
        } else if self.offer_sequence is Some && run.replaced is Failed {
            Some(Ter::TEF_BAD_LEDGER)
        } else if self.expiration matches Some(expiration) && run.close_time >= expiration {
            Some(Ter::TEC_EXPIRED)
        } else if self.offer_sequence is Some && run.replaced is Found
            && !run.replaced_delete.success() {
            Some(run.replaced_delete)
        } else {
            None
        }
    }

    /// What is asked for before anything is traded.
    pub open spec fn early_calls(self, run: OfferRun) -> Seq<OfferCall> {
        if self.bad_offer() || (self.mode().hybrid && self.domain is None) || (self.domain is Some
            && !run.permissioned_dex) {
            seq![]
        } else {
            let preclaim = if run.pre_fee_balance is None {
                seq![OfferCall::Preclaim]
            } else {
                seq![]
            };
            if run.pre_fee_balance is None && run.direct_preclaim != Ter::TES_SUCCESS {
                preclaim
            } else {
                match (self.offer_sequence, run.replaced) {
                    (Some(sequence), Read::Found(_)) => preclaim.push(
                        OfferCall::Delete { sequence },
                    ),
                    _ => preclaim,
                }
            }
        }
    }

    /// The tick size of the offer.
    pub open spec fn tick_size(self, run: OfferRun) -> Result<u8, Ter> {
        spec_get_tick_size(
            self.taker_pays,
            self.taker_gets,
            run.pays_issuer_tick,
            run.gets_issuer_tick,
        )
    }

    /// What is done with the rate of the offer: nothing, where all its digits count.
    pub open spec fn repricing(self, run: OfferRun) -> Result<Repricing, Ter> {
        match self.tick_size(run) {
            Err(ter) => Err(ter),
            Ok(tick_size) => if tick_size >= MAX_TICK_SIZE {
                Ok(Repricing::Keep)
            } else {
                match spec_get_rate(self.taker_gets, run.quotient) {
                    Err(ter) => Err(ter),
                    Ok(rate) => {
                        let rounded = spec_round_quality(rate, tick_size);
                        if self.mode().sell && !(self.taker_pays.asset is Mpt) {
                            Ok(Repricing::Pays { rate: rounded })
                        } else if !self.mode().sell && !(self.taker_gets.asset is Mpt) {
                            if spec_rate_is_zero(rounded, run.rate_amount_is_zero) {
                                Err(Ter::TEF_EXCEPTION)
                            } else {
                                Ok(Repricing::Gets { rate: rounded })
                            }
                        } else {
                            Ok(Repricing::Keep)
                        }
                    },
                }
            },
        }
    }

    /// The two sides of the offer, with its rate rounded to the tick size; a selling offer keeps
    /// what it gives, another one what it asks for, and the side that is a token stays.
    pub open spec fn rounded(self, run: OfferRun) -> Result<OfferAmounts, Ter> {
        let offer = OfferAmounts { pays: self.taker_pays, gets: self.taker_gets };
        match self.repricing(run) {
            Err(ter) => Err(ter),
            Ok(Repricing::Keep) => still_an_offer(offer),
            Ok(Repricing::Pays { .. }) => match run.pays_at_rounded_rate {
                Err(_) => Err(Ter::TEF_EXCEPTION),
                Ok(pays) => still_an_offer(OfferAmounts { pays, ..offer }),
            },
            Ok(Repricing::Gets { .. }) => match run.gets_at_rounded_rate {
                Err(_) => Err(Ter::TEF_EXCEPTION),
                Ok(gets) => still_an_offer(OfferAmounts { gets, ..offer }),
            },
        }
    }

    /// What is asked for while the rate of the offer is rounded.
    pub open spec fn rounding_calls(self, run: OfferRun) -> Seq<OfferCall> {
        let quotient = if self.tick_size(run) matches Ok(tick_size) && tick_size < MAX_TICK_SIZE {
            quotient_calls(self.taker_pays, self.taker_gets) + match spec_get_rate(
                self.taker_gets,
                run.quotient,
            ) {
                Ok(rate) => seq![
                    OfferCall::RateAmount {
                        rate: spec_round_quality(rate, self.tick_size(run)->Ok_0),
                    },
                ],
                Err(_) => seq![],
            }
        } else {
            seq![]
        };
        match self.repricing(run) {
            Ok(Repricing::Pays { rate }) => quotient.push(
                OfferCall::Multiply {
                    amount: self.taker_gets,
                    rate,
                    asset: self.taker_pays.asset,
                },
            ),
            Ok(Repricing::Gets { rate }) => quotient.push(
                OfferCall::Divide { amount: self.taker_pays, rate, asset: self.taker_gets.asset },
            ),
            _ => quotient,
        }
    }

    /// The offer as it meets the offers of others.
    pub open spec fn crossing(self, offer: OfferAmounts) -> Crossing {
        Crossing { account: self.account, offer, mode: self.mode(), domain: self.domain }
    }

    /// The result with which an offer ends that is not placed.
    pub open spec fn unplaced(self, residual: Residual, run: OfferRun) -> Option<Ter> {
        if !residual.amounts.both_positive() {
            Some(Ter::TES_SUCCESS)
        } else if self.mode().fill_or_kill {
            Some(Ter::TEC_KILLED)
        } else if self.mode().immediate_or_cancel {
            Some(
                if residual.crossed {
                    Ter::TES_SUCCESS
                } else {
                    Ter::TEC_KILLED
                },
            )
        } else {
            match run.account_root {
                Read::Missing => Some(Ter::TEF_INTERNAL),
                Read::Failed => Some(Ter::TEF_BAD_LEDGER),
                Read::Found(root) => {
                    let balance = match run.pre_fee_balance {
                        Some(balance) => balance,
                        None => root.balance,
                    };
                    if balance < root.reserve {
                        Some(
                            if residual.crossed {
                                Ter::TES_SUCCESS
                            } else {
                                Ter::TEC_INSUF_RESERVE_OFFER
                            },
                        )
                    } else {
                        None
                    }
                },
            }
        }
    }

    /// The rate at which a hybrid offer stands in the open book.
    pub open spec fn open_rate(self, rate: u64, residual: Residual, run: OfferRun) -> Result<u64, Ter> {
        if run.fix_cleanup_3_2_0 {
            Ok(rate)
        } else {
            spec_get_rate(residual.amounts.gets, run.rest_quotient)
        }
    }

    /// The entry of what is left of the offer.
    pub open spec fn entry(
        self,
        residual: Residual,
        rate: u64,
        owner_page: u64,
        book_page: u64,
        open_book: Option<OpenBook>,
    ) -> OfferEntry {
        OfferEntry {
            account: self.account,
            sequence: self.sequence,
            taker_pays: residual.amounts.pays,
            taker_gets: residual.amounts.gets,
            flags: self.mode().spec_ledger_flags(),
            domain: self.domain,
            expiration: self.expiration,
            owner_page,
            rate,
            book_page,
            open_book,
        }
    }

    /// The offer is to stand in its book. The directory states the rate of the whole offer.
    pub open spec fn book_call(
        self,
        offer: OfferAmounts,
        rate: u64,
        stated_rate: u64,
        domain: Option<Uint256>,
    ) -> OfferCall {
        OfferCall::BookPage {
            rate,
            directory: spec_book_directory(offer.pays, offer.gets, stated_rate, domain),
        }
    }

    /// Whether the entry could be written, and what was asked for.
    pub open spec fn insertion(self, entry: OfferEntry, run: OfferRun) -> (Ter, Seq<OfferCall>) {
        (
            if run.inserted {
                Ter::TES_SUCCESS
            } else {
                Ter::TEF_BAD_LEDGER
            },
            seq![OfferCall::Insert(entry)],
        )
    }

    /// A hybrid offer stands in the open book too, before its entry is written.
    pub open spec fn open_placement(
        self,
        offer: OfferAmounts,
        residual: Residual,
        rate: u64,
        owner_page: u64,
        book_page: u64,
        run: OfferRun,
    ) -> (Ter, Seq<OfferCall>) {
        let quotient = if run.fix_cleanup_3_2_0 {
            seq![]
        } else {
            quotient_calls(residual.amounts.pays, residual.amounts.gets)
        };
        match self.open_rate(rate, residual, run) {
            Err(ter) => (ter, quotient),
            Ok(open_rate) => {
                let asked = quotient.push(self.book_call(offer, open_rate, rate, None));
                match run.open_book_page {
                    None => (Ter::TEC_DIR_FULL, asked),
                    Some(page) => {
                        let entry = self.entry(
                            residual,
                            rate,
                            owner_page,
                            book_page,
                            Some(OpenBook { rate: open_rate, page }),
                        );
                        (self.insertion(entry, run).0, asked + self.insertion(entry, run).1)
                    },
                }
            },
        }
    }

    /// Placing what is left of the offer: the result, and what is asked for.
    pub open spec fn placement(
        self,
        offer: OfferAmounts,
        residual: Residual,
        run: OfferRun,
    ) -> (Ter, Seq<OfferCall>) {
        let owner = seq![OfferCall::OwnerPage { account: self.account, sequence: self.sequence }];
        match run.owner_page {
            None => (Ter::TEC_DIR_FULL, owner),
            Some(owner_page) => {
                let counted = owner.push(OfferCall::OwnerCount { account: self.account });
                if !run.owner_counted {
                    (Ter::TEF_BAD_LEDGER, counted)
                } else {
                    let priced = counted + quotient_calls(offer.pays, offer.gets);
                    match spec_get_rate(offer.gets, run.placed_quotient) {
                        Err(ter) => (ter, priced),
                        Ok(rate) => {
                            let booked = priced.push(
                                self.book_call(offer, rate, rate, self.domain),
                            );
                            match run.book_page {
                                None => (Ter::TEC_DIR_FULL, booked),
                                Some(book_page) => {
                                    let rest = if self.mode().hybrid {
                                        self.open_placement(
                                            offer,
                                            residual,
                                            rate,
                                            owner_page,
                                            book_page,
                                            run,
                                        )
                                    } else {
                                        self.insertion(
                                            self.entry(residual, rate, owner_page, book_page, None),
                                            run,
                                        )
                                    };
                                    (rest.0, booked + rest.1)
                                },
                            }
                        },
                    }
                }
            },
        }
    }

    /// Crossing the offer, and placing what is left.
    pub open spec fn trading(self, offer: OfferAmounts, run: OfferRun) -> (Ter, Seq<OfferCall>) {
        let asked = self.crossing(offer).calls(run.cross);
        match self.crossing(offer).outcome(run.cross) {
            Err(ter) => (ter, asked),
            Ok(residual) => match self.unplaced(residual, run) {
                Some(ter) => (ter, asked),
                None => (
                    self.placement(offer, residual, run).0,
                    asked + self.placement(offer, residual, run).1,
                ),
            },
        }
    }

    /// What creating the offer comes to: the result, and what is asked for, in order.
    pub open spec fn outcome(self, run: OfferRun) -> (Ter, Seq<OfferCall>) {
        let early = self.early_calls(run);
        match self.early_end(run) {
            Some(ter) => (ter, early),
            None => {
                let asked = early + self.rounding_calls(run);
                match self.rounded(run) {
                    Err(ter) => (ter, asked),
                    Ok(offer) => (self.trading(offer, run).0, asked + self.trading(offer, run).1),
                }
            },
        }
    }
}

/// What is done with the rate of an offer.
#[derive(Clone, Copy, Debug, PartialEq, Eq, Structural)]
pub enum Repricing {
    /// Both sides stay.
    Keep,
    /// What the taker pays is worked out again at this rate.
    Pays { rate: u64 },
    /// What the taker gets is worked out again at this rate.
    Gets { rate: u64 },
}

/// The rate of two amounts is their quotient, worked out where the divisor is more than zero.
pub open spec fn quotient_calls(pays: Amount, gets: Amount) -> Seq<OfferCall> {
    if gets.positive() {
        seq![OfferCall::Quotient { dividend: pays, divisor: gets }]
    } else {
        seq![]
    }
}

/// An offer that was rounded to nothing is done.
pub open spec fn still_an_offer(offer: OfferAmounts) -> Result<OfferAmounts, Ter> {
    if offer.both_positive() {
        Ok(offer)
    } else {
        Err(Ter::TES_SUCCESS)
    }
}

fn check_offer(tx: &OfferTx, mode: &OfferMode, run: &OfferRun, calls: &mut Vec<OfferCall>) -> (r:
    Option<Ter>)
    requires
        *mode == tx.mode(),
    ensures
        r == tx.early_end(*run),
        final(calls)@ == old(calls)@ + tx.early_calls(*run),
{
    if tx.taker_pays.is_native() && tx.taker_gets.is_native() {
        return Some(Ter::TEM_BAD_OFFER);
    }
    if !tx.taker_pays.is_native() && !tx.taker_gets.is_native() && tx.taker_pays.asset
        == tx.taker_gets.asset {
        return Some(Ter::TEM_BAD_OFFER);
    }
    if !tx.taker_pays.is_positive() || !tx.taker_gets.is_positive() {
        return Some(Ter::TEM_BAD_OFFER);
    }
    if mode.hybrid && tx.domain.is_none() {
        return Some(Ter::TEM_INVALID_FLAG);
    }
    if tx.domain.is_some() && !run.permissioned_dex {
        return Some(Ter::TEM_DISABLED);
    }
    if run.pre_fee_balance.is_none() {
        calls.push(OfferCall::Preclaim);
        if run.direct_preclaim != Ter::TES_SUCCESS {
            return Some(run.direct_preclaim);
        }
    }
    let mut result = Ter::TES_SUCCESS;
    if let Some(sequence) = tx.offer_sequence {
        match run.replaced {
            Read::Failed => {
                return Some(Ter::TEF_BAD_LEDGER);
            },
            Read::Missing => {},
            Read::Found(_) => {
                calls.push(OfferCall::Delete { sequence });
                result = run.replaced_delete;
            },
        }
    }
    if let Some(expiration) = tx.expiration {
        if run.close_time >= expiration {
            return Some(Ter::TEC_EXPIRED);
        }
    }
    if !is_tes_success(result) {
        return Some(result);
    }
    None
}

fn rate_of(
    pays: &Amount,
    gets: &Amount,
    quotient: Result<Amount, AmountError>,
    calls: &mut Vec<OfferCall>,
) -> (r: Result<u64, Ter>)
    ensures
        r == spec_get_rate(*gets, quotient),
        final(calls)@ == old(calls)@ + quotient_calls(*pays, *gets),
{
    if gets.is_positive() {
        calls.push(OfferCall::Quotient { dividend: *pays, divisor: *gets });
    }
    get_rate(gets, quotient)
}

fn reprice(tx: &OfferTx, mode: &OfferMode, run: &OfferRun, calls: &mut Vec<OfferCall>) -> (r: Result<
    Repricing,
    Ter,
>)
    requires
        *mode == tx.mode(),
    ensures
        r == tx.repricing(*run),
        final(calls)@ == old(calls)@ + tx.rounding_calls(*run),
{
    let tick_size: u8 = match get_tick_size(
        &tx.taker_pays,
        &tx.taker_gets,
        run.pays_issuer_tick,
        run.gets_issuer_tick,
    ) {
        Ok(tick_size) => tick_size,
        Err(ter) => {
            return Err(ter);
        },
    };
    if tick_size >= MAX_TICK_SIZE {
        return Ok(Repricing::Keep);
    }
    let rate: u64 = match rate_of(&tx.taker_pays, &tx.taker_gets, run.quotient, calls) {
        Ok(rate) => round_quality(rate, tick_size),
        Err(ter) => {
            return Err(ter);
        },
    };
    calls.push(OfferCall::RateAmount { rate });
    if mode.sell && !matches!(tx.taker_pays.asset, Asset::Mpt(_)) {
        calls.push(
            OfferCall::Multiply { amount: tx.taker_gets, rate, asset: tx.taker_pays.asset },
        );
        Ok(Repricing::Pays { rate })
    } else if !mode.sell && !matches!(tx.taker_gets.asset, Asset::Mpt(_)) {
        if rate_is_zero(rate, run.rate_amount_is_zero) {
            return Err(Ter::TEF_EXCEPTION);
        }
        calls.push(OfferCall::Divide { amount: tx.taker_pays, rate, asset: tx.taker_gets.asset });
        Ok(Repricing::Gets { rate })
    } else {
        Ok(Repricing::Keep)
    }
}

fn round_offer(tx: &OfferTx, mode: &OfferMode, run: &OfferRun, calls: &mut Vec<OfferCall>) -> (r:
    Result<OfferAmounts, Ter>)
    requires
        *mode == tx.mode(),
    ensures
        r == tx.rounded(*run),
        final(calls)@ == old(calls)@ + tx.rounding_calls(*run),
{
    let mut offer = OfferAmounts { pays: tx.taker_pays, gets: tx.taker_gets };
    match reprice(tx, mode, run, calls) {
        Err(ter) => {
            return Err(ter);
        },
        Ok(Repricing::Keep) => {},
        Ok(Repricing::Pays { .. }) => {
            match amount_or_exception(run.pays_at_rounded_rate) {
                Ok(pays) => {
                    offer.pays = pays;
                },
                Err(ter) => {
                    return Err(ter);
                },
            }
        },
        Ok(Repricing::Gets { .. }) => {
            match amount_or_exception(run.gets_at_rounded_rate) {
                Ok(gets) => {
                    offer.gets = gets;
                },
                Err(ter) => {
                    return Err(ter);
                },
            }
        },
    }
    if !offer.pays.is_positive() || !offer.gets.is_positive() {
        return Err(Ter::TES_SUCCESS);
    }
    Ok(offer)
}

fn check_placement(tx: &OfferTx, mode: &OfferMode, residual: &Residual, run: &OfferRun) -> (r: Option<
    Ter,
>)
    requires
        *mode == tx.mode(),
    ensures
        r == tx.unplaced(*residual, *run),
{
    if !residual.amounts.gets.is_positive() || !residual.amounts.pays.is_positive() {
        return Some(Ter::TES_SUCCESS);
    }
    if mode.fill_or_kill {
        return Some(Ter::TEC_KILLED);
    }
    if mode.immediate_or_cancel {
        return if residual.crossed {
            Some(Ter::TES_SUCCESS)
        } else {
            Some(Ter::TEC_KILLED)
        };
    }
    let root = match run.account_root {
        Read::Found(root) => root,
        Read::Missing => {
            return Some(Ter::TEF_INTERNAL);
        },
        Read::Failed => {
            return Some(Ter::TEF_BAD_LEDGER);
        },
    };
    let balance: i64 = match run.pre_fee_balance {
        Some(balance) => balance,
        None => root.balance,
    };
    if balance < root.reserve {
        return if residual.crossed {
            Some(Ter::TES_SUCCESS)
        } else {
            Some(Ter::TEC_INSUF_RESERVE_OFFER)
        };
    }
    None
}

fn insert_entry(tx: &OfferTx, entry: OfferEntry, run: &OfferRun, calls: &mut Vec<OfferCall>) -> (r: Ter)
    ensures
        r == tx.insertion(entry, *run).0,
        final(calls)@ == old(calls)@ + tx.insertion(entry, *run).1,
{
    calls.push(OfferCall::Insert(entry));
    if run.inserted {
        Ter::TES_SUCCESS
    } else {
        Ter::TEF_BAD_LEDGER
    }
}

fn place_openly(
    tx: &OfferTx,
    offer: &OfferAmounts,
    residual: &Residual,
    entry: OfferEntry,
    run: &OfferRun,
    calls: &mut Vec<OfferCall>,
) -> (r: Ter)
    requires
        entry == tx.entry(*residual, entry.rate, entry.owner_page, entry.book_page, None),
    ensures
        r == tx.open_placement(
            *offer,
            *residual,
            entry.rate,
            entry.owner_page,
            entry.book_page,
            *run,
        ).0,
        final(calls)@ == old(calls)@ + tx.open_placement(
            *offer,
            *residual,
            entry.rate,
            entry.owner_page,
            entry.book_page,
            *run,
        ).1,
{
    let open_rate: u64 = if run.fix_cleanup_3_2_0 {
        entry.rate
    } else {
        match rate_of(&residual.amounts.pays, &residual.amounts.gets, run.rest_quotient, calls) {
            Ok(rate) => rate,
            Err(ter) => {
                return ter;
            },
        }
    };
    calls.push(
        OfferCall::BookPage {
            rate: open_rate,
            directory: set_book_directory_fields(&offer.pays, &offer.gets, entry.rate, None),
        },
    );
    match run.open_book_page {
        Some(page) => {
            let mut entry = entry;
            entry.open_book = Some(OpenBook { rate: open_rate, page });
            insert_entry(tx, entry, run, calls)
        },
        None => Ter::TEC_DIR_FULL,
    }
}

fn place_offer(
    tx: &OfferTx,
    mode: &OfferMode,
    offer: &OfferAmounts,
    residual: &Residual,
    run: &OfferRun,
    calls: &mut Vec<OfferCall>,
) -> (r: Ter)
    requires
        *mode == tx.mode(),
    ensures
        r == tx.placement(*offer, *residual, *run).0,
        final(calls)@ == old(calls)@ + tx.placement(*offer, *residual, *run).1,
{
    calls.push(OfferCall::OwnerPage { account: tx.account, sequence: tx.sequence });
    let owner_page: u64 = match run.owner_page {
        Some(page) => page,
        None => {
            return Ter::TEC_DIR_FULL;
        },
    };
    calls.push(OfferCall::OwnerCount { account: tx.account });
    if !run.owner_counted {
        return Ter::TEF_BAD_LEDGER;
    }
    let rate: u64 = match rate_of(&offer.pays, &offer.gets, run.placed_quotient, calls) {
        Ok(rate) => rate,
        Err(ter) => {
            return ter;
        },
    };
    calls.push(
        OfferCall::BookPage {
            rate,
            directory: set_book_directory_fields(&offer.pays, &offer.gets, rate, tx.domain),
        },
    );
    let book_page: u64 = match run.book_page {
        Some(page) => page,
        None => {
            return Ter::TEC_DIR_FULL;
        },
    };
    let entry = OfferEntry {
        account: tx.account,
        sequence: tx.sequence,
        taker_pays: residual.amounts.pays,
        taker_gets: residual.amounts.gets,
        flags: mode.ledger_flags(),
        domain: tx.domain,
        expiration: tx.expiration,
        owner_page,
        rate,
        book_page,
        open_book: None,
    };
    if mode.hybrid {
        place_openly(tx, offer, residual, entry, run, calls)
    } else {
        insert_entry(tx, entry, run, calls)
    }
}

/// Creates an offer: checks it, rounds its rate, lets it meet the offers of others, and places
/// what is left.
pub fn do_offer_create(tx: &OfferTx, run: &OfferRun) -> (r: OfferOutcome)
    ensures
        r.result == tx.outcome(*run).0,
        r.calls@ == tx.outcome(*run).1,
{
    let mode = OfferMode::from_flags(tx.flags);
    let mut calls: Vec<OfferCall> = Vec::new();
    if let Some(ter) = check_offer(tx, &mode, run, &mut calls) {
        return OfferOutcome { result: ter, calls };
    }
    let offer = match round_offer(tx, &mode, run, &mut calls) {
        Ok(offer) => offer,
        Err(ter) => {
            return OfferOutcome { result: ter, calls };
        },
    };
    let crossing = Crossing { account: tx.account, offer, mode, domain: tx.domain };
    let residual = match cross_offer(&crossing, &run.cross, &mut calls) {
        Ok(residual) => residual,
        Err(ter) => {
            return OfferOutcome { result: ter, calls };
        },
    };
    if let Some(ter) = check_placement(tx, &mode, &residual, run) {
        return OfferOutcome { result: ter, calls };
    }
    let result = place_offer(tx, &mode, &offer, &residual, run, &mut calls);
    OfferOutcome { result, calls }
}

/// Only the last call of placing an offer writes an entry, and that is the entry of what is left.
proof fn placing_inserts_the_rest(tx: OfferTx, offer: OfferAmounts, residual: Residual, run: OfferRun)
    ensures
        forall|i: int|
            0 <= i < tx.placement(offer, residual, run).1.len() ==> (#[trigger] tx.placement(
                offer,
                residual,
                run,
            ).1[i] matches OfferCall::Insert(entry) ==> entry == tx.entry(
                residual,
                entry.rate,
                entry.owner_page,
                entry.book_page,
                entry.open_book,
            )),
{
    if let Some(owner_page) = run.owner_page {
        if let Some(book_page) = run.book_page {
            if let Ok(rate) = spec_get_rate(offer.gets, run.placed_quotient) {
                let open = tx.open_placement(offer, residual, rate, owner_page, book_page, run).1;
                assert(forall|i: int|
                    0 <= i < open.len() ==> (#[trigger] open[i] matches OfferCall::Insert(entry)
                        ==> entry == tx.entry(residual, rate, owner_page, book_page, entry.open_book)));
            }
        }
    }
}

/// An entry is written only of an offer that was crossed and is to be placed.
pub proof fn entries_come_from_placing(tx: OfferTx, run: OfferRun, entry: OfferEntry)
    requires
        tx.outcome(run).1.contains(OfferCall::Insert(entry)),
    ensures
        tx.rounded(run) matches Ok(offer) && tx.crossing(offer).outcome(run.cross) matches Ok(residual)
            && tx.unplaced(residual, run) is None && entry == tx.entry(
            residual,
            entry.rate,
            entry.owner_page,
            entry.book_page,
            entry.open_book,
        ),
{
    let all = tx.outcome(run).1;
    let i = choose|i: int| 0 <= i < all.len() && all[i] == OfferCall::Insert(entry);
    let before = tx.early_calls(run) + tx.rounding_calls(run);
    assert(forall|k: int| 0 <= k < before.len() ==> !(#[trigger] before[k] is Insert));
    assert(forall|k: int|
        0 <= k < tx.early_calls(run).len() ==> !(#[trigger] tx.early_calls(run)[k] is Insert));
    if let Ok(offer) = tx.rounded(run) {
        let crossing = tx.crossing(offer);
        let crossed = crossing.calls(run.cross);
        crossing_inserts_nothing(crossing, run.cross);
        if let Ok(residual) = crossing.outcome(run.cross) {
            placing_inserts_the_rest(tx, offer, residual, run);
            let placed = tx.placement(offer, residual, run).1;
            if tx.unplaced(residual, run) is None && tx.early_end(run) is None {
                assert(all == before + (crossed + placed));
                assert(i >= before.len());
                assert(i - before.len() >= crossed.len());
                assert(placed[i - before.len() - crossed.len()] == OfferCall::Insert(entry));
            }
        }
    }
}

/// An offer that is placed asks for something and gives something, belongs to the account and
/// has the sequence of the transaction, and keeps its domain and its expiration.
pub proof fn placed_offers_are_positive(tx: OfferTx, run: OfferRun, entry: OfferEntry)
    requires
        tx.outcome(run).1.contains(OfferCall::Insert(entry)),
    ensures
        entry.taker_pays.positive(),
        entry.taker_gets.positive(),
        entry.account == tx.account,
        entry.sequence == tx.sequence,
        entry.domain == tx.domain,
        entry.expiration == tx.expiration,
{
    entries_come_from_placing(tx, run, entry);
}

/// Fill or kill, and immediate or cancel: such an offer never stands in a book.
pub proof fn immediate_offers_are_never_placed(tx: OfferTx, run: OfferRun, entry: OfferEntry)
    requires
        tx.mode().fill_or_kill || tx.mode().immediate_or_cancel,
    ensures
        !tx.outcome(run).1.contains(OfferCall::Insert(entry)),
{
    if tx.outcome(run).1.contains(OfferCall::Insert(entry)) {
        entries_come_from_placing(tx, run, entry);
    }
}

/// An offer that has expired trades nothing and is not placed: at most it takes back the offer
/// that it was to replace.
pub proof fn expired_offers_trade_nothing(tx: OfferTx, run: OfferRun, trade: Trade, entry: OfferEntry)
    requires
        tx.expiration matches Some(expiration) && run.close_time >= expiration,
    ensures
        !tx.outcome(run).1.contains(OfferCall::Trade(trade)),
        !tx.outcome(run).1.contains(OfferCall::Insert(entry)),
{
}

} // verus!
