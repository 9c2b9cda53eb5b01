//! What holds of every offer, over what it asked for and what was traded and placed of it.
use vstd::prelude::*;
use crate::amount::{Amount, AmountError, Asset};
use crate::ids::{AccountID, Uint256, ViewError};
use crate::offer::calls::{OfferCall, OfferCrossing, OfferEntry, Trade};
use crate::offer::create::{OfferRun, OfferTx, entries_come_from_placing};
use crate::offer::cross::{CrossRun, Crossing, OfferAmounts, Residual, amount_or_exception};
use crate::offer::directory::{BookSide, spec_book_directory};
use crate::offer::dispatch::{offer_delete_pub, preclaim_offer_create};
use crate::offer::funds::{Funds, FundsReads, spec_crossing_funds, spec_gateway_rate};
use crate::offer::mode::OfferMode;
use crate::offer::quality::{
    spec_get_rate, spec_get_tick_size, spec_rate_is_zero, spec_round_quality, tick,
};
use crate::submit::flags::Read;
use crate::ter::Ter;

verus! {

proof fn asked_in_either(first: Seq<OfferCall>, second: Seq<OfferCall>, call: OfferCall)
    ensures
        (first + second).contains(call) <==> first.contains(call) || second.contains(call),
{
    let both = first + second;
    if first.contains(call) {
        let i = choose|i: int| 0 <= i < first.len() && first[i] == call;
        assert(both[i] == call);
    }
    if second.contains(call) {
        let i = choose|i: int| 0 <= i < second.len() && second[i] == call;
        assert(both[first.len() + i] == call);
    }
    if both.contains(call) {
        let i = choose|i: int| 0 <= i < both.len() && both[i] == call;
        if i < first.len() {
            assert(first[i] == call);
        } else {
            assert(second[i - first.len()] == call);
        }
    }
}

/// An amount is more than zero where it has a mantissa and no sign, less where it has both, and
/// nothing of an asset is none of it, without a sign.
pub proof fn amounts_have_signs(amount: Amount)
    ensures
        amount.positive() <==> amount.mantissa != 0 && !amount.negative,
        amount.spec_signum() < 0 <==> amount.mantissa != 0 && amount.negative,
        amount.spec_signum() == 0 <==> amount.mantissa == 0,
        amount.native() <==> amount.asset == Asset::Xrp,
        amount.spec_zeroed().mantissa == 0,
        !amount.spec_zeroed().negative,
        amount.spec_zeroed().asset == amount.asset,
        amount.asset is Issue ==> amount.spec_zeroed().exponent == -100,
        !(amount.asset is Issue) ==> amount.spec_zeroed().exponent == 0,
{
}

/// A whole amount has the value that it is made of.
pub proof fn whole_amounts_have_their_value(asset: Asset, value: i64)
    ensures
        ({
            let amount = Amount::of_integer(asset, value);
            &&& amount.asset == asset
            &&& amount.exponent == 0
            &&& value == (if amount.negative {
                -(amount.mantissa as int)
            } else {
                amount.mantissa as int
            })
        }),
{
}

/// What is left of a traded offer keeps the rate of the offer on both sides: what a selling offer
/// still asks for is what its whole price comes to for what it still gives, and what another one
/// still gives what it comes to for what that one still asks for. An offer that is used up on the
/// one side is used up on the other.
pub proof fn part_filled_offers_keep_their_rate(crossing: Crossing, run: CrossRun, residual: Residual)
    requires
        crossing.outcome(run) == Ok::<Residual, Ter>(residual),
        residual.crossed,
    ensures
        crossing.mode.sell && residual.amounts.gets.mantissa != 0 ==> {
            &&& residual.amounts.gets == run.gets_less_in
            &&& !residual.amounts.gets.negative
            &&& residual.amounts.pays == run.pays_for_rest
            &&& crossing.calls(run).contains(
                OfferCall::PaysFor {
                    gets: residual.amounts.gets,
                    whole_gets: crossing.offer.gets,
                    whole_pays: crossing.offer.pays,
                },
            )
        },
        !crossing.mode.sell && residual.amounts.pays.mantissa != 0 ==> {
            &&& residual.amounts.pays == run.pays_less_out
            &&& !residual.amounts.pays.negative
            &&& residual.amounts.gets == run.gets_for_rest
            &&& crossing.calls(run).contains(
                OfferCall::GetsFor {
                    pays: residual.amounts.pays,
                    whole_gets: crossing.offer.gets,
                    whole_pays: crossing.offer.pays,
                },
            )
        },
        crossing.mode.sell && residual.amounts.gets.mantissa == 0 ==> residual.amounts.pays.mantissa
            == 0,
        !crossing.mode.sell && residual.amounts.pays.mantissa == 0
            ==> residual.amounts.gets.mantissa == 0,
{
    let calls = crossing.calls(run);
    if crossing.mode.sell && residual.amounts.gets.mantissa != 0 {
        assert(calls[calls.len() - 1] == (OfferCall::PaysFor {
            gets: residual.amounts.gets,
            whole_gets: crossing.offer.gets,
            whole_pays: crossing.offer.pays,
        }));
    }
    if !crossing.mode.sell && residual.amounts.pays.mantissa != 0 {
        assert(calls[calls.len() - 1] == (OfferCall::GetsFor {
            pays: residual.amounts.pays,
            whole_gets: crossing.offer.gets,
            whole_pays: crossing.offer.pays,
        }));
    }
}

/// A selling offer is used up by what the trade took, without the fee of the issuer, and another
/// one by what the trade gave.
pub proof fn offers_are_used_up_by_the_trade(
    crossing: Crossing,
    run: CrossRun,
    residual: Residual,
    rate: u32,
)
    requires
        crossing.outcome(run) == Ok::<Residual, Ter>(residual),
        residual.crossed,
        residual.amounts.gets.mantissa != 0,
        residual.amounts.pays.mantissa != 0,
        rate == (match crossing.offer.gets.asset {
            Asset::Issue { issuer, .. } => if issuer == crossing.account {
                1_000_000_000
            } else {
                run.transfer_rate->Some_0
            },
            _ => 1_000_000_000,
        }),
    ensures
        crossing.mode.sell && rate == 1_000_000_000 ==> crossing.calls(run).contains(
            OfferCall::Subtract { from: crossing.offer.gets, amount: run.actual_in },
        ),
        crossing.mode.sell && rate != 1_000_000_000 ==> {
            &&& crossing.calls(run).contains(
                OfferCall::TakeOffFee {
                    amount: run.actual_in,
                    fee_rate: rate,
                    asset: crossing.offer.gets.asset,
                },
            )
            &&& run.in_without_fee matches Ok(amount) && crossing.calls(run).contains(
                OfferCall::Subtract { from: crossing.offer.gets, amount },
            )
        },
        !crossing.mode.sell ==> crossing.calls(run).contains(
            OfferCall::Subtract { from: crossing.offer.pays, amount: run.actual_out },
        ),
{
    let calls = crossing.calls(run);
    let last = calls[calls.len() - 2];
    assert(last is Subtract);
    if crossing.mode.sell && rate != 1_000_000_000 {
        assert(calls[calls.len() - 3] is TakeOffFee);
    }
}

/// An offer counts as traded where the trade worked and took or gave something. Otherwise it stays
/// as it was, unless the account has nothing left of what it offers.
pub proof fn trades_count_where_something_moved(crossing: Crossing, run: CrossRun, residual: Residual)
    requires
        crossing.outcome(run) == Ok::<Residual, Ter>(residual),
    ensures
        residual.crossed <==> run.strands.success() && run.flow.success() && ((run.actual_in.mantissa
            != 0 && !run.actual_in.negative) || (run.actual_out.mantissa != 0
            && !run.actual_out.negative)),
        !residual.crossed ==> residual.amounts == crossing.offer || {
            &&& residual.amounts.pays.mantissa == 0
            &&& residual.amounts.gets.mantissa == 0
            &&& run.strands.success() && run.flow.success()
            &&& spec_crossing_funds(
                crossing.account,
                crossing.offer.gets,
                run.funds_after,
            ) matches Ok(after) && !after.amount.positive()
        },
{
}

/// An offer that can be crossed is: its account has something to trade with before and after, the
/// rate of the issuer is known, the ways are found and the trade works. What stands against it
/// otherwise is what it ends with.
pub proof fn crossing_ends_for_a_reason(
    crossing: Crossing,
    run: CrossRun,
    funds: Funds,
    after: Funds,
)
    requires
        spec_crossing_funds(crossing.account, crossing.offer.gets, run.funds) == Ok::<Funds, Ter>(
            funds,
        ),
        spec_crossing_funds(crossing.account, crossing.offer.gets, run.funds_after) == Ok::<
            Funds,
            Ter,
        >(after),
    ensures
        ({
            let priced = crossing.offer.gets.asset matches Asset::Issue { issuer, .. } ==> issuer
                == crossing.account || run.transfer_rate is Some;
            let funded = funds.amount.positive() || !funds.disallow_unfunded;
            &&& !funded ==> crossing.outcome(run) == Err::<Residual, Ter>(Ter::TEC_UNFUNDED_OFFER)
            &&& funded && !priced ==> crossing.outcome(run) == Err::<Residual, Ter>(
                Ter::TEF_BAD_LEDGER,
            )
            &&& funded && priced && run.strands.success() && run.cancellations != Ter::TES_SUCCESS
                ==> crossing.outcome(run) == Err::<Residual, Ter>(run.cancellations)
            &&& funded && priced && (!run.strands.success() || run.cancellations
                == Ter::TES_SUCCESS) && (run.in_without_fee is Ok || !crossing.mode.sell)
                ==> crossing.outcome(run) is Ok
        }),
{
}

/// The trade that is asked for sends what the offer gives, with the fee of the issuer and no more
/// than the account has, for what it asks; at no worse a rate than its own, all or part of it.
pub proof fn the_trade_is_that_of_the_offer(
    crossing: Crossing,
    run: CrossRun,
    funds: Funds,
    rate: u32,
    trade: Trade,
)
    requires
        spec_crossing_funds(crossing.account, crossing.offer.gets, run.funds) == Ok::<Funds, Ter>(
            funds,
        ),
        rate == (match crossing.offer.gets.asset {
            Asset::Issue { issuer, .. } => if issuer == crossing.account {
                1_000_000_000
            } else {
                run.transfer_rate->Some_0
            },
            _ => 1_000_000_000,
        }),
        crossing.calls(run).contains(OfferCall::Trade(trade)),
    ensures
        trade.account == crossing.account,
        !crossing.mode.sell ==> trade.deliver == crossing.offer.pays,
        crossing.mode.sell ==> trade.deliver.asset == crossing.offer.pays.asset
            && !trade.deliver.negative && (match trade.deliver.asset {
            Asset::Xrp => trade.deliver.mantissa == 9_000_000_000_000_000_000
                && trade.deliver.exponent == 0,
            Asset::Issue { .. } => trade.deliver.mantissa == 4_999_999_999_999_999
                && trade.deliver.exponent == 80,
            Asset::Mpt(_) => trade.deliver.mantissa == 4_611_686_018_427_387_903
                && trade.deliver.exponent == 0,
        }),
        rate == 1_000_000_000 ==> trade.threshold.input == crossing.offer.gets,
        rate != 1_000_000_000 ==> trade.threshold.input == run.gets_with_fee
            && crossing.calls(run).contains(
            OfferCall::AddFee { amount: crossing.offer.gets, fee_rate: rate },
        ),
        crossing.calls(run).contains(
            OfferCall::Exceeds { amount: trade.threshold.input, limit: funds.amount },
        ),
        trade.send_max == (if run.send_max_exceeds_funds {
            funds.amount
        } else {
            trade.threshold.input
        }),
        trade.threshold.output == crossing.offer.pays,
        trade.threshold.strictly_better == crossing.mode.passive,
        trade.partial != crossing.mode.fill_or_kill,
        trade.crossing == OfferCrossing::Sell <==> crossing.mode.sell,
        crossing.calls(run).contains(OfferCall::CancelOwn),
        exists|strands: crate::offer::calls::Strands|
            #[trigger] crossing.calls(run).contains(OfferCall::Strands(strands)) && strands.account
                == crossing.account && strands.deliver == crossing.offer.pays.asset && strands.send
                == crossing.offer.gets.asset && strands.domain == crossing.domain && (
            strands.through_xrp <==> !(crossing.offer.pays.asset is Xrp)
                && !(crossing.offer.gets.asset is Xrp)),
        run.strands.success(),
{
    let calls = crossing.calls(run);
    let i = choose|i: int| 0 <= i < calls.len() && calls[i] == OfferCall::Trade(trade);
    let at: int = if rate == 1_000_000_000 {
        0
    } else {
        1
    };
    assert(calls[at] is Exceeds);
    assert(calls[at + 1] is Strands);
    let strands = calls[at + 1]->Strands_0;
    assert(calls.contains(OfferCall::Strands(strands)));
    if rate != 1_000_000_000 {
        assert(calls[0] is AddFee);
    }
    if run.strands.success() {
        assert(calls[at + 3] == OfferCall::CancelOwn);
        if run.cancellations == Ter::TES_SUCCESS && run.flow.success() {
            let after = crossing.after_calls(rate, funds.disallow_unfunded, run);
            assert(forall|k: int| 0 <= k < after.len() ==> !(#[trigger] after[k] is Trade));
            assert(forall|k: int|
                at + 4 <= k < calls.len() ==> #[trigger] calls[k] == after[k - at - 4]);
        }
        assert(i == at + 2);
    }
}

/// A trade is asked for wherever the account has something to trade with, the rate of the issuer is
/// known, and the ways were found.
pub proof fn offers_are_traded(crossing: Crossing, run: CrossRun, funds: Funds)
    requires
        spec_crossing_funds(crossing.account, crossing.offer.gets, run.funds) == Ok::<Funds, Ter>(
            funds,
        ),
        funds.amount.positive() || !funds.disallow_unfunded,
        crossing.offer.gets.asset matches Asset::Issue { issuer, .. } ==> issuer
            == crossing.account || run.transfer_rate is Some,
        run.strands.success(),
    ensures
        exists|trade: Trade|
            #[trigger] crossing.calls(run).contains(OfferCall::Trade(trade)),
{
    let rate = spec_gateway_rate(crossing.account, crossing.offer.gets, run.transfer_rate)->Some_0;
    let calls = crossing.calls(run);
    let at = crossing.fee_calls(rate).len() as int;
    let trade = crossing.trade(rate, funds, run);
    assert(calls[at + 2] == OfferCall::Trade(trade));
    assert(calls.contains(OfferCall::Trade(trade)));
}

/// What an account has of the native currency is what is free to spend, and what it has of its own
/// issue is all that it offers.
pub proof fn funds_of_drops_and_own_issues(account: AccountID, amount: Amount, reads: FundsReads)
    ensures
        amount.asset is Xrp && reads.liquid is Some ==> (spec_crossing_funds(
            account,
            amount,
            reads,
        ) matches Ok(funds) && funds.disallow_unfunded && funds.amount.asset is Xrp
            && reads.liquid == Some(
            (if funds.amount.negative {
                -(funds.amount.mantissa as int)
            } else {
                funds.amount.mantissa as int
            }) as i64,
        )),
        amount.asset is Xrp && reads.liquid is None ==> spec_crossing_funds(account, amount, reads)
            == Err::<Funds, Ter>(Ter::TEF_BAD_LEDGER),
        amount.asset matches Asset::Issue { issuer, .. } && issuer == account
            ==> spec_crossing_funds(account, amount, reads) == Ok::<Funds, Ter>(
            Funds { amount, disallow_unfunded: true },
        ),
{
}

/// What an account has of the issue of another is what its trust line holds, and nothing where that
/// is frozen: by the issuer altogether, by the issuer on this line, or by either side in depth.
pub proof fn funds_of_issues(
    account: AccountID,
    issuer: AccountID,
    amount: Amount,
    reads: FundsReads,
)
    requires
        amount.asset matches Asset::Issue { issuer: by, .. } && by == issuer,
        issuer != account,
    ensures
        ({
            let funds = spec_crossing_funds(account, amount, reads);
            let higher = issuer.hi > account.hi || (issuer.hi == account.hi && issuer.lo
                > account.lo);
            let frozen = reads.issuer == Read::Found(true) || (reads.line matches Read::Found(line)
                && (line.low_deep || line.high_deep || (higher && line.high) || (!higher
                && line.low)));
            let unread = reads.issuer is Failed || reads.line is Failed;
            &&& unread || (!frozen && reads.held is None) ==> funds == Err::<Funds, Ter>(
                Ter::TEF_BAD_LEDGER,
            )
            &&& !unread && frozen ==> (funds matches Ok(found) && found.amount.mantissa == 0
                && found.amount.asset == amount.asset && found.disallow_unfunded)
            &&& !unread && !frozen ==> (reads.held matches Some(held) ==> funds == Ok::<Funds, Ter>(
                Funds { amount: held, disallow_unfunded: true },
            ))
        }),
{
}

/// What an account has of a token is its holding, unless that is frozen or the account may not hold
/// it; the issuer has what it can still issue, and may trade without anything.
pub proof fn funds_of_tokens(account: AccountID, amount: Amount, reads: FundsReads)
    requires
        amount.asset is Mpt,
    ensures
        ({
            let funds = spec_crossing_funds(account, amount, reads);
            let none = funds matches Ok(found) && found.amount.mantissa == 0 && found.amount.asset
                == amount.asset && found.disallow_unfunded;
            &&& reads.issuance is Failed ==> funds == Err::<Funds, Ter>(Ter::TEF_BAD_LEDGER)
            &&& reads.issuance is Missing ==> none
            &&& reads.issuance matches Read::Found(issuance) ==> {
                &&& issuance.issuer == account ==> funds == Ok::<Funds, Ter>(
                    Funds {
                        amount: Amount::of_integer(amount.asset, issuance.available),
                        disallow_unfunded: false,
                    },
                )
                &&& issuance.issuer != account && (reads.token_frozen is None || (
                reads.token_frozen == Some(false) && reads.token_authorization is None)) ==> funds
                    == Err::<Funds, Ter>(Ter::TEF_BAD_LEDGER)
                &&& issuance.issuer != account && reads.token_frozen == Some(true) ==> none
                &&& issuance.issuer != account && reads.token_frozen == Some(false) && (
                reads.token_authorization matches Some(ter) && ter != Ter::TES_SUCCESS) ==> none
                &&& issuance.issuer != account && reads.token_frozen == Some(false)
                    && reads.token_authorization == Some(Ter::TES_SUCCESS) ==> {
                    &&& reads.token is Failed ==> funds == Err::<Funds, Ter>(Ter::TEF_BAD_LEDGER)
                    &&& reads.token is Missing ==> none
                    &&& reads.token matches Read::Found(value) ==> funds == Ok::<Funds, Ter>(
                        Funds {
                            amount: Amount::of_integer(amount.asset, value),
                            disallow_unfunded: true,
                        },
                    )
                }
            }
        }),
{
}

/// Each digit that counts more makes the step ten times as small.
pub proof fn ticks_are_powers_of_ten(digits: u8)
    ensures
        digits < 16 ==> tick(digits) == 10 * tick((digits + 1) as u8),
        digits >= 16 ==> tick(digits) == 1,
{
}

/// The tick size is the smallest that an issuer of either side asks for, and no more than sixteen.
pub proof fn the_smallest_tick_counts(
    pays: Amount,
    gets: Amount,
    pays_issuer: Read<Option<u8>>,
    gets_issuer: Read<Option<u8>>,
)
    ensures
        ({
            let size = spec_get_tick_size(pays, gets, pays_issuer, gets_issuer);
            let by_pays = |t: u8| pays.asset is Issue && pays_issuer == Read::Found(Some(t));
            let by_gets = |t: u8| gets.asset is Issue && gets_issuer == Read::Found(Some(t));
            &&& (pays.asset is Issue && pays_issuer is Failed) || (gets.asset is Issue
                && gets_issuer is Failed) <==> size is Err
            &&& size matches Err(ter) ==> ter == Ter::TEF_BAD_LEDGER
            &&& size matches Ok(t) ==> {
                &&& t <= 16
                &&& t < 16 ==> by_pays(t) || by_gets(t)
                &&& forall|s: u8| #[trigger] by_pays(s) ==> t <= s
                &&& forall|s: u8| #[trigger] by_gets(s) ==> t <= s
            }
        }),
{
}

/// The rate of an offer is what its taker pays divided by what the taker gets, and none where that
/// is nothing.
pub proof fn rates_are_quotients(gets: Amount, quotient: Result<Amount, AmountError>)
    ensures
        gets.mantissa == 0 || gets.negative ==> spec_get_rate(gets, quotient) == Ok::<u64, Ter>(0),
        gets.mantissa != 0 && !gets.negative && quotient is Err ==> spec_get_rate(gets, quotient)
            == Err::<u64, Ter>(Ter::TEF_EXCEPTION),
        gets.mantissa != 0 && !gets.negative ==> (quotient matches Ok(rate) ==> {
            let word = spec_get_rate(gets, quotient);
            &&& rate.mantissa == 0 || rate.negative || rate.exponent < -100 || rate.exponent > 155
                ==> word == Ok::<u64, Ter>(0)
            &&& rate.mantissa != 0 && !rate.negative && -100 <= rate.exponent <= 155
                && rate.mantissa < 0x0100_0000_0000_0000 ==> (word matches Ok(bits) && bits == (
            rate.exponent + 100) * 0x0100_0000_0000_0000 + rate.mantissa)
        }),
{
    if let Ok(rate) = quotient {
        if rate.mantissa != 0 && !rate.negative && -100 <= rate.exponent <= 155 && rate.mantissa
            < 0x0100_0000_0000_0000 {
            let exponent = (rate.exponent + 100) as u64;
            let mantissa = rate.mantissa;
            assert(((exponent << 56u64) | mantissa) == exponent * 0x0100_0000_0000_0000 + mantissa)
                by (bit_vector)
                requires
                    exponent < 256,
                    mantissa < 0x0100_0000_0000_0000,
            ;
        }
    }
}

/// A selling offer whose rate is rounded keeps what it gives and asks for what that comes to at the
/// rounded rate; another one keeps what it asks for and gives what that comes to. An offer at full
/// precision keeps both.
pub proof fn rounding_keeps_one_side(tx: OfferTx, run: OfferRun, digits: u8, rate: u64)
    requires
        tx.tick_size(run) == Ok::<u8, Ter>(digits),
        spec_get_rate(tx.taker_gets, run.quotient) == Ok::<u64, Ter>(rate),
        tx.taker_gets.positive(),
    ensures
        ({
            let sell = tx.flags & 0x0008_0000 != 0;
            let rounded = spec_round_quality(rate, digits);
            let calls = tx.rounding_calls(run);
            &&& digits >= 16 ==> calls.len() == 0 && (tx.rounded(run) matches Ok(offer)
                ==> offer.pays == tx.taker_pays && offer.gets == tx.taker_gets)
            &&& digits < 16 ==> calls.contains(
                OfferCall::Quotient { dividend: tx.taker_pays, divisor: tx.taker_gets },
            )
            &&& digits < 16 && sell && !(tx.taker_pays.asset is Mpt) ==> calls.contains(
                OfferCall::Multiply {
                    amount: tx.taker_gets,
                    rate: rounded,
                    asset: tx.taker_pays.asset,
                },
            ) && (tx.rounded(run) matches Ok(offer) ==> offer.gets == tx.taker_gets
                && run.pays_at_rounded_rate == Ok::<Amount, AmountError>(offer.pays))
            &&& digits < 16 && !sell && !(tx.taker_gets.asset is Mpt) && !spec_rate_is_zero(
                rounded,
                run.rate_amount_is_zero,
            ) ==> calls.contains(
                OfferCall::Divide {
                    amount: tx.taker_pays,
                    rate: rounded,
                    asset: tx.taker_gets.asset,
                },
            ) && (tx.rounded(run) matches Ok(offer) ==> offer.pays == tx.taker_pays
                && run.gets_at_rounded_rate == Ok::<Amount, AmountError>(offer.gets))
            &&& digits < 16 && ((sell && tx.taker_pays.asset is Mpt) || (!sell
                && tx.taker_gets.asset is Mpt)) ==> (tx.rounded(run) matches Ok(offer)
                ==> offer.pays == tx.taker_pays && offer.gets == tx.taker_gets)
        }),
{
    let calls = tx.rounding_calls(run);
    if digits < 16 {
        assert(calls[0] == (OfferCall::Quotient {
            dividend: tx.taker_pays,
            divisor: tx.taker_gets,
        }));
        if calls.len() == 3 {
            let call = calls[2];
            assert(call is Multiply || call is Divide);
        }
    }
}

/// What becomes of an offer of two positive sides once it was rounded: it goes on wherever it is
/// still an offer and could be worked out, and ends without a fault where it is none any more.
pub proof fn rounded_offers_go_on(tx: OfferTx, run: OfferRun)
    requires
        tx.taker_pays.positive(),
        tx.taker_gets.positive(),
        tx.tick_size(run) is Ok,
        run.quotient is Ok,
    ensures
        tx.tick_size(run) == Ok::<u8, Ter>(16) ==> tx.rounded(run) is Ok,
        tx.flags & 0x0008_0000 != 0 ==> (run.pays_at_rounded_rate matches Ok(pays) && pays.positive()
            ==> tx.rounded(run) is Ok),
        tx.rounded(run) matches Err(ter) ==> ter == Ter::TES_SUCCESS || ter == Ter::TEF_EXCEPTION,
        tx.rounded(run) matches Ok(offer) ==> offer.pays.positive() && offer.gets.positive(),
{
}

/// An offer ends before anything is traded where it is none, where its flags, its domain or what
/// comes before it stand against it, and where it has expired: for the first of these reasons.
pub proof fn offers_end_early_for_a_reason(tx: OfferTx, run: OfferRun)
    ensures
        ({
            let ends = |ter: Ter| tx.early_end(run) == Some(ter);
            let bad = (tx.taker_pays.asset is Xrp && tx.taker_gets.asset is Xrp) || (
            !(tx.taker_pays.asset is Xrp) && tx.taker_pays.asset == tx.taker_gets.asset)
                || tx.taker_pays.mantissa == 0 || tx.taker_pays.negative || tx.taker_gets.mantissa
                == 0 || tx.taker_gets.negative;
            let homeless = tx.flags & 0x0010_0000 != 0 && tx.domain is None;
            let barred = tx.domain is Some && !run.permissioned_dex;
            let stopped = run.pre_fee_balance is None && run.direct_preclaim != Ter::TES_SUCCESS;
            let lost = tx.offer_sequence is Some && run.replaced is Failed;
            let expired = tx.expiration matches Some(time) && time <= run.close_time;
            let kept = tx.offer_sequence is Some && run.replaced is Found
                && run.replaced_delete != Ter::TES_SUCCESS;
            &&& bad ==> ends(Ter::TEM_BAD_OFFER)
            &&& !bad && homeless ==> ends(Ter::TEM_INVALID_FLAG)
            &&& !bad && !homeless && barred ==> ends(Ter::TEM_DISABLED)
            &&& !bad && !homeless && !barred && stopped ==> ends(run.direct_preclaim)
            &&& !bad && !homeless && !barred && !stopped && lost ==> ends(Ter::TEF_BAD_LEDGER)
            &&& !bad && !homeless && !barred && !stopped && !lost && expired ==> ends(
                Ter::TEC_EXPIRED,
            )
            &&& !bad && !homeless && !barred && !stopped && !lost && !expired && kept ==> ends(
                run.replaced_delete,
            )
            &&& tx.early_end(run) is None <==> !bad && !homeless && !barred && !stopped && !lost
                && !expired && !kept
        }),
{
}

/// The offer that another one replaces is taken back, and no other.
pub proof fn the_replaced_offer_is_taken_back(tx: OfferTx, run: OfferRun, sequence: u32)
    requires
        tx.early_end(run) is None,
    ensures
        tx.offer_sequence == Some(sequence) && run.replaced is Found ==> tx.outcome(run).1.contains(
            OfferCall::Delete { sequence },
        ),
        tx.early_calls(run).contains(OfferCall::Delete { sequence }) ==> tx.offer_sequence == Some(
            sequence,
        ),
{
    let early = tx.early_calls(run);
    let all = tx.outcome(run).1;
    if tx.offer_sequence == Some(sequence) && run.replaced is Found {
        assert(all[early.len() - 1] == OfferCall::Delete { sequence });
    }
}

/// What is left of an offer ends without being placed: where nothing is left of it, where it was to
/// be filled or killed, where it was to be immediate, and where its account has not the reserve for
/// it. It counts as a success where nothing is left or something was traded.
pub proof fn offers_are_unplaced_for_a_reason(
    tx: OfferTx,
    run: OfferRun,
    offer: OfferAmounts,
    residual: Residual,
)
    requires
        tx.early_end(run) is None,
        tx.rounded(run) == Ok::<OfferAmounts, Ter>(offer),
        tx.crossing(offer).outcome(run.cross) == Ok::<Residual, Ter>(residual),
    ensures
        ({
            let result = tx.outcome(run).0;
            let left = residual.amounts.pays.positive() && residual.amounts.gets.positive();
            let kill = tx.flags & 0x0004_0000 != 0;
            let immediate = tx.flags & 0x0002_0000 != 0;
            &&& !left ==> result == Ter::TES_SUCCESS
            &&& left && kill ==> result == Ter::TEC_KILLED
            &&& left && !kill && immediate ==> result == (if residual.crossed {
                Ter::TES_SUCCESS
            } else {
                Ter::TEC_KILLED
            })
            &&& left && !kill && !immediate ==> {
                &&& run.account_root is Missing ==> result == Ter::TEF_INTERNAL
                &&& run.account_root is Failed ==> result == Ter::TEF_BAD_LEDGER
                &&& run.account_root matches Read::Found(root) ==> {
                    let balance = match run.pre_fee_balance {
                        Some(before) => before,
                        None => root.balance,
                    };
                    balance < root.reserve ==> result == (if residual.crossed {
                        Ter::TES_SUCCESS
                    } else {
                        Ter::TEC_INSUF_RESERVE_OFFER
                    })
                }
            }
        }),
{
}

/// What is left of an offer is placed wherever nothing is against that: it then stands in the
/// directory of its owner and in its book, at the rate of the whole offer.
pub proof fn what_is_left_is_placed(
    tx: OfferTx,
    run: OfferRun,
    offer: OfferAmounts,
    residual: Residual,
    rate: u64,
    owner_page: u64,
    book_page: u64,
    entry: OfferEntry,
)
    requires
        tx.early_end(run) is None,
        tx.rounded(run) == Ok::<OfferAmounts, Ter>(offer),
        tx.crossing(offer).outcome(run.cross) == Ok::<Residual, Ter>(residual),
        residual.amounts.pays.positive(),
        residual.amounts.gets.positive(),
        tx.flags & 0x0004_0000 == 0,
        tx.flags & 0x0002_0000 == 0,
        tx.flags & 0x0010_0000 == 0,
        run.account_root matches Read::Found(root) && root.reserve <= (match run.pre_fee_balance {
            Some(before) => before,
            None => root.balance,
        }),
        run.owner_page == Some(owner_page),
        run.owner_counted,
        spec_get_rate(offer.gets, run.placed_quotient) == Ok::<u64, Ter>(rate),
        run.book_page == Some(book_page),
        run.inserted,
        entry.account == tx.account,
        entry.sequence == tx.sequence,
        entry.taker_pays == residual.amounts.pays,
        entry.taker_gets == residual.amounts.gets,
        entry.flags == tx.mode().spec_ledger_flags(),
        entry.domain == tx.domain,
        entry.expiration == tx.expiration,
        entry.owner_page == owner_page,
        entry.rate == rate,
        entry.book_page == book_page,
        entry.open_book is None,
    ensures
        tx.outcome(run).0 == Ter::TES_SUCCESS,
        tx.outcome(run).1.contains(OfferCall::Insert(entry)),
        tx.outcome(run).1.contains(
            OfferCall::OwnerPage { account: tx.account, sequence: tx.sequence },
        ),
        tx.outcome(run).1.contains(OfferCall::OwnerCount { account: tx.account }),
        tx.outcome(run).1.contains(
            OfferCall::BookPage {
                rate,
                directory: spec_book_directory(offer.pays, offer.gets, rate, tx.domain),
            },
        ),
{
    let all = tx.outcome(run).1;
    let before = tx.early_calls(run) + tx.rounding_calls(run);
    let crossed = tx.crossing(offer).calls(run.cross);
    let placed = tx.placement(offer, residual, run).1;
    assert(all == before + (crossed + placed));
    assert(placed[placed.len() - 1] == OfferCall::Insert(entry));
    assert(placed[placed.len() - 2] is BookPage);
    assert(placed[1] is OwnerCount);
    assert(placed[0] is OwnerPage);
    let at = (before.len() + crossed.len()) as int;
    assert(all[at] == placed[0]);
    assert(all[at + 1] == placed[1]);
    assert(all[at + placed.len() - 2] == placed[placed.len() - 2]);
    assert(all[at + placed.len() - 1] == placed[placed.len() - 1]);
}

/// A hybrid offer stands in the book of its domain and, at the same time, in the open one: there
/// under the rate of the whole offer, or before the cleanup of the rules under that of what is
/// left.
pub proof fn hybrid_offers_stand_in_both_books(
    tx: OfferTx,
    run: OfferRun,
    offer: OfferAmounts,
    residual: Residual,
    rate: u64,
    open_rate: u64,
    owner_page: u64,
    book_page: u64,
    open_page: u64,
)
    requires
        tx.early_end(run) is None,
        tx.rounded(run) == Ok::<OfferAmounts, Ter>(offer),
        tx.crossing(offer).outcome(run.cross) == Ok::<Residual, Ter>(residual),
        tx.unplaced(residual, run) is None,
        tx.flags & 0x0010_0000 != 0,
        run.owner_page == Some(owner_page),
        run.owner_counted,
        spec_get_rate(offer.gets, run.placed_quotient) == Ok::<u64, Ter>(rate),
        run.fix_cleanup_3_2_0 ==> open_rate == rate,
        !run.fix_cleanup_3_2_0 ==> spec_get_rate(residual.amounts.gets, run.rest_quotient) == Ok::<
            u64,
            Ter,
        >(open_rate),
        run.book_page == Some(book_page),
        run.open_book_page == Some(open_page),
        run.inserted,
    ensures
        tx.outcome(run).0 == Ter::TES_SUCCESS,
        tx.outcome(run).1.contains(
            OfferCall::BookPage {
                rate,
                directory: spec_book_directory(offer.pays, offer.gets, rate, tx.domain),
            },
        ),
        tx.outcome(run).1.contains(
            OfferCall::BookPage {
                rate: open_rate,
                directory: spec_book_directory(offer.pays, offer.gets, rate, None),
            },
        ),
        tx.outcome(run).1.last() matches OfferCall::Insert(entry) && entry.rate == rate
            && entry.book_page == book_page && entry.owner_page == owner_page && (
        entry.open_book matches Some(open) && open.rate == open_rate && open.page == open_page),
{
    let all = tx.outcome(run).1;
    let before = tx.early_calls(run) + tx.rounding_calls(run);
    let crossed = tx.crossing(offer).calls(run.cross);
    let placed = tx.placement(offer, residual, run).1;
    assert(all == before + (crossed + placed));
    let at = (before.len() + crossed.len()) as int;
    let n = placed.len();
    let first: int = if run.fix_cleanup_3_2_0 {
        n - 3
    } else {
        n - 4
    };
    assert(placed[n - 1] is Insert);
    assert(placed[n - 2] == OfferCall::BookPage {
        rate: open_rate,
        directory: spec_book_directory(offer.pays, offer.gets, rate, None),
    });
    assert(placed[first] == OfferCall::BookPage {
        rate,
        directory: spec_book_directory(offer.pays, offer.gets, rate, tx.domain),
    });
    assert(all[at + first] == placed[first]);
    assert(all[at + n - 2] == placed[n - 2]);
    assert(all[at + n - 1] == placed[n - 1]);
}

/// The directory of a book states the two assets, the rate and the domain.
pub proof fn directories_state_their_book(
    pays: Amount,
    gets: Amount,
    rate: u64,
    domain: Option<Uint256>,
)
    ensures
        ({
            let directory = spec_book_directory(pays, gets, rate, domain);
            let states = |side: BookSide, asset: Asset|
                match asset {
                    Asset::Xrp => side matches BookSide::Currency { currency, issuer }
                        && currency.hi == 0 && currency.lo == 0 && issuer.hi == 0 && issuer.lo == 0,
                    Asset::Issue { currency, issuer } => side == BookSide::Currency {
                        currency,
                        issuer,
                    },
                    Asset::Mpt(id) => side == BookSide::Mpt(id),
                };
            &&& states(directory.taker_pays, pays.asset)
            &&& states(directory.taker_gets, gets.asset)
            &&& directory.exchange_rate == rate
            &&& directory.domain == domain
        }),
{
}

/// The flags of a transaction say how its offer is handled, and an offer in the ledger says so
/// again.
pub proof fn flags_say_how_an_offer_is_handled(flags: u32)
    ensures
        ({
            let mode = OfferMode::spec_from_flags(flags);
            let placed = mode.spec_ledger_flags();
            &&& mode.passive <==> flags & 0x0001_0000 != 0
            &&& mode.immediate_or_cancel <==> flags & 0x0002_0000 != 0
            &&& mode.fill_or_kill <==> flags & 0x0004_0000 != 0
            &&& mode.sell <==> flags & 0x0008_0000 != 0
            &&& mode.hybrid <==> flags & 0x0010_0000 != 0
            &&& placed & 0x0001_0000 != 0 <==> mode.passive
            &&& placed & 0x0002_0000 != 0 <==> mode.sell
            &&& placed & 0x0004_0000 != 0 <==> mode.hybrid
        }),
{
    crate::offer::mode::ledger_flags_tell_the_mode(OfferMode::spec_from_flags(flags));
}

/// The offer that is placed after a trade keeps the rate of the whole offer, and one that traded
/// nothing is placed as it was crossed: as the transaction has it, but for the side that was
/// rounded.
pub proof fn placed_offers_keep_their_rate(tx: OfferTx, run: OfferRun, entry: OfferEntry)
    requires
        tx.outcome(run).1.contains(OfferCall::Insert(entry)),
    ensures
        ({
            let sell = tx.flags & 0x0008_0000 != 0;
            let traded = run.cross.strands.success() && run.cross.flow.success() && (
            run.cross.actual_in.positive() || run.cross.actual_out.positive());
            let calls = tx.outcome(run).1;
            &&& traded && sell ==> entry.taker_gets == run.cross.gets_less_in && entry.taker_pays
                == run.cross.pays_for_rest && exists|whole: Amount|
                (whole == tx.taker_pays || run.pays_at_rounded_rate == Ok::<Amount, AmountError>(
                    whole,
                )) && #[trigger] calls.contains(
                    OfferCall::PaysFor {
                        gets: entry.taker_gets,
                        whole_gets: tx.taker_gets,
                        whole_pays: whole,
                    },
                )
            &&& traded && !sell ==> entry.taker_pays == run.cross.pays_less_out && entry.taker_gets
                == run.cross.gets_for_rest && exists|whole: Amount|
                (whole == tx.taker_gets || run.gets_at_rounded_rate == Ok::<Amount, AmountError>(
                    whole,
                )) && #[trigger] calls.contains(
                    OfferCall::GetsFor {
                        pays: entry.taker_pays,
                        whole_gets: whole,
                        whole_pays: tx.taker_pays,
                    },
                )
            &&& !traded && sell ==> entry.taker_gets == tx.taker_gets && (entry.taker_pays
                == tx.taker_pays || run.pays_at_rounded_rate == Ok::<Amount, AmountError>(
                entry.taker_pays,
            ))
            &&& !traded && !sell ==> entry.taker_pays == tx.taker_pays && (entry.taker_gets
                == tx.taker_gets || run.gets_at_rounded_rate == Ok::<Amount, AmountError>(
                entry.taker_gets,
            ))
            &&& entry.flags & 0x0001_0000 != 0 <==> tx.flags & 0x0001_0000 != 0
            &&& entry.flags & 0x0002_0000 != 0 <==> tx.flags & 0x0008_0000 != 0
            &&& entry.flags & 0x0004_0000 != 0 <==> tx.flags & 0x0010_0000 != 0
        }),
{
    entries_come_from_placing(tx, run, entry);
    flags_say_how_an_offer_is_handled(tx.flags);
    let offer = tx.rounded(run)->Ok_0;
    let crossing = tx.crossing(offer);
    let residual = crossing.outcome(run.cross)->Ok_0;
    trades_count_where_something_moved(crossing, run.cross, residual);
    if residual.crossed {
        part_filled_offers_keep_their_rate(crossing, run.cross, residual);
        let before = tx.early_calls(run) + tx.rounding_calls(run);
        let crossed = crossing.calls(run.cross);
        let placed = tx.placement(offer, residual, run).1;
        let calls = tx.outcome(run).1;
        if tx.early_end(run) is None {
            assert(calls == before + (crossed + placed));
            if crossing.mode.sell {
                let asked = OfferCall::PaysFor {
                    gets: entry.taker_gets,
                    whole_gets: tx.taker_gets,
                    whole_pays: offer.pays,
                };
                asked_in_either(crossed, placed, asked);
                asked_in_either(before, crossed + placed, asked);
            } else {
                let asked = OfferCall::GetsFor {
                    pays: entry.taker_pays,
                    whole_gets: offer.gets,
                    whole_pays: tx.taker_pays,
                };
                asked_in_either(crossed, placed, asked);
                asked_in_either(before, crossed + placed, asked);
            }
        } else {
            early_offers_write_nothing(tx, run, entry);
        }
    }
}

proof fn early_offers_write_nothing(tx: OfferTx, run: OfferRun, entry: OfferEntry)
    requires
        tx.early_end(run) is Some,
    ensures
        !tx.outcome(run).1.contains(OfferCall::Insert(entry)),
{
    let early = tx.early_calls(run);
    assert(forall|k: int| 0 <= k < early.len() ==> !(#[trigger] early[k] is Insert));
}

/// A rate whose exponent is encoded as zero is none, and another one is none where its amount is
/// zero.
pub proof fn rates_without_an_exponent_are_none(rate: u64, zero: bool)
    ensures
        rate < 0x0100_0000_0000_0000 ==> spec_rate_is_zero(rate, zero),
        rate >= 0x0100_0000_0000_0000 ==> (spec_rate_is_zero(rate, zero) <==> zero),
{
    assert((rate >> 56u64 == 0) == (rate < 0x0100_0000_0000_0000)) by (bit_vector);
}

/// What is found of an offer is told, and nothing found is a fault here; an offer whose removal
/// cannot be read stands in a bad ledger.
pub proof fn what_others_see_of_offers(
    found: Option<Ter>,
    removed: Result<Ter, ViewError>,
    told: Ter,
    deleted: Ter,
)
    requires
        call_ensures(preclaim_offer_create, (found,), told),
        call_ensures(offer_delete_pub, (removed,), deleted),
    ensures
        found matches Some(ter) ==> told == ter,
        found is None ==> told == Ter::TEF_INTERNAL,
        removed matches Ok(ter) ==> deleted == ter,
        removed is Err ==> deleted == Ter::TEF_BAD_LEDGER,
{
}

/// An offer is priced to the smallest tick size that the issuer of either of its sides asks for:
/// that of what its taker pays by that issuer, and that of what its taker gets by the other.
pub proof fn offers_follow_their_issuers_ticks(tx: OfferTx, run: OfferRun)
    ensures
        ({
            let size = tx.tick_size(run);
            let unread = (tx.taker_pays.asset is Issue && run.pays_issuer_tick is Failed) || (
            tx.taker_gets.asset is Issue && run.gets_issuer_tick is Failed);
            let by_pays = |t: u8|
                tx.taker_pays.asset is Issue && run.pays_issuer_tick == Read::Found(Some(t));
            let by_gets = |t: u8|
                tx.taker_gets.asset is Issue && run.gets_issuer_tick == Read::Found(Some(t));
            &&& unread <==> size is Err
            &&& size matches Err(ter) ==> ter == Ter::TEF_BAD_LEDGER
            &&& size matches Ok(t) ==> {
                &&& t <= 16
                &&& t < 16 ==> by_pays(t) || by_gets(t)
                &&& forall|s: u8| #[trigger] by_pays(s) ==> t <= s
                &&& forall|s: u8| #[trigger] by_gets(s) ==> t <= s
            }
        }),
{
}

/// What is left of an offer is worked out only where something was traded and the account can still
/// back it.
pub proof fn nothing_is_left_over_without_a_trade(
    crossing: Crossing,
    run: CrossRun,
    before: Funds,
    after: Funds,
    call: OfferCall,
)
    requires
        spec_crossing_funds(crossing.account, crossing.offer.gets, run.funds) == Ok::<Funds, Ter>(
            before,
        ),
        spec_crossing_funds(crossing.account, crossing.offer.gets, run.funds_after) == Ok::<
            Funds,
            Ter,
        >(after),
        ((run.actual_in.mantissa == 0 || run.actual_in.negative) && (run.actual_out.mantissa == 0
            || run.actual_out.negative)) || (before.disallow_unfunded && !after.amount.positive()),
        crossing.calls(run).contains(call),
    ensures
        !(call is Subtract),
        !(call is PaysFor),
        !(call is GetsFor),
        !(call is TakeOffFee),
{
    let calls = crossing.calls(run);
    let i = choose|i: int| 0 <= i < calls.len() && calls[i] == call;
    assert(calls[i] == call);
}

/// A calculation gives its amount, or ends the offer where it could not be written down.
pub proof fn calculations_end_the_offer(result: Result<Amount, AmountError>, r: Result<Amount, Ter>)
    requires
        call_ensures(amount_or_exception, (result,), r),
    ensures
        result matches Ok(amount) ==> r == Ok::<Amount, Ter>(amount),
        result is Err ==> r == Err::<Amount, Ter>(Ter::TEF_EXCEPTION),
{
}

} // verus!
