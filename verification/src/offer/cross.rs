//! What is left of an offer once it has met the offers of others.
use vstd::prelude::*;
use crate::amount::{Amount, AmountError};
use crate::ids::{AccountID, Uint256};
use crate::offer::calls::{OfferCall, OfferCrossing, Strands, Threshold, Trade};
use crate::offer::funds::{
    Funds, FundsReads, PARITY_RATE, crossing_account_funds, gateway_adjusted_send_max, gateway_rate,
    sell_cross_deliver_limit, spec_crossing_funds, spec_gateway_rate, spec_sell_limit,
    spec_send_max,
};
use crate::offer::mode::OfferMode;
use crate::ter::{Ter, is_tes_success};

verus! {

/// The two sides of an offer.
#[derive(Clone, Copy, Debug, PartialEq, Eq, Structural)]
pub struct OfferAmounts {
    pub pays: Amount,
    pub gets: Amount,
}

impl OfferAmounts {
    pub open spec fn both_positive(self) -> bool {
        self.pays.positive() && self.gets.positive()
    }
}

/// What the exchange answers while an offer is being crossed. Each answer counts only where the
/// question comes up.
#[derive(Clone, Copy, Debug)]
pub struct CrossRun {
    pub funds: FundsReads,
    pub transfer_rate: Option<u32>,
    /// What the taker gets, with the transfer fee on top.
    pub gets_with_fee: Amount,
    /// The most that the offer sends is more than the account has, as the comparison that is asked
    /// for answers.
    pub send_max_exceeds_funds: bool,
    /// What building the ways of the trade came to.
    pub strands: Ter,
    /// What taking back the own offers in the way came to.
    pub cancellations: Ter,
    /// What the trade itself came to, and what it took and gave.
    pub flow: Ter,
    pub actual_in: Amount,
    pub actual_out: Amount,
    /// What the account has afterwards.
    pub funds_after: FundsReads,
    /// What the trade took, without the transfer fee.
    pub in_without_fee: Result<Amount, AmountError>,
    /// What the taker gets, less what the trade took without its fee.
    pub gets_less_in: Amount,
    /// What the taker pays at the rate of the offer for what is left of the other side.
    pub pays_for_rest: Amount,
    /// What the taker pays, less what the trade gave.
    pub pays_less_out: Amount,
    /// What the taker gets at the rate of the offer for what is left of the other side.
    pub gets_for_rest: Amount,
}

/// What is left of an offer, and whether anything was traded.
#[derive(Clone, Copy, Debug, PartialEq, Eq, Structural)]
pub struct Residual {
    pub amounts: OfferAmounts,
    pub crossed: bool,
}

/// An offer that is to meet the offers of others.
#[derive(Clone, Copy, Debug, PartialEq, Eq, Structural)]
pub struct Crossing {
    pub account: AccountID,
    pub offer: OfferAmounts,
    pub mode: OfferMode,
    pub domain: Option<Uint256>,
}

impl CrossRun {
    /// Something was traded.
    pub open spec fn traded(self) -> bool {
        self.actual_in.positive() || self.actual_out.positive()
    }
}

pub open spec fn clamp(amount: Amount) -> Amount {
    if amount.spec_signum() < 0 {
        amount.spec_zeroed()
    } else {
        amount
    }
}

/// What is left of an offer that was traded. A selling offer is used up by what it gave, another
/// one by what it received; the other side follows at the rate of the offer.
pub open spec fn residual_amounts(offer: OfferAmounts, sell: bool, run: CrossRun) -> OfferAmounts {
    if sell {
        let gets = clamp(run.gets_less_in);
        OfferAmounts {
            gets,
            pays: if gets.positive() {
                run.pays_for_rest
            } else {
                offer.pays.spec_zeroed()
            },
        }
    } else {
        let pays = clamp(run.pays_less_out);
        OfferAmounts {
            pays,
            gets: if pays.positive() {
                run.gets_for_rest
            } else {
                offer.gets.spec_zeroed()
            },
        }
    }
}

impl Crossing {
    /// The ways of the trade. Between two issued assets there is one more, through the native
    /// currency.
    pub open spec fn strands(self) -> Strands {
        Strands {
            account: self.account,
            deliver: self.offer.pays.asset,
            send: self.offer.gets.asset,
            through_xrp: !self.offer.gets.native() && !self.offer.pays.native(),
            domain: self.domain,
        }
    }

    /// The trade. It sends no more than the account has, at no worse a rate than that of the
    /// offer with the transfer fee; a passive offer trades at better rates only.
    pub open spec fn trade(self, rate: u32, funds: Funds, run: CrossRun) -> Trade {
        let send_max = spec_send_max(self.offer.gets, rate, run.gets_with_fee);
        Trade {
            account: self.account,
            deliver: if self.mode.sell {
                spec_sell_limit(self.offer.pays)
            } else {
                self.offer.pays
            },
            send_max: if run.send_max_exceeds_funds {
                funds.amount
            } else {
                send_max
            },
            partial: !self.mode.fill_or_kill,
            crossing: if self.mode.sell {
                OfferCrossing::Sell
            } else {
                OfferCrossing::Yes
            },
            threshold: Threshold {
                input: send_max,
                output: self.offer.pays,
                strictly_better: self.mode.passive,
            },
        }
    }

    /// The transfer fee is worked out where there is one.
    pub open spec fn fee_calls(self, rate: u32) -> Seq<OfferCall> {
        if rate == PARITY_RATE || self.offer.gets.native() {
            seq![]
        } else {
            seq![OfferCall::AddFee { amount: self.offer.gets, fee_rate: rate }]
        }
    }

    /// The most that the offer sends, with the transfer fee, is held against what the account has.
    pub open spec fn limit_call(self, rate: u32, funds: Funds, run: CrossRun) -> OfferCall {
        OfferCall::Exceeds {
            amount: spec_send_max(self.offer.gets, rate, run.gets_with_fee),
            limit: funds.amount,
        }
    }

    /// What a trade took counts without the transfer fee.
    pub open spec fn taken(self, rate: u32, run: CrossRun) -> Result<Amount, AmountError> {
        if rate != PARITY_RATE {
            run.in_without_fee
        } else {
            Ok(run.actual_in)
        }
    }

    /// What is worked out of an offer that was traded.
    pub open spec fn residual_calls(self, rate: u32, run: CrossRun) -> Seq<OfferCall> {
        if self.mode.sell {
            let fee = if rate != PARITY_RATE {
                seq![
                    OfferCall::TakeOffFee {
                        amount: run.actual_in,
                        fee_rate: rate,
                        asset: self.offer.gets.asset,
                    },
                ]
            } else {
                seq![]
            };
            match self.taken(rate, run) {
                Err(_) => fee,
                Ok(taken) => fee.push(OfferCall::Subtract { from: self.offer.gets, amount: taken })
                    + (if clamp(run.gets_less_in).positive() {
                    seq![
                        OfferCall::PaysFor {
                            gets: clamp(run.gets_less_in),
                            whole_gets: self.offer.gets,
                            whole_pays: self.offer.pays,
                        },
                    ]
                } else {
                    seq![]
                }),
            }
        } else {
            seq![OfferCall::Subtract { from: self.offer.pays, amount: run.actual_out }] + (if clamp(
                run.pays_less_out,
            ).positive() {
                seq![
                    OfferCall::GetsFor {
                        pays: clamp(run.pays_less_out),
                        whole_gets: self.offer.gets,
                        whole_pays: self.offer.pays,
                    },
                ]
            } else {
                seq![]
            })
        }
    }

    /// What is left after a trade that worked.
    pub open spec fn after_trade(self, rate: u32, disallow_unfunded: bool, run: CrossRun) -> Result<
        Residual,
        Ter,
    > {
        match spec_crossing_funds(self.account, self.offer.gets, run.funds_after) {
            Err(ter) => Err(ter),
            Ok(after) => if disallow_unfunded && !after.amount.positive() {
                Ok(
                    Residual {
                        amounts: OfferAmounts {
                            pays: self.offer.pays.spec_zeroed(),
                            gets: self.offer.gets.spec_zeroed(),
                        },
                        crossed: run.traded(),
                    },
                )
            } else if !run.traded() {
                Ok(Residual { amounts: self.offer, crossed: false })
            } else if self.mode.sell && self.taken(rate, run) is Err {
                Err(Ter::TEF_EXCEPTION)
            } else {
                Ok(
                    Residual {
                        amounts: residual_amounts(self.offer, self.mode.sell, run),
                        crossed: true,
                    },
                )
            },
        }
    }

    /// What is asked for after a trade that worked.
    pub open spec fn after_calls(self, rate: u32, disallow_unfunded: bool, run: CrossRun) -> Seq<
        OfferCall,
    > {
        match spec_crossing_funds(self.account, self.offer.gets, run.funds_after) {
            Err(_) => seq![],
            Ok(after) => if (disallow_unfunded && !after.amount.positive()) || !run.traded() {
                seq![]
            } else {
                self.residual_calls(rate, run)
            },
        }
    }

    /// What is left of the offer, or the result with which it ends.
    pub open spec fn outcome(self, run: CrossRun) -> Result<Residual, Ter> {
        match spec_crossing_funds(self.account, self.offer.gets, run.funds) {
            Err(ter) => Err(ter),
            Ok(funds) => if funds.disallow_unfunded && !funds.amount.positive() {
                Err(Ter::TEC_UNFUNDED_OFFER)
            } else {
                match spec_gateway_rate(self.account, self.offer.gets, run.transfer_rate) {
                    None => Err(Ter::TEF_BAD_LEDGER),
                    Some(rate) => if !run.strands.success() {
                        Ok(Residual { amounts: self.offer, crossed: false })
                    } else if run.cancellations != Ter::TES_SUCCESS {
                        Err(run.cancellations)
                    } else if !run.flow.success() {
                        Ok(Residual { amounts: self.offer, crossed: false })
                    } else {
                        self.after_trade(rate, funds.disallow_unfunded, run)
                    },
                }
            },
        }
    }

    /// What is asked for while the offer is being crossed, in order.
    pub open spec fn calls(self, run: CrossRun) -> Seq<OfferCall> {
        match spec_crossing_funds(self.account, self.offer.gets, run.funds) {
            Err(_) => seq![],
            Ok(funds) => if funds.disallow_unfunded && !funds.amount.positive() {
                seq![]
            } else {
                match spec_gateway_rate(self.account, self.offer.gets, run.transfer_rate) {
                    None => seq![],
                    Some(rate) => self.fee_calls(rate) + seq![
                        self.limit_call(rate, funds, run),
                        OfferCall::Strands(self.strands()),
                    ] + if !run.strands.success() {
                        seq![]
                    } else {
                        seq![OfferCall::Trade(self.trade(rate, funds, run)), OfferCall::CancelOwn]
                            + if run.cancellations != Ter::TES_SUCCESS || !run.flow.success() {
                            seq![]
                        } else {
                            self.after_calls(rate, funds.disallow_unfunded, run)
                        }
                    },
                }
            },
        }
    }
}

/// A calculation that could not be written down ends the offer.
pub fn amount_or_exception(result: Result<Amount, AmountError>) -> (r: Result<Amount, Ter>)
    ensures
        r == (match result {
            Ok(amount) => Ok::<Amount, Ter>(amount),
            Err(_) => Err(Ter::TEF_EXCEPTION),
        }),
{
    match result {
        Ok(amount) => Ok(amount),
        Err(_) => Err(Ter::TEF_EXCEPTION),
    }
}

fn trade_of(crossing: &Crossing, rate: u32, funds: &Funds, run: &CrossRun) -> (r: Trade)
    ensures
        r == crossing.trade(rate, *funds, *run),
{
    let send_max = gateway_adjusted_send_max(&crossing.offer.gets, rate, run.gets_with_fee);
    Trade {
        account: crossing.account,
        deliver: if crossing.mode.sell {
            sell_cross_deliver_limit(&crossing.offer.pays)
        } else {
            crossing.offer.pays
        },
        send_max: if run.send_max_exceeds_funds {
            funds.amount
        } else {
            send_max
        },
        partial: !crossing.mode.fill_or_kill,
        crossing: if crossing.mode.sell {
            OfferCrossing::Sell
        } else {
            OfferCrossing::Yes
        },
        threshold: Threshold {
            input: send_max,
            output: crossing.offer.pays,
            strictly_better: crossing.mode.passive,
        },
    }
}

fn residual_of(crossing: &Crossing, rate: u32, run: &CrossRun, calls: &mut Vec<OfferCall>) -> (r:
    Result<OfferAmounts, Ter>)
    ensures
        final(calls)@ == old(calls)@ + crossing.residual_calls(rate, *run),
        r == (if crossing.mode.sell && crossing.taken(rate, *run) is Err {
            Err::<OfferAmounts, Ter>(Ter::TEF_EXCEPTION)
        } else {
            Ok(residual_amounts(crossing.offer, crossing.mode.sell, *run))
        }),
{
    let offer = crossing.offer;
    if crossing.mode.sell {
        let mut taken = run.actual_in;
        if rate != PARITY_RATE {
            calls.push(
                OfferCall::TakeOffFee {
                    amount: run.actual_in,
                    fee_rate: rate,
                    asset: offer.gets.asset,
                },
            );
            taken = match amount_or_exception(run.in_without_fee) {
                Ok(amount) => amount,
                Err(ter) => {
                    return Err(ter);
                },
            };
        }
        calls.push(OfferCall::Subtract { from: offer.gets, amount: taken });
        let gets = run.gets_less_in.clamped();
        let pays = if gets.is_positive() {
            calls.push(
                OfferCall::PaysFor { gets, whole_gets: offer.gets, whole_pays: offer.pays },
            );
            run.pays_for_rest
        } else {
            offer.pays.zeroed()
        };
        Ok(OfferAmounts { pays, gets })
    } else {
        calls.push(OfferCall::Subtract { from: offer.pays, amount: run.actual_out });
        let pays = run.pays_less_out.clamped();
        let gets = if pays.is_positive() {
            calls.push(
                OfferCall::GetsFor { pays, whole_gets: offer.gets, whole_pays: offer.pays },
            );
            run.gets_for_rest
        } else {
            offer.gets.zeroed()
        };
        Ok(OfferAmounts { pays, gets })
    }
}

fn after_the_trade(
    crossing: &Crossing,
    rate: u32,
    disallow_unfunded: bool,
    run: &CrossRun,
    calls: &mut Vec<OfferCall>,
) -> (r: Result<Residual, Ter>)
    ensures
        final(calls)@ == old(calls)@ + crossing.after_calls(rate, disallow_unfunded, *run),
        r == crossing.after_trade(rate, disallow_unfunded, *run),
{
    let crossed = run.actual_in.is_positive() || run.actual_out.is_positive();
    let after = match crossing_account_funds(crossing.account, &crossing.offer.gets, &run.funds_after) {
        Ok(after) => after,
        Err(ter) => {
            return Err(ter);
        },
    };
    if disallow_unfunded && !after.amount.is_positive() {
        return Ok(
            Residual {
                amounts: OfferAmounts {
                    pays: crossing.offer.pays.zeroed(),
                    gets: crossing.offer.gets.zeroed(),
                },
                crossed,
            },
        );
    }
    if !crossed {
        return Ok(Residual { amounts: crossing.offer, crossed: false });
    }
    match residual_of(crossing, rate, run, calls) {
        Ok(amounts) => Ok(Residual { amounts, crossed: true }),
        Err(ter) => Err(ter),
    }
}

/// Lets an offer meet the offers of others. A trade that does not work out leaves the offer as
/// it was. What is asked for on the way is added to the calls.
pub fn cross_offer(crossing: &Crossing, run: &CrossRun, calls: &mut Vec<OfferCall>) -> (r: Result<
    Residual,
    Ter,
>)
    ensures
        final(calls)@ == old(calls)@ + crossing.calls(*run),
        r == crossing.outcome(*run),
{
    let offer = crossing.offer;
    let funds = match crossing_account_funds(crossing.account, &offer.gets, &run.funds) {
        Ok(funds) => funds,
        Err(ter) => {
            return Err(ter);
        },
    };
    if funds.disallow_unfunded && !funds.amount.is_positive() {
        return Err(Ter::TEC_UNFUNDED_OFFER);
    }
    let rate: u32 = match gateway_rate(crossing.account, &offer.gets, run.transfer_rate) {
        Some(rate) => rate,
        None => {
            return Err(Ter::TEF_BAD_LEDGER);
        },
    };
    if rate != PARITY_RATE && !offer.gets.is_native() {
        calls.push(OfferCall::AddFee { amount: offer.gets, fee_rate: rate });
    }
    calls.push(
        OfferCall::Exceeds {
            amount: gateway_adjusted_send_max(&offer.gets, rate, run.gets_with_fee),
            limit: funds.amount,
        },
    );
    calls.push(
        OfferCall::Strands(
            Strands {
                account: crossing.account,
                deliver: offer.pays.asset,
                send: offer.gets.asset,
                through_xrp: !offer.gets.is_native() && !offer.pays.is_native(),
                domain: crossing.domain,
            },
        ),
    );
    if !is_tes_success(run.strands) {
        return Ok(Residual { amounts: offer, crossed: false });
    }
    calls.push(OfferCall::Trade(trade_of(crossing, rate, &funds, run)));
    calls.push(OfferCall::CancelOwn);
    if run.cancellations != Ter::TES_SUCCESS {
        return Err(run.cancellations);
    }
    if !is_tes_success(run.flow) {
        return Ok(Residual { amounts: offer, crossed: false });
    }
    after_the_trade(crossing, rate, funds.disallow_unfunded, run, calls)
}

/// Crossing an offer writes no entry.
pub proof fn crossing_inserts_nothing(crossing: Crossing, run: CrossRun)
    ensures
        forall|i: int|
            0 <= i < crossing.calls(run).len() ==> !(#[trigger] crossing.calls(run)[i] is Insert),
{
    if let Ok(funds) = spec_crossing_funds(crossing.account, crossing.offer.gets, run.funds) {
        if let Some(rate) = spec_gateway_rate(
            crossing.account,
            crossing.offer.gets,
            run.transfer_rate,
        ) {
            let after = crossing.after_calls(rate, funds.disallow_unfunded, run);
            assert(forall|i: int| 0 <= i < after.len() ==> !(#[trigger] after[i] is Insert));
        }
    }
}

/// Whatever the trade took or gave, what is left of an offer is never below zero on the side
/// that the trade uses up.
pub proof fn residual_is_never_negative(offer: OfferAmounts, sell: bool, run: CrossRun)
    ensures
        sell ==> residual_amounts(offer, sell, run).gets.spec_signum() >= 0,
        !sell ==> residual_amounts(offer, sell, run).pays.spec_signum() >= 0,
{
}

/// A trade that failed leaves a funded offer as it was.
pub proof fn dry_crossing_keeps_the_offer(crossing: Crossing, run: CrossRun, residual: Residual)
    requires
        crossing.outcome(run) == Ok::<Residual, Ter>(residual),
        !run.strands.success() || !run.flow.success(),
    ensures
        residual == (Residual { amounts: crossing.offer, crossed: false }),
{
}

/// An account never sends more than it has: the most that an offer sends, which is also what its
/// rate is measured by, is held against what the account has, and where it is more, the trade is
/// told what the account has.
pub proof fn trades_are_funded(crossing: Crossing, run: CrossRun, trade: Trade)
    requires
        crossing.calls(run).contains(OfferCall::Trade(trade)),
    ensures
        spec_crossing_funds(crossing.account, crossing.offer.gets, run.funds) matches Ok(funds) && {
            &&& crossing.calls(run).contains(
                OfferCall::Exceeds { amount: trade.threshold.input, limit: funds.amount },
            )
            &&& trade.send_max == if run.send_max_exceeds_funds {
                funds.amount
            } else {
                trade.threshold.input
            }
        },
{
    let calls = crossing.calls(run);
    let i = choose|i: int| 0 <= i < calls.len() && calls[i] == OfferCall::Trade(trade);
    assert(calls[i] == OfferCall::Trade(trade));
    let funds = spec_crossing_funds(crossing.account, crossing.offer.gets, run.funds)->Ok_0;
    let rate = spec_gateway_rate(crossing.account, crossing.offer.gets, run.transfer_rate)->Some_0;
    let after = crossing.after_calls(rate, funds.disallow_unfunded, run);
    assert(forall|k: int| 0 <= k < after.len() ==> !(#[trigger] after[k] is Trade));
    assert(calls[crossing.fee_calls(rate).len() as int] == crossing.limit_call(rate, funds, run));
}

} // verus!
