//! Taking the fee.
use vstd::prelude::*;
use crate::submit::flags::Read;
use crate::ter::Ter;

verus! {

/// Where the fee comes from.
#[derive(Clone, Copy, Debug, PartialEq, Eq, Structural)]
pub enum FeePayer {
    /// The account of the transaction itself.
    Own { balance: Option<i64> },
    /// What a sponsor has set aside.
    Prefunded(Read<SponsorFunds>),
    /// Another account.
    Other { account: Read<PayerAccount>, fee_sponsored: bool },
}

/// What a sponsor has set aside for fees, and the most it pays for one transaction.
#[derive(Clone, Copy, Debug, PartialEq, Eq, Structural)]
pub struct SponsorFunds {
    pub funds: Option<i64>,
    pub max_fee: Option<i64>,
}

/// Another account that pays.
#[derive(Clone, Copy, Debug, PartialEq, Eq, Structural)]
pub struct PayerAccount {
    pub balance: i64,
    pub reserve: i64,
}

/// A fee that has been taken.
#[derive(Clone, Copy, Debug, PartialEq, Eq, Structural)]
pub struct FeeCharge {
    pub charged: i64,
    /// `TES_SUCCESS`, or `TEC_INSUFF_FEE` where the fee could be paid only in part.
    pub result: Ter,
    /// What the payer has left; none where it keeps no amount.
    pub balance_after: Option<i64>,
}

impl SponsorFunds {
    pub open spec fn available(self) -> i64 {
        match self.funds {
            Some(funds) => funds,
            None => 0,
        }
    }

    pub open spec fn spendable(self) -> i64 {
        let max_fee = match self.max_fee {
            Some(max_fee) => max_fee,
            None => i64::MAX,
        };
        if self.available() < max_fee {
            self.available()
        } else {
            max_fee
        }
    }
}

impl PayerAccount {
    pub open spec fn above_reserve(self) -> int {
        if self.balance - self.reserve > 0 {
            self.balance - self.reserve
        } else {
            0
        }
    }
}

impl FeePayer {
    /// What the payer may spend on the fee.
    pub open spec fn spendable(self) -> Option<int> {
        match self {
            FeePayer::Own { balance } => match balance {
                Some(balance) => Some(balance as int),
                None => None,
            },
            FeePayer::Prefunded(Read::Found(funds)) => Some(funds.spendable() as int),
            FeePayer::Other { account: Read::Found(account), fee_sponsored } => if fee_sponsored {
                Some(account.above_reserve())
            } else {
                None
            },
            _ => None,
        }
    }

    /// What the payer has.
    pub open spec fn held(self) -> Option<int> {
        match self {
            FeePayer::Own { balance } => match balance {
                Some(balance) => Some(balance as int),
                None => None,
            },
            FeePayer::Prefunded(Read::Found(funds)) => Some(funds.available() as int),
            FeePayer::Other { account: Read::Found(account), .. } => Some(account.balance as int),
            _ => None,
        }
    }

    pub open spec fn read_fault(self) -> Option<Ter> {
        match self {
            FeePayer::Own { .. } => None,
            FeePayer::Prefunded(read) => match read {
                Read::Found(_) => None,
                Read::Missing => Some(Ter::TEF_INTERNAL),
                Read::Failed => Some(Ter::TEF_BAD_LEDGER),
            },
            FeePayer::Other { account, .. } => match account {
                Read::Found(_) => None,
                Read::Missing => Some(Ter::TEF_INTERNAL),
                Read::Failed => Some(Ter::TEF_BAD_LEDGER),
            },
        }
    }

    /// What the payer keeps of a balance; a sponsor that has nothing left keeps no amount.
    pub open spec fn kept(self, balance: int) -> Option<i64> {
        if self is Prefunded && balance == 0 {
            None
        } else {
            Some(balance as i64)
        }
    }

    /// What another account that pays has above its reserve, and has left, can be written down.
    pub open spec fn wf(self, fee: Option<i64>) -> bool {
        match self {
            FeePayer::Other { account: Read::Found(account), fee_sponsored } => if fee_sponsored {
                i64::MIN <= account.balance - account.reserve <= i64::MAX
            } else {
                fee matches Some(fee) ==> i64::MIN <= account.balance - fee
            },
            _ => true,
        }
    }
}

/// What taking the fee comes to. A payer that may spend less than the fee pays what it may spend
/// where the ledger is closed, and nothing where the ledger is open or it may spend nothing. An
/// account of a transaction that has no balance pays nothing from it, and a payer that is neither
/// the account nor a sponsor pays whatever its balance.
pub open spec fn fee_taken(payer: FeePayer, fee: Option<i64>, open: bool) -> Result<FeeCharge, Ter> {
    let due = match fee {
        Some(fee) => fee,
        None => 0,
    };
    if let Some(ter) = payer.read_fault() {
        Err(ter)
    } else if payer is Own && (fee is None || payer.held() is None) {
        Ok(FeeCharge { charged: due, result: Ter::TES_SUCCESS, balance_after: payer->balance })
    } else if payer.spendable() is Some && payer.spendable()->Some_0 < due {
        let spendable = payer.spendable()->Some_0;
        if spendable <= 0 || open {
            Err(Ter::TER_INSUF_FEE_B)
        } else {
            Ok(
                FeeCharge {
                    charged: spendable as i64,
                    result: Ter::TEC_INSUFF_FEE,
                    balance_after: payer.kept(payer.held()->Some_0 - spendable),
                },
            )
        }
    } else {
        Ok(
            FeeCharge {
                charged: due,
                result: Ter::TES_SUCCESS,
                balance_after: payer.kept(payer.held()->Some_0 - due),
            },
        )
    }
}

/// Takes the fee.
pub fn charge_fee(payer: FeePayer, fee: Option<i64>, open: bool) -> (r: Result<FeeCharge, Ter>)
    requires
        payer.wf(fee),
        fee matches Some(fee) ==> fee >= 0,
    ensures
        r == fee_taken(payer, fee, open),
{
    let fee_drops: i64 = match fee {
        Some(fee) => fee,
        None => 0,
    };
    match payer {
        FeePayer::Own { balance } => {
            let balance_drops: i64 = match balance {
                Some(balance) => balance,
                None => {
                    return Ok(
                        FeeCharge {
                            charged: fee_drops,
                            result: Ter::TES_SUCCESS,
                            balance_after: None,
                        },
                    );
                },
            };
            if fee.is_none() {
                return Ok(
                    FeeCharge { charged: 0, result: Ter::TES_SUCCESS, balance_after: balance },
                );
            }
            if balance_drops < fee_drops {
                if balance_drops > 0 && !open {
                    return Ok(
                        FeeCharge {
                            charged: balance_drops,
                            result: Ter::TEC_INSUFF_FEE,
                            balance_after: Some(0),
                        },
                    );
                }
                return Err(Ter::TER_INSUF_FEE_B);
            }
            Ok(
                FeeCharge {
                    charged: fee_drops,
                    result: Ter::TES_SUCCESS,
                    balance_after: Some(balance_drops - fee_drops),
                },
            )
        },
        FeePayer::Prefunded(read) => {
            let funds = match read {
                Read::Found(funds) => funds,
                Read::Missing => {
                    return Err(Ter::TEF_INTERNAL);
                },
                Read::Failed => {
                    return Err(Ter::TEF_BAD_LEDGER);
                },
            };
            let balance_drops: i64 = match funds.funds {
                Some(funds) => funds,
                None => 0,
            };
            let max_fee_drops: i64 = match funds.max_fee {
                Some(max_fee) => max_fee,
                None => i64::MAX,
            };
            let spendable: i64 = if balance_drops < max_fee_drops {
                balance_drops
            } else {
                max_fee_drops
            };
            let mut charged: i64 = fee_drops;
            let mut result = Ter::TES_SUCCESS;
            if spendable < fee_drops {
                if spendable <= 0 || open {
                    return Err(Ter::TER_INSUF_FEE_B);
                }
                charged = spendable;
                result = Ter::TEC_INSUFF_FEE;
            }
            let remaining: i64 = balance_drops - charged;
            let balance_after = if remaining == 0 {
                None
            } else {
                Some(remaining)
            };
            Ok(FeeCharge { charged, result, balance_after })
        },
        FeePayer::Other { account, fee_sponsored } => {
            let account = match account {
                Read::Found(account) => account,
                Read::Missing => {
                    return Err(Ter::TEF_INTERNAL);
                },
                Read::Failed => {
                    return Err(Ter::TEF_BAD_LEDGER);
                },
            };
            let mut charged: i64 = fee_drops;
            let mut result = Ter::TES_SUCCESS;
            if fee_sponsored {
                let above: i64 = account.balance - account.reserve;
                let spendable: i64 = if above > 0 {
                    above
                } else {
                    0
                };
                if spendable < fee_drops {
                    if spendable <= 0 || open {
                        return Err(Ter::TER_INSUF_FEE_B);
                    }
                    charged = spendable;
                    result = Ter::TEC_INSUFF_FEE;
                }
            }
            Ok(FeeCharge { charged, result, balance_after: Some(account.balance - charged) })
        },
    }
}

/// Never more than the fee is taken, and it is taken in part only in a closed ledger.
pub proof fn fee_is_bounded(payer: FeePayer, fee: Option<i64>, open: bool)
    requires
        payer.wf(fee),
        fee matches Some(fee) ==> fee >= 0,
    ensures
        fee_taken(payer, fee, open) matches Ok(charge) ==> {
            let due = match fee {
                Some(fee) => fee,
                None => 0,
            };
            &&& 0 <= charge.charged <= due
            &&& charge.charged < due <==> charge.result == Ter::TEC_INSUFF_FEE
            &&& charge.result == Ter::TEC_INSUFF_FEE ==> !open && charge.charged > 0
            &&& charge.result == Ter::TEC_INSUFF_FEE || charge.result == Ter::TES_SUCCESS
        },
{
}

/// What is charged is what the payer has less afterwards.
pub proof fn fee_leaves_the_payer(payer: FeePayer, fee: Option<i64>, open: bool)
    requires
        payer.wf(fee),
        payer.held() is Some,
        fee matches Some(fee) && fee >= 0,
    ensures
        fee_taken(payer, fee, open) matches Ok(charge) ==> payer.held()->Some_0 == charge.charged
            + (match charge.balance_after {
            Some(balance) => balance,
            None => 0,
        }),
{
}

/// A sponsor that signs for a fee never pays out of its reserve.
pub proof fn sponsor_keeps_its_reserve(account: PayerAccount, fee: Option<i64>, open: bool)
    requires
        account.balance >= account.reserve,
        account.balance - account.reserve <= i64::MAX,
        fee matches Some(fee) ==> fee >= 0,
    ensures
        fee_taken(
            FeePayer::Other { account: Read::Found(account), fee_sponsored: true },
            fee,
            open,
        ) matches Ok(charge) ==> (charge.balance_after matches Some(balance) && balance
            >= account.reserve),
{
}

} // verus!
