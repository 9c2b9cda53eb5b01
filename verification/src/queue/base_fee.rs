//! What a transaction costs before load is counted in.
use vstd::prelude::*;
use crate::submit::flags::Read;
use crate::ter::Ter;
use crate::tx_type::TxType;

verus! {

/// The fee of a batch whose fee cannot be computed.
pub const INVALID_BATCH_BASE_FEE: u64 = 0xffff_ffff_ffff_ffff;

/// The fee as a signed number of drops; that of a batch whose fee cannot be computed is more than
/// anybody pays.
pub fn fee_drops_as_i64(fee: u64) -> (r: i64)
    requires
        fee == INVALID_BATCH_BASE_FEE || fee <= i64::MAX,
    ensures
        fee == INVALID_BATCH_BASE_FEE ==> r == i64::MAX,
        fee != INVALID_BATCH_BASE_FEE ==> r == fee,
{
    if fee == INVALID_BATCH_BASE_FEE {
        i64::MAX
    } else {
        fee as i64
    }
}

pub open spec fn listed(signers: Option<usize>) -> usize {
    match signers {
        Some(count) => count,
        None => 0,
    }
}

fn count_or_zero(signers: Option<usize>) -> (r: usize)
    ensures
        r == listed(signers),
{
    match signers {
        Some(count) => count,
        None => 0,
    }
}

/// How many signatures an ordinary transaction pays for: its own signers, and those of its
/// sponsor. Either list may be absent.
pub fn fee_signer_count(signers: Option<usize>, sponsor_signers: Option<usize>) -> (r: usize)
    ensures
        r == (if listed(signers) + listed(sponsor_signers) > usize::MAX {
            usize::MAX as int
        } else {
            listed(signers) + listed(sponsor_signers)
        }),
{
    let own: usize = count_or_zero(signers);
    let sponsor: usize = count_or_zero(sponsor_signers);
    own.saturating_add(sponsor)
}

/// How many signatures the other party of a loan pays for: its signers, or its one signature.
pub fn counterparty_signer_count(signers: Option<usize>, signature: bool) -> (r: usize)
    ensures
        r == (match signers {
            Some(count) => count,
            None => if signature {
                1
            } else {
                0
            },
        }),
{
    match signers {
        Some(count) => count,
        None => if signature {
            1
        } else {
            0
        },
    }
}

/// What the fee of a transaction is computed from. Each answer counts only for the types of
/// transaction that ask for it.
pub struct FeeFacts {
    pub txn_type: TxType,
    pub ledger_base_fee: u64,
    /// What an ordinary transaction with as many signatures costs.
    pub transactor_base_fee: u64,
    pub change_fee: u64,
    pub batch_fee: Result<u64, Ter>,
    /// The transaction is signed with the key that the account is made of.
    pub signing_key_matches: bool,
    /// The account, and whether it has used its free change of keys.
    pub password_spent: Read<bool>,
    pub account_delete_fee: u64,
    pub amm_create_fee: u64,
    pub escrow_finish_fee: u64,
    pub counterparty_signers: usize,
    pub loan_pay_fee: Result<u64, Ter>,
    pub ledger_state_fix_fee: u64,
    pub confidential_multiplier: u64,
}

impl FeeFacts {
    /// Changing the key is free once, for whoever signs with the master key.
    pub open spec fn key_change_fee(self) -> Result<u64, Ter> {
        match self.password_spent {
            Read::Failed => Err(Ter::TEF_BAD_LEDGER),
            Read::Found(spent) => if self.signing_key_matches && !spent {
                Ok(0)
            } else {
                Ok(self.transactor_base_fee)
            },
            Read::Missing => Ok(self.transactor_base_fee),
        }
    }

    /// The surcharges stay within the range of fees.
    pub open spec fn wf(self) -> bool {
        &&& self.txn_type == TxType::LOAN_SET ==> self.transactor_base_fee + self.ledger_base_fee
            * self.counterparty_signers <= u64::MAX
        &&& self.txn_type.confidential_mpt() ==> self.transactor_base_fee + self.ledger_base_fee
            * self.confidential_multiplier <= u64::MAX
    }

    pub open spec fn fee(self) -> Result<u64, Ter> {
        if self.txn_type.change_pseudo_transaction() {
            Ok(self.change_fee)
        } else if self.txn_type.confidential_mpt() {
            Ok(
                (self.transactor_base_fee + self.ledger_base_fee
                    * self.confidential_multiplier) as u64,
            )
        } else {
            match self.txn_type {
                TxType::BATCH => self.batch_fee,
                TxType::REGULAR_KEY_SET => self.key_change_fee(),
                TxType::ACCOUNT_DELETE => Ok(self.account_delete_fee),
                TxType::AMM_CREATE => Ok(self.amm_create_fee),
                TxType::ESCROW_FINISH => Ok(self.escrow_finish_fee),
                TxType::LOAN_SET => Ok(
                    (self.transactor_base_fee + self.ledger_base_fee
                        * self.counterparty_signers) as u64,
                ),
                TxType::LOAN_PAY => self.loan_pay_fee,
                TxType::LEDGER_STATE_FIX => Ok(self.ledger_state_fix_fee),
                _ => Ok(self.transactor_base_fee),
            }
        }
    }
}

fn with_surcharge(fee: u64, base: u64, count: u64) -> (r: u64)
    requires
        fee + base * count <= u64::MAX,
    ensures
        r == fee + base * count,
{
    proof {
        assert(base * count >= 0) by (nonlinear_arith);
    }
    fee + base * count
}

/// What a transaction costs.
pub fn calculate_sttx_base_fee(facts: &FeeFacts) -> (r: Result<u64, Ter>)
    requires
        facts.wf(),
    ensures
        r == facts.fee(),
{
    match facts.txn_type {
        TxType::AMENDMENT | TxType::FEE | TxType::UNL_MODIFY => Ok(facts.change_fee),
        TxType::BATCH => facts.batch_fee,
        TxType::REGULAR_KEY_SET => match facts.password_spent {
            Read::Failed => Err(Ter::TEF_BAD_LEDGER),
            Read::Found(spent) => if facts.signing_key_matches && !spent {
                Ok(0)
            } else {
                Ok(facts.transactor_base_fee)
            },
            Read::Missing => Ok(facts.transactor_base_fee),
        },
        TxType::ACCOUNT_DELETE => Ok(facts.account_delete_fee),
        TxType::AMM_CREATE => Ok(facts.amm_create_fee),
        TxType::ESCROW_FINISH => Ok(facts.escrow_finish_fee),
        TxType::LOAN_SET => Ok(
            with_surcharge(
                facts.transactor_base_fee,
                facts.ledger_base_fee,
                facts.counterparty_signers as u64,
            ),
        ),
        TxType::LOAN_PAY => facts.loan_pay_fee,
        TxType::LEDGER_STATE_FIX => Ok(facts.ledger_state_fix_fee),
        TxType::CONFIDENTIAL_MPT_CONVERT
        | TxType::CONFIDENTIAL_MPT_MERGE_INBOX
        | TxType::CONFIDENTIAL_MPT_CONVERT_BACK
        | TxType::CONFIDENTIAL_MPT_SEND
        | TxType::CONFIDENTIAL_MPT_CLAWBACK => Ok(
            with_surcharge(
                facts.transactor_base_fee,
                facts.ledger_base_fee,
                facts.confidential_multiplier,
            ),
        ),
        _ => Ok(facts.transactor_base_fee),
    }
}

/// What a transaction costs, for show: where that cannot be computed, what an ordinary one does.
pub fn calculate_sttx_base_fee_for_metrics(facts: &FeeFacts) -> (r: u64)
    requires
        facts.wf(),
    ensures
        r == (match facts.fee() {
            Ok(fee) => fee,
            Err(_) => facts.transactor_base_fee,
        }),
{
    match calculate_sttx_base_fee(facts) {
        Ok(fee) => fee,
        Err(_) => facts.transactor_base_fee,
    }
}

/// What a waiting transaction costs when its ledger is accepted: nothing without a ledger, and an
/// ordinary fee where that of a batch cannot be computed.
pub fn pending_base_fee(ledger_base_fee: Option<u64>, calculated: u64) -> (r: u64)
    ensures
        r == (match ledger_base_fee {
            None => 0,
            Some(base) => if calculated == INVALID_BATCH_BASE_FEE {
                base
            } else {
                calculated
            },
        }),
{
    match ledger_base_fee {
        None => 0,
        Some(base) => if calculated == INVALID_BATCH_BASE_FEE {
            base
        } else {
            calculated
        },
    }
}

/// The last of the fees that could not be computed, and why.
pub open spec fn last_error(fees: Seq<Result<u64, Ter>>) -> Option<Ter>
    decreases fees.len(),
{
    if fees.len() == 0 {
        None
    } else {
        match fees.last() {
            Err(ter) => Some(ter),
            Ok(_) => last_error(fees.drop_last()),
        }
    }
}

/// What a transaction inside a batch adds to its fee; one whose fee cannot be computed makes that
/// of the batch impossible.
pub fn inner_batch_fee(fee: Result<u64, Ter>) -> (r: u64)
    ensures
        r == (match fee {
            Ok(fee) => fee,
            Err(_) => INVALID_BATCH_BASE_FEE,
        }),
{
    match fee {
        Ok(fee) => fee,
        Err(_) => INVALID_BATCH_BASE_FEE,
    }
}

/// What a batch costs: `computed`, unless it does not hold transactions that can be read, or the
/// fee of one of them cannot be computed; the last such error counts. `inner` holds the fees that
/// were asked for, in order.
pub fn batch_base_fee(
    has_raw_transactions: bool,
    readable: bool,
    computed: u64,
    inner: &Vec<Result<u64, Ter>>,
) -> (r: Result<u64, Ter>)
    ensures
        r == (if !has_raw_transactions || !readable {
            Ok(INVALID_BATCH_BASE_FEE)
        } else {
            match last_error(inner@) {
                Some(ter) => Err(ter),
                None => Ok(computed),
            }
        }),
{
    if !has_raw_transactions || !readable {
        return Ok(INVALID_BATCH_BASE_FEE);
    }
    let mut i: usize = inner.len();
    assert(inner@.take(i as int) =~= inner@);
    while i > 0
        invariant
            i <= inner@.len(),
            has_raw_transactions,
            readable,
            last_error(inner@) == last_error(inner@.take(i as int)),
        decreases i,
    {
        assert(inner@.take(i as int).drop_last() =~= inner@.take(i - 1));
        assert(inner@.take(i as int).last() == inner@[i - 1]);
        i = i - 1;
        if let Err(ter) = inner[i] {
            return Err(ter);
        }
    }
    Ok(computed)
}

/// What is found of a batch by its fee alone.
pub fn batch_preclaim_ter(txn_type: TxType, fee: Result<u64, Ter>) -> (r: Ter)
    ensures
        r == (if txn_type != TxType::BATCH {
            Ter::TES_SUCCESS
        } else {
            match fee {
                Err(ter) => ter,
                Ok(fee) => if fee == INVALID_BATCH_BASE_FEE {
                    Ter::TEC_INSUFF_FEE
                } else {
                    Ter::TES_SUCCESS
                },
            }
        }),
{
    if txn_type != TxType::BATCH {
        return Ter::TES_SUCCESS;
    }
    match fee {
        Err(ter) => ter,
        Ok(fee) => if fee == INVALID_BATCH_BASE_FEE {
            Ter::TEC_INSUFF_FEE
        } else {
            Ter::TES_SUCCESS
        },
    }
}

} // verus!
