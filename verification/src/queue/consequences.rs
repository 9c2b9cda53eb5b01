//! What a transaction may do to those that wait behind it.
use vstd::prelude::*;
use crate::amount::Amount;
use crate::submit::checks::SeqProxy;
use crate::ter::{Ter, is_tes_success};
use crate::tx_type::TxType;

verus! {

/// Whether a transaction lets others of its account be queued behind it.
#[derive(Clone, Copy, Debug, PartialEq, Eq, Structural)]
pub enum ConsequencesCategory {
    Normal,
    Blocker,
}

/// What a transaction may do to those that wait behind it.
#[derive(Clone, Copy, Debug, PartialEq, Eq, Structural)]
pub struct TxConsequences {
    pub fee: u64,
    pub seq_proxy: SeqProxy,
    pub category: ConsequencesCategory,
    /// What it may take out of its account beside the fee.
    pub potential_spend: u64,
    /// How many sequences of its account it uses up.
    pub sequences_consumed: u32,
}

impl TxConsequences {
    /// It blocks those behind it.
    pub fn is_blocker(&self) -> (r: bool)
        ensures
            r == (self.category == ConsequencesCategory::Blocker),
    {
        self.category == ConsequencesCategory::Blocker
    }
}

/// The fields of a transaction that tell what it may do. Absent fields are `None`.
pub struct ConsequenceTx {
    pub txn_type: TxType,
    pub fee_drops: Option<i64>,
    pub seq_proxy: SeqProxy,
    pub amount: Option<Amount>,
    pub send_max: Option<Amount>,
    pub taker_gets: Option<Amount>,
    pub fee_amount_delta: Option<Amount>,
    pub ticket_count: u32,
    /// The change of account flags that it asks for blocks those behind it.
    pub account_set_blocks: bool,
}

/// How many drops a field may take out of the account.
pub open spec fn drops_in(field: Option<Amount>) -> u64 {
    match field {
        Some(amount) => if amount.native() && amount.positive() {
            amount.mantissa
        } else {
            0
        },
        None => 0,
    }
}

fn native_spend(field: &Option<Amount>) -> (r: u64)
    ensures
        r == drops_in(*field),
{
    match field {
        Some(amount) => if amount.is_native() && amount.is_positive() {
            amount.mantissa
        } else {
            0
        },
        None => 0,
    }
}

impl ConsequenceTx {
    pub open spec fn fee(self) -> u64 {
        match self.fee_drops {
            Some(drops) => if drops > 0 {
                drops as u64
            } else {
                0
            },
            None => 0,
        }
    }

    pub open spec fn blocks(self) -> bool {
        match self.txn_type {
            TxType::ACCOUNT_SET => self.account_set_blocks,
            TxType::REGULAR_KEY_SET
            | TxType::ACCOUNT_DELETE
            | TxType::SIGNER_LIST_SET
            | TxType::XCHAIN_CLAIM
            | TxType::XCHAIN_ADD_CLAIM_ATTESTATION
            | TxType::XCHAIN_ADD_ACCOUNT_CREATE_ATTESTATION => true,
            _ => false,
        }
    }

    pub open spec fn spend(self) -> u64 {
        match self.txn_type {
            TxType::PAYMENT => if self.send_max is Some {
                drops_in(self.send_max)
            } else {
                drops_in(self.amount)
            },
            TxType::OFFER_CREATE => drops_in(self.taker_gets),
            TxType::ESCROW_CREATE
            | TxType::PAYCHAN_CREATE
            | TxType::PAYCHAN_FUND
            | TxType::XCHAIN_COMMIT => drops_in(self.amount),
            TxType::SPONSORSHIP_SET => drops_in(self.fee_amount_delta),
            _ => 0,
        }
    }

    /// A ticket uses up no sequence, and the creation of tickets as many as there are tickets.
    pub open spec fn consumed(self) -> u32 {
        if self.txn_type == TxType::TICKET_CREATE {
            self.ticket_count
        } else if self.seq_proxy is Ticket {
            0
        } else {
            1
        }
    }

    pub open spec fn consequences(self) -> TxConsequences {
        TxConsequences {
            fee: self.fee(),
            seq_proxy: self.seq_proxy,
            category: if self.blocks() {
                ConsequencesCategory::Blocker
            } else {
                ConsequencesCategory::Normal
            },
            potential_spend: self.spend(),
            sequences_consumed: self.consumed(),
        }
    }
}

/// What a transaction may do to those that wait behind it.
pub fn canonical_sttx_consequences(tx: &ConsequenceTx) -> (r: TxConsequences)
    ensures
        r == tx.consequences(),
{
    let fee: u64 = match tx.fee_drops {
        Some(drops) => if drops > 0 {
            drops as u64
        } else {
            0
        },
        None => 0,
    };
    let mut out = TxConsequences {
        fee,
        seq_proxy: tx.seq_proxy,
        category: ConsequencesCategory::Normal,
        potential_spend: 0,
        sequences_consumed: if tx.seq_proxy.is_ticket() {
            0
        } else {
            1
        },
    };
    match tx.txn_type {
        TxType::ACCOUNT_SET => {
            if tx.account_set_blocks {
                out.category = ConsequencesCategory::Blocker;
            }
        },
        TxType::REGULAR_KEY_SET
        | TxType::ACCOUNT_DELETE
        | TxType::SIGNER_LIST_SET
        | TxType::XCHAIN_CLAIM
        | TxType::XCHAIN_ADD_CLAIM_ATTESTATION
        | TxType::XCHAIN_ADD_ACCOUNT_CREATE_ATTESTATION => {
            out.category = ConsequencesCategory::Blocker;
        },
        TxType::PAYMENT => {
            out.potential_spend = if tx.send_max.is_some() {
                native_spend(&tx.send_max)
            } else {
                native_spend(&tx.amount)
            };
        },
        TxType::OFFER_CREATE => {
            out.potential_spend = native_spend(&tx.taker_gets);
        },
        TxType::ESCROW_CREATE
        | TxType::PAYCHAN_CREATE
        | TxType::PAYCHAN_FUND
        | TxType::XCHAIN_COMMIT => {
            out.potential_spend = native_spend(&tx.amount);
        },
        TxType::TICKET_CREATE => {
            out.sequences_consumed = tx.ticket_count;
        },
        TxType::SPONSORSHIP_SET => {
            out.potential_spend = native_spend(&tx.fee_amount_delta);
        },
        _ => {},
    }
    out
}

/// What a transaction may do to those that wait behind it, if it is a good one at all.
pub fn preflight_consequences(preflight: Ter, tx: &ConsequenceTx) -> (r: Option<TxConsequences>)
    ensures
        r == (if preflight.success() {
            Some(tx.consequences())
        } else {
            None
        }),
{
    if is_tes_success(preflight) {
        Some(canonical_sttx_consequences(tx))
    } else {
        None
    }
}

/// A transaction never loses its ticket, and one that blocks others spends nothing but its fee.
pub proof fn consequences_keep_the_proxy(tx: ConsequenceTx)
    ensures
        tx.consequences().seq_proxy == tx.seq_proxy,
        tx.consequences().category == ConsequencesCategory::Blocker
            ==> tx.consequences().potential_spend == 0,
{
}

} // verus!
