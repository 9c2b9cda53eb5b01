//! Looking at a transaction as if those queued before it had been applied.
use vstd::prelude::*;
use crate::submit::flags::{Present, Read};
use crate::ter::Ter;

verus! {

/// Which state the transaction is looked at in.
#[derive(Clone, Copy, Debug, PartialEq, Eq, Structural)]
pub enum PreclaimViewSource {
    CurrentView,
    MultiTxnView,
}

/// What the transactions queued before it leave of its account.
#[derive(Clone, Copy, Debug, PartialEq, Eq, Structural)]
pub struct ViewAdjustment {
    pub adjusted_balance_drops: i64,
    pub applied_sequence_value: u32,
}

/// The account as the transaction will find it.
#[derive(Clone, Copy, Debug, PartialEq, Eq, Structural)]
pub struct AdjustedAccount {
    pub balance_drops: i64,
    pub sequence: u32,
}

/// What is known when the transaction is looked at. Each answer counts only where the question
/// comes up.
#[derive(Clone, Copy)]
pub struct MultiFacts {
    pub source: PreclaimViewSource,
    /// What was found in the current state.
    pub current: Ter,
    pub adjustment: Option<ViewAdjustment>,
    pub account: Read<Present>,
    pub updated: bool,
    /// What was found in the state with the adjusted account.
    pub adjusted: Ter,
}

impl MultiFacts {
    pub open spec fn result(self) -> Ter {
        if self.source == PreclaimViewSource::CurrentView {
            self.current
        } else if self.adjustment is None {
            Ter::TEF_INTERNAL
        } else {
            match self.account {
                Read::Missing => Ter::TEF_INTERNAL,
                Read::Failed => Ter::TEF_BAD_LEDGER,
                Read::Found(_) => if self.updated {
                    self.adjusted
                } else {
                    Ter::TEF_INTERNAL
                },
            }
        }
    }
}

/// The account as the transaction will find it.
pub fn adjusted_account(adjustment: ViewAdjustment) -> (r: AdjustedAccount)
    ensures
        r.balance_drops == adjustment.adjusted_balance_drops,
        r.sequence == adjustment.applied_sequence_value,
{
    AdjustedAccount {
        balance_drops: adjustment.adjusted_balance_drops,
        sequence: adjustment.applied_sequence_value,
    }
}

/// What is found of the transaction.
pub fn run_preclaim(facts: &MultiFacts) -> (r: Ter)
    ensures
        r == facts.result(),
{
    if facts.source == PreclaimViewSource::CurrentView {
        return facts.current;
    }
    if facts.adjustment.is_none() {
        return Ter::TEF_INTERNAL;
    }
    match facts.account {
        Read::Missing => Ter::TEF_INTERNAL,
        Read::Failed => Ter::TEF_BAD_LEDGER,
        Read::Found(_) => if facts.updated {
            facts.adjusted
        } else {
            Ter::TEF_INTERNAL
        },
    }
}

} // verus!
