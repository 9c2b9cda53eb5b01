//! How an offer is to be handled.
use vstd::prelude::*;

verus! {

/// The offer takes only better offers than itself.
pub const TF_PASSIVE: u32 = 0x0001_0000;

/// What cannot be traded at once is dropped.
pub const TF_IMMEDIATE_OR_CANCEL: u32 = 0x0002_0000;

/// The offer is traded in full at once, or dropped.
pub const TF_FILL_OR_KILL: u32 = 0x0004_0000;

/// The offer gives all it has, even if it gets more than it asked for.
pub const TF_SELL: u32 = 0x0008_0000;

/// The offer stands in the book of its domain and in the open one.
pub const TF_HYBRID: u32 = 0x0010_0000;

/// The flags of an offer in the ledger.
pub const LSF_PASSIVE: u32 = 0x0001_0000;

pub const LSF_SELL: u32 = 0x0002_0000;

pub const LSF_HYBRID: u32 = 0x0004_0000;

/// How an offer is to be handled.
#[derive(Clone, Copy, Debug, PartialEq, Eq, Structural)]
pub struct OfferMode {
    pub passive: bool,
    pub immediate_or_cancel: bool,
    pub fill_or_kill: bool,
    pub sell: bool,
    pub hybrid: bool,
}

impl OfferMode {
    pub open spec fn spec_from_flags(flags: u32) -> OfferMode {
        OfferMode {
            passive: flags & TF_PASSIVE != 0,
            immediate_or_cancel: flags & TF_IMMEDIATE_OR_CANCEL != 0,
            fill_or_kill: flags & TF_FILL_OR_KILL != 0,
            sell: flags & TF_SELL != 0,
            hybrid: flags & TF_HYBRID != 0,
        }
    }

    /// What the flags of a transaction say.
    pub fn from_flags(flags: u32) -> (r: OfferMode)
        ensures
            r == OfferMode::spec_from_flags(flags),
    {
        OfferMode {
            passive: (flags & TF_PASSIVE) != 0,
            immediate_or_cancel: (flags & TF_IMMEDIATE_OR_CANCEL) != 0,
            fill_or_kill: (flags & TF_FILL_OR_KILL) != 0,
            sell: (flags & TF_SELL) != 0,
            hybrid: (flags & TF_HYBRID) != 0,
        }
    }

    pub open spec fn spec_ledger_flags(self) -> u32 {
        (if self.passive {
            LSF_PASSIVE
        } else {
            0
        }) | (if self.sell {
            LSF_SELL
        } else {
            0
        }) | (if self.hybrid {
            LSF_HYBRID
        } else {
            0
        })
    }

    /// The flags that the offer has in the ledger.
    pub fn ledger_flags(&self) -> (r: u32)
        ensures
            r == self.spec_ledger_flags(),
    {
        let passive: u32 = if self.passive {
            LSF_PASSIVE
        } else {
            0
        };
        let sell: u32 = if self.sell {
            LSF_SELL
        } else {
            0
        };
        let hybrid: u32 = if self.hybrid {
            LSF_HYBRID
        } else {
            0
        };
        passive | sell | hybrid
    }
}

/// The flags of an offer in the ledger say how it was to be handled, and nothing else.
pub proof fn ledger_flags_tell_the_mode(mode: OfferMode)
    ensures
        (mode.spec_ledger_flags() & LSF_PASSIVE != 0) == mode.passive,
        (mode.spec_ledger_flags() & LSF_SELL != 0) == mode.sell,
        (mode.spec_ledger_flags() & LSF_HYBRID != 0) == mode.hybrid,
{
    let p: u32 = if mode.passive {
        LSF_PASSIVE
    } else {
        0
    };
    let s: u32 = if mode.sell {
        LSF_SELL
    } else {
        0
    };
    let h: u32 = if mode.hybrid {
        LSF_HYBRID
    } else {
        0
    };
    assert((p == 0 || p == 0x0001_0000) && (s == 0 || s == 0x0002_0000) && (h == 0 || h
        == 0x0004_0000) ==> ((p | s | h) & 0x0001_0000 != 0) == (p != 0) && ((p | s | h)
        & 0x0002_0000 != 0) == (s != 0) && ((p | s | h) & 0x0004_0000 != 0) == (h != 0))
        by (bit_vector);
}

} // verus!
