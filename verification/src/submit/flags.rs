//! How a transaction is being applied.
use vstd::prelude::*;
use crate::ter::{Ter, is_tec_claim, is_tes_success};

verus! {

/// The conditions under which a transaction is applied.
#[derive(Clone, Copy, Debug, PartialEq, Eq, Structural)]
pub struct ApplyFlags {
    /// A claimed fee is as good as a failure.
    pub fail_hard: bool,
    /// The transaction will be tried again.
    pub retry: bool,
    /// The transaction comes from a privileged source.
    pub unlimited: bool,
    /// The transaction belongs to a batch.
    pub batch: bool,
    /// Nothing of the transaction is to be kept.
    pub dry_run: bool,
}

impl ApplyFlags {
    pub open spec fn spec_none() -> ApplyFlags {
        ApplyFlags { fail_hard: false, retry: false, unlimited: false, batch: false, dry_run: false }
    }

    /// No condition.
    pub fn none() -> (r: ApplyFlags)
        ensures
            r == ApplyFlags::spec_none(),
    {
        ApplyFlags { fail_hard: false, retry: false, unlimited: false, batch: false, dry_run: false }
    }

    pub open spec fn spec_dry_run() -> ApplyFlags {
        ApplyFlags { dry_run: true, ..ApplyFlags::spec_none() }
    }

    /// Applied without being kept.
    pub fn dry_run() -> (r: ApplyFlags)
        ensures
            r == ApplyFlags::spec_dry_run(),
    {
        ApplyFlags { dry_run: true, ..ApplyFlags::none() }
    }
}

pub open spec fn spec_likely_to_claim_fee(result: Ter, flags: ApplyFlags) -> bool {
    result.success() || (result.claim() && !flags.retry)
}

/// The transaction is applied, or claims its fee and is not tried again.
pub fn likely_to_claim_fee(result: Ter, flags: ApplyFlags) -> (r: bool)
    ensures
        r == spec_likely_to_claim_fee(result, flags),
{
    is_tes_success(result) || (is_tec_claim(result) && !flags.retry)
}

/// An entry of which nothing but its being there matters.
#[derive(Clone, Copy, Debug, PartialEq, Eq, Structural)]
pub struct Present;

/// What a read of one ledger entry brings.
#[derive(Clone, Copy, Debug, PartialEq, Eq, Structural)]
pub enum Read<T> {
    Found(T),
    Missing,
    Failed,
}

} // verus!
