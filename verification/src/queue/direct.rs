//! Applying a transaction without queueing it.
use vstd::prelude::*;
use crate::ids::{AccountID, Uint256};
use crate::open_ledger::seqs::{OpenLedgerSeqs, noted};
use crate::queue::clear_ahead::{ApplyResult, not_applied};
use crate::submit::shell::{admission_result, admitted_with};
use crate::ter::{Ter, admits_apply};

verus! {

/// What a transaction comes to: what was found of it, unless it may be applied.
pub open spec fn spec_apply_admitted(preflight: Ter, preclaim: Ter, outcome: ApplyResult) -> ApplyResult {
    let found = admitted_with(preflight, preclaim);
    if found.likely_to_claim_fee() {
        outcome
    } else {
        not_applied(found)
    }
}

/// What a transaction comes to on top of those before it: what was found of it, unless it may be
/// applied. `outcome` is what its application came to, and counts only where it may be.
pub fn clear_ahead_apply(preflight: Ter, preclaim: Ter, outcome: ApplyResult) -> (r: ApplyResult)
    ensures
        r == spec_apply_admitted(preflight, preclaim, outcome),
{
    let found = admission_result(preflight, preclaim);
    if !admits_apply(found) {
        return ApplyResult { ter: found, applied: false };
    }
    outcome
}

/// What a transaction comes to in the open ledger. One that is applied stands in the open ledger,
/// and moves the sequence of its account on.
pub fn direct_apply(
    seqs: &mut OpenLedgerSeqs,
    recorded: &mut Vec<Uint256>,
    id: Uint256,
    account: AccountID,
    tx_seq: u32,
    preclaim: Ter,
    outcome: ApplyResult,
) -> (r: ApplyResult)
    requires
        old(seqs).next.wf(),
    ensures
        final(seqs).next.wf(),
        r == (if preclaim.likely_to_claim_fee() {
            outcome
        } else {
            not_applied(preclaim)
        }),
        final(recorded)@ == (if r.applied {
            old(recorded)@.push(id)
        } else {
            old(recorded)@
        }),
        final(seqs).next@ == (if r.applied {
            noted(old(seqs).next@, account, tx_seq)
        } else {
            old(seqs).next@
        }),
        final(seqs).sandbox == old(seqs).sandbox,
{
    if !admits_apply(preclaim) {
        return ApplyResult { ter: preclaim, applied: false };
    }
    if outcome.applied {
        recorded.push(id);
        seqs.note_open_ledger_tx(account, tx_seq);
    }
    outcome
}

/// What is found of a waiting transaction when its ledger is accepted: without a ledger there is
/// no account.
pub fn dispatch_preclaim(has_view: bool, preclaim: Ter) -> (r: Ter)
    ensures
        r == (if has_view {
            preclaim
        } else {
            Ter::TER_NO_ACCOUNT
        }),
{
    if has_view {
        preclaim
    } else {
        Ter::TER_NO_ACCOUNT
    }
}

/// What a waiting transaction comes to when its ledger is accepted. Those of the network itself
/// always succeed.
pub fn dispatch_apply(system: bool, preclaim: Ter) -> (r: ApplyResult)
    ensures
        r == (if system {
            ApplyResult { ter: Ter::TES_SUCCESS, applied: true }
        } else {
            ApplyResult { ter: preclaim, applied: preclaim.likely_to_claim_fee() }
        }),
{
    if system {
        return ApplyResult { ter: Ter::TES_SUCCESS, applied: true };
    }
    ApplyResult { ter: preclaim, applied: admits_apply(preclaim) }
}

} // verus!
