//! Accepting a ledger away from the timer that drives consensus.
use vstd::prelude::*;
use crate::build::finish::following;
use crate::ids::Uint256;
use crate::network::status::{OwnValidation, own_validation};

verus! {

/// The event by which a node says that it has accepted a ledger.
pub const ACCEPTED_LEDGER: i32 = 2;

/// The work could not be handed on, because the node is stopping.
#[derive(Clone, Copy, Debug, PartialEq, Eq, Structural)]
pub struct QueueStopping;

/// Hands the work of accepting a ledger on, and tells the sequence of the ledger after it.
pub fn accept_ledger(scheduled: bool, closed_seq: u32) -> (r: Result<u32, QueueStopping>)
    ensures
        r == (if scheduled {
            Ok(following(closed_seq))
        } else {
            Err(QueueStopping)
        }),
{
    if !scheduled {
        return Err(QueueStopping);
    }
    Ok(closed_seq.saturating_add(1))
}

/// Where the work that follows an agreement is done.
#[derive(Clone, Copy, Debug, PartialEq, Eq, Structural)]
pub enum AcceptJob {
    /// By a worker, away from the timer.
    Queued,
    /// At once, by whoever would have handed it on.
    RunInPlace,
}

/// Hands the work that follows an agreement on. Where the queue does not take it, because the node is
/// stopping, it is done in place: what was agreed on is never dropped.
pub fn spawn_consensus_accept_job(queued: bool) -> (r: AcceptJob)
    ensures
        r == (if queued {
            AcceptJob::Queued
        } else {
            AcceptJob::RunInPlace
        }),
{
    if queued {
        AcceptJob::Queued
    } else {
        AcceptJob::RunInPlace
    }
}

/// A validation that waits for the ledger it is for.
#[derive(Clone, Copy, Debug, PartialEq, Eq, Structural)]
pub struct PendingValidation {
    pub consensus_hash: Uint256,
    pub proposing: bool,
}

/// One thing that is done once a ledger is accepted.
#[derive(Clone, Copy, Debug, PartialEq, Eq, Structural)]
pub enum AcceptedEffect {
    /// The peers are told.
    TellStatus { event: i32, have_correct_lcl: bool },
    /// It is validated by this node.
    Validate(OwnValidation),
    /// Consensus goes on.
    Wake,
}

/// The validation that this node signs, if it signs one.
pub open spec fn validated_with(
    closed_hash: Uint256,
    closed_seq: u32,
    close_time: u32,
    pending: Option<PendingValidation>,
) -> Seq<AcceptedEffect> {
    match pending {
        Some(pending) => seq![
            AcceptedEffect::Validate(
                OwnValidation {
                    sign_time: crate::consensus::status::larger(close_time, 1),
                    ledger_hash: closed_hash,
                    consensus_hash: pending.consensus_hash,
                    ledger_seq: closed_seq,
                    full: pending.proposing,
                },
            ),
        ],
        None => Seq::empty(),
    }
}

pub open spec fn spec_accepted_effects(
    closed_hash: Option<Uint256>,
    closed_seq: u32,
    close_time: u32,
    pending: Option<PendingValidation>,
) -> Seq<AcceptedEffect> {
    match closed_hash {
        Some(hash) => seq![
            AcceptedEffect::TellStatus { event: ACCEPTED_LEDGER, have_correct_lcl: true },
        ] + validated_with(hash, closed_seq, close_time, pending) + seq![AcceptedEffect::Wake],
        None => seq![AcceptedEffect::Wake],
    }
}

/// What is done once a ledger is accepted, in order. The last closed ledger is read once: the
/// peers are told of the very ledger that is validated.
pub fn accepted_effects(
    closed_hash: Option<Uint256>,
    closed_seq: u32,
    close_time: u32,
    pending: Option<PendingValidation>,
) -> (r: Vec<AcceptedEffect>)
    ensures
        r@ == spec_accepted_effects(closed_hash, closed_seq, close_time, pending),
{
    let mut effects: Vec<AcceptedEffect> = Vec::new();
    if let Some(hash) = closed_hash {
        effects.push(AcceptedEffect::TellStatus { event: ACCEPTED_LEDGER, have_correct_lcl: true });
        if let Some(pending) = pending {
            effects.push(
                AcceptedEffect::Validate(
                    own_validation(
                        close_time,
                        hash,
                        pending.consensus_hash,
                        closed_seq,
                        pending.proposing,
                    ),
                ),
            );
        }
    }
    effects.push(AcceptedEffect::Wake);
    proof {
        assert(effects@ =~= spec_accepted_effects(closed_hash, closed_seq, close_time, pending));
    }
    effects
}

} // verus!
