//! What a node says of itself, and which ledger it starts from.
use vstd::prelude::*;
use crate::consensus::counts::LedgerPoint;
use crate::ids::Uint256;

verus! {

/// The event by which a node says that it lost its way.
pub const LOST_SYNC: i32 = 4;

/// The event that is told: a node on the wrong ledger has lost its way, whatever happened.
pub fn consensus_status_event(event: i32, have_correct_lcl: bool) -> (r: i32)
    ensures
        r == (if have_correct_lcl {
            event
        } else {
            LOST_SYNC
        }),
{
    if have_correct_lcl {
        event
    } else {
        LOST_SYNC
    }
}

pub open spec fn larger(a: u32, b: u32) -> u32 {
    if a < b {
        b
    } else {
        a
    }
}

fn max(a: u32, b: u32) -> (r: u32)
    ensures
        r == larger(a, b),
{
    if a < b {
        b
    } else {
        a
    }
}

/// The ledgers that a node offers: those it has validated, from the first that it still keeps
/// and still fetches.
pub fn advertised_ledger_range(
    full_range: (u32, u32),
    minimum_online: Option<u32>,
    earliest_fetch: u32,
) -> (r: (u32, u32))
    ensures
        r.0 == larger(
            larger(
                full_range.0,
                match minimum_online {
                    Some(seq) => seq,
                    None => 0,
                },
            ),
            earliest_fetch,
        ),
        r.1 == full_range.1,
{
    let online: u32 = match minimum_online {
        Some(seq) => seq,
        None => 0,
    };
    (max(max(full_range.0, online), earliest_fetch), full_range.1)
}

/// How many validations a ledger needs: none where the node is alone.
pub fn needed_validations(standalone: bool, quorum: usize) -> (r: usize)
    ensures
        r == (if standalone {
            0
        } else {
            quorum
        }),
{
    if standalone {
        0
    } else {
        quorum
    }
}

/// Whether a validation for a ledger that is not known here tells how far the peers are: only
/// one with a quorum behind it, before any ledger is validated.
pub fn should_check_tracking_on_validation_resolver_miss(
    seq: u32,
    valid_ledger_seq: u32,
    validation_count: usize,
    quorum: usize,
) -> (r: bool)
    ensures
        r == (seq != 0 && valid_ledger_seq == 0 && validation_count >= quorum),
{
    seq != 0 && valid_ledger_seq == 0 && validation_count >= quorum
}

/// Whether the preferred ledger is the one here, or the one before it: no reason to jump.
pub fn preferred_lcl_matches_local_or_parent(
    local_hash: Uint256,
    parent_hash: Uint256,
    preferred_hash: Uint256,
) -> (r: bool)
    ensures
        r == (preferred_hash == local_hash || preferred_hash == parent_hash),
{
    preferred_hash == local_hash || preferred_hash == parent_hash
}

/// The first ledger to be fetched: so many before the last closed one.
pub fn earliest_ledger_fetch(closed_ledger_seq: Option<u32>, fetch_depth: u32) -> (r: u32)
    ensures
        r == (match closed_ledger_seq {
            Some(seq) => if seq >= fetch_depth {
                seq - fetch_depth
            } else {
                0
            },
            None => 0,
        }),
{
    match closed_ledger_seq {
        Some(seq) => seq.saturating_sub(fetch_depth),
        None => 0,
    }
}

pub open spec fn or_else(first: Option<LedgerPoint>, second: Option<LedgerPoint>) -> Option<LedgerPoint> {
    match first {
        Some(_) => first,
        None => second,
    }
}

/// The ledger that consensus takes as closed: the closed one, or else the validated one.
pub fn consensus_closed_ledger(closed: Option<LedgerPoint>, validated: Option<LedgerPoint>) -> (r: Option<
    LedgerPoint,
>)
    ensures
        r == or_else(closed, validated),
{
    match closed {
        Some(_) => closed,
        None => validated,
    }
}

pub open spec fn with_hash(ledger: Option<LedgerPoint>, hash: Uint256) -> Option<LedgerPoint> {
    match ledger {
        Some(point) => if point.hash == hash {
            ledger
        } else {
            None
        },
        None => None,
    }
}

fn filter_hash(ledger: Option<LedgerPoint>, hash: Uint256) -> (r: Option<LedgerPoint>)
    ensures
        r == with_hash(ledger, hash),
{
    match ledger {
        Some(point) => if point.hash == hash {
            Some(point)
        } else {
            None
        },
        None => None,
    }
}

/// The ledger that the next round of consensus starts from: the parent of the open ledger,
/// looked for among the closed ledger, the history and the validated ledger; or the closed ledger
/// where the open one has no parent. `in_history` is what the history has under that hash.
pub fn consensus_previous_ledger(
    parent_hash: Uint256,
    closed: Option<LedgerPoint>,
    validated: Option<LedgerPoint>,
    in_history: Option<LedgerPoint>,
) -> (r: Option<LedgerPoint>)
    ensures
        r == (if parent_hash == Uint256::spec_zero() {
            or_else(closed, validated)
        } else {
            or_else(
                with_hash(or_else(closed, validated), parent_hash),
                or_else(in_history, with_hash(validated, parent_hash)),
            )
        }),
{
    let consensus_closed = consensus_closed_ledger(closed, validated);
    if parent_hash.is_zero() {
        return consensus_closed;
    }
    let direct = filter_hash(consensus_closed, parent_hash);
    if direct.is_some() {
        return direct;
    }
    match in_history {
        Some(_) => in_history,
        None => filter_hash(validated, parent_hash),
    }
}

/// Whatever round starts next, it starts from the parent of the open ledger, if the history keeps
/// ledgers under their own hash.
pub proof fn previous_ledger_is_the_parent(
    parent_hash: Uint256,
    closed: Option<LedgerPoint>,
    validated: Option<LedgerPoint>,
    in_history: Option<LedgerPoint>,
)
    requires
        in_history matches Some(point) ==> point.hash == parent_hash,
    ensures
        ({
            let previous = or_else(
                with_hash(or_else(closed, validated), parent_hash),
                or_else(in_history, with_hash(validated, parent_hash)),
            );
            previous matches Some(point) ==> point.hash == parent_hash
        }),
{
}

/// A ledger with the time at which it closed.
#[derive(Clone, Copy, Debug, PartialEq, Eq, Structural)]
pub struct ClosedAt {
    pub seq: u32,
    pub close_time: u32,
}

pub open spec fn closed_at(ledger: Option<ClosedAt>, seq: u32) -> Option<i64> {
    match ledger {
        Some(closed) => if closed.seq == seq {
            Some(closed.close_time as i64)
        } else {
            None
        },
        None => None,
    }
}

pub open spec fn first_time(a: Option<i64>, b: Option<i64>) -> Option<i64> {
    match a {
        Some(_) => a,
        None => b,
    }
}

/// When the ledger with this sequence closed, if it is the validated, the published or the
/// closed one.
pub fn transaction_close_time_seconds(
    ledger_seq: u32,
    validated: Option<ClosedAt>,
    published: Option<ClosedAt>,
    closed: Option<ClosedAt>,
) -> (r: Option<i64>)
    ensures
        r == first_time(
            closed_at(validated, ledger_seq),
            first_time(closed_at(published, ledger_seq), closed_at(closed, ledger_seq)),
        ),
{
    if let Some(ledger) = validated {
        if ledger.seq == ledger_seq {
            return Some(ledger.close_time as i64);
        }
    }
    if let Some(ledger) = published {
        if ledger.seq == ledger_seq {
            return Some(ledger.close_time as i64);
        }
    }
    if let Some(ledger) = closed {
        if ledger.seq == ledger_seq {
            return Some(ledger.close_time as i64);
        }
    }
    None
}

} // verus!
