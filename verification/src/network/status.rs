//! What a node says of its own state.
use vstd::prelude::*;
use crate::consensus::mode::OperatingMode;
use crate::consensus::status::{
    LOST_SYNC, advertised_ledger_range, consensus_status_event, larger,
};
use crate::ids::Uint256;

verus! {

/// The header of a ledger, as far as it is told.
#[derive(Clone, Copy, Debug, PartialEq, Eq, Structural)]
pub struct ToldHeader {
    pub seq: u32,
    pub hash: Uint256,
    pub parent_hash: Uint256,
}

/// What peers are told when consensus moves.
#[derive(Clone, Copy, Debug, PartialEq, Eq, Structural)]
pub struct StatusChange {
    pub new_event: i32,
    pub ledger_seq: u32,
    pub ledger_hash: Uint256,
    pub ledger_hash_previous: Uint256,
    pub network_time: u64,
    pub first_seq: u32,
    pub last_seq: u32,
}

/// What peers are told when consensus moves. Without a range of validated ledgers none is
/// offered.
pub fn broadcast_consensus_status_change(
    header: &ToldHeader,
    event: i32,
    have_correct_lcl: bool,
    full_range: Option<(u32, u32)>,
    minimum_online: Option<u32>,
    earliest_fetch: u32,
    network_time: u64,
) -> (r: StatusChange)
    ensures
        r.new_event == (if have_correct_lcl {
            event
        } else {
            LOST_SYNC
        }),
        r.ledger_seq == header.seq,
        r.ledger_hash == header.hash,
        r.ledger_hash_previous == header.parent_hash,
        r.network_time == network_time,
        match full_range {
            Some(range) => r.first_seq == larger(
                larger(
                    range.0,
                    match minimum_online {
                        Some(seq) => seq,
                        None => 0,
                    },
                ),
                earliest_fetch,
            ) && r.last_seq == range.1,
            None => r.first_seq == 0 && r.last_seq == 0,
        },
{
    let (first_seq, last_seq): (u32, u32) = match full_range {
        Some(range) => advertised_ledger_range(range, minimum_online, earliest_fetch),
        None => (0, 0),
    };
    StatusChange {
        new_event: consensus_status_event(event, have_correct_lcl),
        ledger_seq: header.seq,
        ledger_hash: header.hash,
        ledger_hash_previous: header.parent_hash,
        network_time,
        first_seq,
        last_seq,
    }
}

/// What clients are told when the mode of the node changes.
#[derive(Clone, Copy, Debug, PartialEq, Eq, Structural)]
pub struct ModeChangePayload {
    pub server_status: OperatingMode,
    pub load_base: u64,
    pub load_factor: u64,
    pub base_fee: u64,
}

/// The load that the node is under.
#[derive(Clone, Copy, Debug, PartialEq, Eq, Structural)]
pub struct LoadFees {
    pub load_base: u32,
    pub local_fee: u32,
    pub cluster_fee: u32,
}

pub open spec fn base_fee_of(closed: Option<u64>, validated: Option<u64>) -> u64 {
    match closed {
        Some(fee) => fee,
        None => match validated {
            Some(fee) => fee,
            None => 0,
        },
    }
}

/// What clients are told when the mode of the node changes, if it does.
pub fn mode_change_payload(
    previous: OperatingMode,
    mode: OperatingMode,
    fees: LoadFees,
    closed_base_fee: Option<u64>,
    validated_base_fee: Option<u64>,
) -> (r: Option<ModeChangePayload>)
    ensures
        r == (if previous == mode {
            None
        } else {
            Some(
                ModeChangePayload {
                    server_status: mode,
                    load_base: fees.load_base as u64,
                    load_factor: larger(fees.local_fee, fees.cluster_fee) as u64,
                    base_fee: base_fee_of(closed_base_fee, validated_base_fee),
                },
            )
        }),
{
    if previous == mode {
        return None;
    }
    let base_fee: u64 = match closed_base_fee {
        Some(fee) => fee,
        None => match validated_base_fee {
            Some(fee) => fee,
            None => 0,
        },
    };
    let load_factor: u32 = if fees.local_fee < fees.cluster_fee {
        fees.cluster_fee
    } else {
        fees.local_fee
    };
    Some(
        ModeChangePayload {
            server_status: mode,
            load_base: fees.load_base as u64,
            load_factor: load_factor as u64,
            base_fee,
        },
    )
}

/// How the mode of the node is called.
#[derive(Clone, Copy, Debug, PartialEq, Eq, Structural)]
pub enum ModeLabel {
    Proposing,
    Mode(OperatingMode),
}

/// How the mode of the node is called. Only its administrator is told that it proposes.
pub fn network_ops_operating_mode_string_for_admin(admin: bool, mode: OperatingMode, proposing: bool) -> (r: ModeLabel)
    ensures
        r == (if admin && mode == OperatingMode::Full && proposing {
            ModeLabel::Proposing
        } else {
            ModeLabel::Mode(mode)
        }),
{
    if admin && mode == OperatingMode::Full && proposing {
        ModeLabel::Proposing
    } else {
        ModeLabel::Mode(mode)
    }
}

/// A closed ledger, as far as clients are told of it.
#[derive(Clone, Copy, Debug, PartialEq, Eq, Structural)]
pub struct ClosedLedgerFacts {
    pub seq: u32,
    pub hash: Uint256,
    pub close_time: u32,
    pub fee_base: u64,
    pub reserve_base: u64,
    pub reserve_inc: u64,
    /// How many transactions it holds, if they can be read.
    pub txn_count: Option<usize>,
    pub xrp_fees_enabled: bool,
}

/// What clients are told of a closed ledger.
#[derive(Clone, Copy, Debug, PartialEq, Eq, Structural)]
pub struct LedgerClosedNotification {
    pub ledger_index: u64,
    pub ledger_hash: Uint256,
    pub ledger_time: u64,
    pub network_id: u64,
    pub fee_base: u64,
    pub reserve_base: u64,
    pub reserve_inc: u64,
    pub txn_count: u64,
    /// The units that fees were counted in, where they still are.
    pub fee_ref: Option<u64>,
    /// Which ledgers the node has is told as well.
    pub validated_ledgers: bool,
}

/// What clients are told of a closed ledger.
pub fn ledger_closed_notification(
    ledger: &ClosedLedgerFacts,
    network_id: u32,
    reference_fee_units: u32,
    mode: OperatingMode,
    has_ledger_master: bool,
) -> (r: LedgerClosedNotification)
    ensures
        r == (LedgerClosedNotification {
            ledger_index: ledger.seq as u64,
            ledger_hash: ledger.hash,
            ledger_time: ledger.close_time as u64,
            network_id: network_id as u64,
            fee_base: ledger.fee_base,
            reserve_base: ledger.reserve_base,
            reserve_inc: ledger.reserve_inc,
            txn_count: match ledger.txn_count {
                Some(count) => count as u64,
                None => 0,
            },
            fee_ref: if ledger.xrp_fees_enabled {
                None
            } else {
                Some(reference_fee_units as u64)
            },
            validated_ledgers: mode.spec_rank() >= OperatingMode::Syncing.spec_rank()
                && has_ledger_master,
        }),
{
    let txn_count: u64 = match ledger.txn_count {
        Some(count) => count as u64,
        None => 0,
    };
    LedgerClosedNotification {
        ledger_index: ledger.seq as u64,
        ledger_hash: ledger.hash,
        ledger_time: ledger.close_time as u64,
        network_id: network_id as u64,
        fee_base: ledger.fee_base,
        reserve_base: ledger.reserve_base,
        reserve_inc: ledger.reserve_inc,
        txn_count,
        fee_ref: if ledger.xrp_fees_enabled {
            None
        } else {
            Some(reference_fee_units as u64)
        },
        validated_ledgers: mode.at_least(OperatingMode::Syncing) && has_ledger_master,
    }
}

/// When a validation was seen: as it says, or else now.
pub fn validation_seen_time(seen_time: u32, now: u32) -> (r: u32)
    ensures
        r == (if seen_time == 0 {
            now
        } else {
            seen_time
        }),
{
    if seen_time == 0 {
        now
    } else {
        seen_time
    }
}

/// A validation that this node signs for a ledger it has accepted.
#[derive(Clone, Copy, Debug, PartialEq, Eq, Structural)]
pub struct OwnValidation {
    pub sign_time: u32,
    pub ledger_hash: Uint256,
    pub consensus_hash: Uint256,
    pub ledger_seq: u32,
    pub full: bool,
}

/// The validation that this node signs for a ledger it has accepted: for the hash of that very
/// ledger, and never at time zero.
pub fn own_validation(
    close_time: u32,
    closed_hash: Uint256,
    consensus_hash: Uint256,
    closed_seq: u32,
    proposing: bool,
) -> (r: OwnValidation)
    ensures
        r.sign_time == larger(close_time, 1),
        r.sign_time > 0,
        r.ledger_hash == closed_hash,
        r.consensus_hash == consensus_hash,
        r.ledger_seq == closed_seq,
        r.full == proposing,
{
    OwnValidation {
        sign_time: if close_time < 1 {
            1
        } else {
            close_time
        },
        ledger_hash: closed_hash,
        consensus_hash,
        ledger_seq: closed_seq,
        full: proposing,
    }
}

} // verus!
