//! How far a node has come in following the network.
use vstd::prelude::*;
use crate::ids::Uint256;

verus! {

/// How far a node has come in following the network.
#[derive(Clone, Copy, Debug, PartialEq, Eq, Structural)]
pub enum OperatingMode {
    Disconnected,
    Connected,
    Syncing,
    Tracking,
    Full,
}

impl OperatingMode {
    pub open spec fn spec_rank(self) -> int {
        match self {
            OperatingMode::Disconnected => 0,
            OperatingMode::Connected => 1,
            OperatingMode::Syncing => 2,
            OperatingMode::Tracking => 3,
            OperatingMode::Full => 4,
        }
    }

    /// Whether a node has come at least as far as another.
    pub fn at_least(self, other: OperatingMode) -> (r: bool)
        ensures
            r == (self.spec_rank() >= other.spec_rank()),
    {
        self.rank() >= other.rank()
    }

    fn rank(self) -> (r: u8)
        ensures
            r == self.spec_rank(),
    {
        match self {
            OperatingMode::Disconnected => 0,
            OperatingMode::Connected => 1,
            OperatingMode::Syncing => 2,
            OperatingMode::Tracking => 3,
            OperatingMode::Full => 4,
        }
    }
}

/// A ledger that a node has accepted.
#[derive(Clone, Copy, Debug, PartialEq, Eq, Structural)]
pub struct AcceptedLedger {
    pub hash: Uint256,
    pub close_time: u32,
    pub close_time_resolution: u8,
}

impl AcceptedLedger {
    /// The ledger is no older than twice the precision of its close time.
    pub open spec fn fresh(self, now: u32) -> bool {
        now <= self.close_time + 2 * self.close_time_resolution
    }

    /// Whether the ledger is still a recent one.
    pub fn is_fresh(&self, now: u32) -> (r: bool)
        ensures
            r == self.fresh(now),
    {
        now <= self.close_time.saturating_add(self.close_time_resolution as u32 * 2)
    }
}

/// The mode after one step up, where the node no longer waits for a ledger of the network.
pub open spec fn promoted_mode(mode: OperatingMode, need_network_ledger: bool, fresh: bool) -> OperatingMode {
    if need_network_ledger {
        mode
    } else {
        let tracking = if mode == OperatingMode::Connected || mode == OperatingMode::Syncing {
            OperatingMode::Tracking
        } else {
            mode
        };
        if tracking == OperatingMode::Tracking && fresh {
            OperatingMode::Full
        } else {
            tracking
        }
    }
}

/// The mode that an accepted ledger lifts the node to, if it is the published one and the mode
/// changes by it.
pub fn promote_operating_mode_after_accepted_ledger(
    ledger: &AcceptedLedger,
    published_hash: Option<Uint256>,
    mode: OperatingMode,
    need_network_ledger: bool,
    now: u32,
) -> (r: Option<OperatingMode>)
    ensures
        ({
            let next = promoted_mode(mode, need_network_ledger, ledger.fresh(now));
            r == (if published_hash == Some(ledger.hash) && next != mode {
                Some(next)
            } else {
                None
            })
        }),
{
    match published_hash {
        None => {
            return None;
        },
        Some(published) => if published != ledger.hash {
            return None;
        },
    }
    let fresh = ledger.is_fresh(now);
    let mut next = mode;
    if matches!(next, OperatingMode::Connected | OperatingMode::Syncing) && !need_network_ledger {
        next = OperatingMode::Tracking;
    }
    if matches!(next, OperatingMode::Connected | OperatingMode::Tracking) && !need_network_ledger
        && fresh {
        next = OperatingMode::Full;
    }
    if next != mode {
        Some(next)
    } else {
        None
    }
}

/// An accepted ledger never sets a node back, never connects one that is disconnected, and makes
/// nobody follow the network in full with an old ledger.
pub proof fn promotion_only_lifts(mode: OperatingMode, need_network_ledger: bool, fresh: bool)
    ensures
        promoted_mode(mode, need_network_ledger, fresh).spec_rank() >= mode.spec_rank(),
        mode == OperatingMode::Disconnected ==> promoted_mode(mode, need_network_ledger, fresh)
            == mode,
        promoted_mode(mode, need_network_ledger, fresh) == OperatingMode::Full && mode
            != OperatingMode::Full ==> fresh && !need_network_ledger,
{
}

/// Which mode a node enters when its store of old ledgers does.
#[derive(Clone, Copy, Debug, PartialEq, Eq, Structural)]
pub enum StoreMode {
    Full,
    Other,
}

/// The mode that a node enters with its store, if it has one.
pub fn set_shamap_store_operating_mode(has_store: bool, mode: StoreMode) -> (r: Option<OperatingMode>)
    ensures
        r == (if !has_store {
            None
        } else {
            match mode {
                StoreMode::Full => Some(OperatingMode::Full),
                StoreMode::Other => Some(OperatingMode::Connected),
            }
        }),
{
    if !has_store {
        return None;
    }
    match mode {
        StoreMode::Full => Some(OperatingMode::Full),
        StoreMode::Other => Some(OperatingMode::Connected),
    }
}

} // verus!
