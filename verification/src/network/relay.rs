//! Handing transactions and proposals on.
use vstd::prelude::*;
use crate::ids::Uint256;
use crate::ter::Ter;

verus! {

/// That a transaction is a current one.
pub const STATUS_CURRENT: i32 = 2;

/// A transaction as it is handed on to the peers.
pub struct RelayEnvelope {
    pub raw_transaction: Vec<u8>,
    pub status: i32,
    pub receive_timestamp: Option<u64>,
    pub deferred: Option<bool>,
}

/// A transaction as it is handed on to the peers: with the time of this node, and with what this
/// node made of it, whatever others said.
pub fn queue_relay_envelope(raw_transaction: Vec<u8>, local_timestamp: u64, locally_queued: bool) -> (r: RelayEnvelope)
    ensures
        r.raw_transaction@ == raw_transaction@,
        r.status == STATUS_CURRENT,
        r.receive_timestamp == Some(local_timestamp),
        r.deferred == Some(locally_queued),
{
    RelayEnvelope {
        raw_transaction,
        status: STATUS_CURRENT,
        receive_timestamp: Some(local_timestamp),
        deferred: Some(locally_queued),
    }
}

/// What clients are told of a transaction that is in the open ledger.
#[derive(Clone, Copy, Debug, PartialEq, Eq, Structural)]
pub struct ProposedTransaction {
    pub ledger_current_index: u64,
    pub hash: Uint256,
    pub engine_result: Ter,
    pub validated: bool,
}

/// What clients are told of a transaction that is in the open ledger, if there is somebody who
/// tells them. Parts of a batch are not told of.
pub fn publish_proposed_transaction(
    inner_batch: bool,
    has_publisher: bool,
    ledger_current_index: u32,
    hash: Uint256,
    result: Ter,
) -> (r: Option<ProposedTransaction>)
    ensures
        r == (if inner_batch || !has_publisher {
            None
        } else {
            Some(
                ProposedTransaction {
                    ledger_current_index: ledger_current_index as u64,
                    hash,
                    engine_result: result,
                    validated: false,
                },
            )
        }),
{
    if inner_batch || !has_publisher {
        return None;
    }
    Some(
        ProposedTransaction {
            ledger_current_index: ledger_current_index as u64,
            hash,
            engine_result: result,
            validated: false,
        },
    )
}

/// Whose messages are handed on.
#[derive(Clone, Copy, Debug, PartialEq, Eq, Structural)]
pub enum RelayUntrustedPolicy {
    All,
    Trusted,
    DropUntrusted,
}

impl RelayUntrustedPolicy {
    pub open spec fn relays(self) -> bool {
        self == RelayUntrustedPolicy::All
    }

    /// Whether messages are handed on from those who are not trusted.
    pub fn should_relay(self) -> (r: bool)
        ensures
            r == self.relays(),
    {
        self == RelayUntrustedPolicy::All
    }
}

} // verus!
