//! Limits that every node of the network keeps. They are agreed on with the other nodes: nothing here
//! derives them, and every contract that speaks of one holds of the number given here.
use vstd::prelude::*;

verus! {

/// A transaction may touch this many ledger entries.
pub const OVERSIZE_METADATA_CAP: usize = 5200;

/// This many unfunded offers are removed on the way of one failed transaction.
pub const UNFUNDED_OFFER_REMOVE_LIMIT: usize = 1000;

/// This many expired token offers are removed on the way of one failed transaction.
pub const EXPIRED_OFFER_REMOVE_LIMIT: usize = 256;

/// This many trust lines of a pool can be deleted by one transaction.
pub const MAX_DELETABLE_AMM_TRUST_LINES: usize = 512;

/// This many token offers can be cancelled by one transaction.
pub const MAX_TOKEN_OFFER_CANCEL_COUNT: usize = 500;

} // verus!
