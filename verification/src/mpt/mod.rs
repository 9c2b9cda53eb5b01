//! What must hold of multi-purpose tokens after every transaction.
//!
//! Each check first records the ledger entries that the transaction changed, and then decides
//! whether the change as a whole may stand.
pub mod accounting;
pub mod confidential;
pub mod entry;
pub mod laws;
pub mod lifecycle;
pub mod transfer;
