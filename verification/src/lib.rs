//! The rules a ledger node lives by.
pub mod amount;
pub mod build;
pub mod bytes;
pub mod consensus;
pub mod ids;
pub mod lending;
pub mod limits;
pub mod mpt;
pub mod network;
pub mod offer;
pub mod open_ledger;
pub mod ord_map;
pub mod publication;
pub mod queue;
pub mod root;
pub mod submit;
pub mod ter;
pub mod tx_type;
