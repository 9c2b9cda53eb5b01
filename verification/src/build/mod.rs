//! Building the next ledger out of the transactions that were agreed on.
pub mod accepted;
pub mod finish;
pub mod laws;
pub mod passes;
pub mod standalone;
