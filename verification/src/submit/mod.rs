//! Applying one transaction: from the first look at its fields to what the ledger keeps of it.
pub mod batch;
pub mod calls;
pub mod checks;
pub mod cleanup;
pub mod fee;
pub mod flags;
pub mod laws;
pub mod outcome;
pub mod settle;
pub mod shell;
pub mod ticket;
