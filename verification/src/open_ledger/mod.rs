//! The open ledger: what is waiting for the next close.
pub mod laws;
pub mod pending;
pub mod reapply;
pub mod rebase;
pub mod seqs;
pub mod simulate;
