//! Showing validated ledgers to the world, one after the other.
pub mod advance;
pub mod laws;
pub mod pass;
pub mod try_advance;
