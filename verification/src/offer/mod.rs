//! Placing an offer on the exchange.
pub mod calls;
pub mod create;
pub mod cross;
pub mod directory;
pub mod dispatch;
pub mod funds;
pub mod laws;
pub mod mode;
pub mod quality;
