//! Which ledger the network agrees on.
pub mod accept;
pub mod acceptor;
pub mod built;
pub mod counts;
pub mod laws;
pub mod median;
pub mod mode;
pub mod promote;
pub mod status;
