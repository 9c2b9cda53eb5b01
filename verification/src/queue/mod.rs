//! What a transaction must pass before it is applied, and what it costs.
pub mod base_fee;
pub mod batch_sign;
pub mod clear_ahead;
pub mod consequences;
pub mod direct;
pub mod laws;
pub mod multi;
pub mod oracle;
pub mod preclaim;
pub mod preflight;
pub mod sandbox;
