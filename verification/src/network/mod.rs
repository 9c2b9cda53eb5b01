//! What a node tells others, and what it hears from them.
pub mod closed;
pub mod fees;
pub mod laws;
pub mod lists;
pub mod manifests;
pub mod published;
pub mod relay;
pub mod status;
pub mod trust;
