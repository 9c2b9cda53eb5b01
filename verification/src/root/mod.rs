//! The state that holds a node together.
pub mod application;
pub mod components;
pub mod laws;
pub mod options;
pub mod startup;
