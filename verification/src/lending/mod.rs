//! Paying back a loan.
//!
//! The numbers of a loan are decimals, held as integers that are ordered as the decimals are. What is
//! added up or rounded on the way is asked for, and its answer is taken.
pub mod calls;
pub mod laws;
pub mod loan_pay;
pub mod parts;
pub mod schedule;
pub mod views;
