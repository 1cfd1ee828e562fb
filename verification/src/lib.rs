//! Reputation, staking and consensus rules of a registry of audited skills.
//!
//! A creator registers a skill, staked auditors attest to it, the admin
//! records consensus verdicts on it, and executors pay to run it. Each
//! operation is a function from the records it touches to their next
//! state; what it asks of the outside world, a payment to move or a record
//! to store, is part of its answer.

pub mod error;
pub mod identity;
pub mod instructions;
pub mod laws;
pub mod payment;
pub mod state;
pub mod tier;
pub mod trust_score;

pub use error::ErrorCode;
