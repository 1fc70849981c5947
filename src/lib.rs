//! A linear vesting ledger: a balance held in custody unlocks at a constant
//! rate between a start timestamp and `start + duration`, and any caller may
//! release what has vested to the beneficiary.
//!
//! The host environment (the clock, the custody balance, the fund transfer)
//! stays at the edge: the ledger's operations take the current time and the
//! held balance as plain values.
pub mod schedule;
pub mod ledger;

pub use ledger::{AccountId, Error, LedgerModel, Released, VestingContract};
pub mod laws;
