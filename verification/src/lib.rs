//! A wager-settlement engine for timed quiz sessions.
//!
//! A user deposits a stake to open a timed session, later reports a
//! correctness count, and the engine atomically settles a reward (the stake
//! back plus a tiered, seed-derived bonus) or forfeits the stake to a shared
//! custodial vault. An administrative authority can fund, drain, or redirect
//! that vault.

pub mod state;
pub mod error;
pub mod reward;
pub mod address;
pub mod events;
pub mod engine;
