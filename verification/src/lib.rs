//! A proportional token-distribution ledger.
//!
//! A pool of tokens is split among dynamically registered participants in
//! proportion to a weight derived from each participant's locked deposits,
//! as reported by an external stake registrar. The distribution moves from
//! a registration window to a claim window purely by the clock; the
//! claimable pool is snapshotted at the first claim and divided pro rata
//! with floor division, so the sum of all claims never exceeds the pool.

pub mod error;
pub mod events;
pub mod instructions;
pub mod laws;
pub mod ledger;
pub mod state;
