//! Reserve and ownership accounting for a two-asset liquidity pool.
//!
//! The pool holds two reserve balances against which holders keep
//! proportional ownership units. This crate computes what a withdrawal pays
//! out and retires, keeps the pool's time-weighted price accumulator, and
//! states each of those computations as a contract over mathematical
//! integers. Moving tokens is left to the caller: the functions here say how
//! much, never move value themselves.
//!
//! Beside the pool stand the records of the organisation that governs it,
//! and of the proposals put before that organisation.

pub mod address;
pub mod autocrat;
pub mod error;
pub mod ledger;
pub mod math;
pub mod oracle;
pub mod position;
pub mod remove_liquidity;
