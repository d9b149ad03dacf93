//! Computational core of a constant-product automated market maker.
//!
//! Given two pooled reserves held under the invariant `x * y = k`, the
//! [`curve`] module computes the amount of one asset that must be released
//! in exchange for a deposited amount of the other, and the [`swap`] module
//! validates a trade, enforces the caller's minimum-output floor, and moves
//! the pool's custody balances and the trader's balances in lockstep.
//! The [`auth`] module derives the credential that authorizes the
//! withdrawal leg on the pool's behalf.
//!
//! Account validation, key derivation and signature checks belong to the
//! hosting ledger runtime and are out of scope here: the core assumes
//! validated inputs and re-checks only the invariants that are its own
//! responsibility (lock flag, nonzero amount, nonzero reserves).

pub mod auth;
pub mod curve;
pub mod errors;
pub mod swap;
