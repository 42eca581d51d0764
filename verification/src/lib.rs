//! A model of the two-phase-commit atomic-commitment protocol: a transaction
//! manager (coordinator) drives a set of resource managers (participants) to a
//! single transaction-wide decision, commit or abort, such that no participant
//! ever finalizes an outcome inconsistent with the others.
//!
//! The crate also carries the small actor-modelling toolkit the protocol model
//! is embedded in: erased actor states with their comparison traits, local and
//! global state snapshots, and a water-jug example actor.

pub mod action;
pub mod actor;
pub mod dyn_hash;
pub mod dyn_ord;
pub mod dyn_partial_eq;
pub mod dyn_partial_ord;
pub mod erased;
pub mod execution_context;
pub mod global_state;
pub mod jug;
pub mod test_utils;
pub mod two_phase_commit;
