//! The two-phase-commit protocol: the participant and coordinator state
//! machines, the capability interfaces through which they invoke each other,
//! and deterministic in-memory implementations of those interfaces used to
//! drive and observe protocol executions.

pub mod model;
pub mod model_verification;
pub mod protocol;
