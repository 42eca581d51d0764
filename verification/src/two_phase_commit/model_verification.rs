//! Deterministic in-memory implementations of the three capability
//! interfaces, enabling exhaustive, synchronous enumeration of protocol
//! executions without a real transport.

pub mod in_memory_resource_manager_client;
pub mod in_memory_resource_manager_state_store;
pub mod in_memory_transaction_manager_client;
