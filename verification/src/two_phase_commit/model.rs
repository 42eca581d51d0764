//! The protocol actors and their capability interfaces.

pub mod resource_manager;
pub mod transaction_manager;
