//! Configuration and runtime records shared through the state store.

pub mod pubsub;
pub mod runtime_state;
pub mod auth;
pub mod keys;
pub mod types;
