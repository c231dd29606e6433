//! Resilience primitives for provider fallback chains.

pub mod circuit_breaker;
pub mod fallback;
pub mod registry;
pub mod chain;
pub mod providers;
