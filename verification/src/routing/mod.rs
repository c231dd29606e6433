//! Call routing: routing tables, longest-prefix match, weighted targets.

pub mod engine;
pub mod lpm;
pub mod resolve;
