//! Trunk gateway selection.

pub mod distribution;
