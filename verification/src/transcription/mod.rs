//! Speech recognition: provider fallback.

pub mod fallback;
