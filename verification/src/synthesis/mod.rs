//! Speech synthesis: provider fallback.

pub mod fallback;
