//! Media helpers: codec naming and RTP map parsing.

pub mod codec;
pub mod resample;
