//! Verified core of a SIP proxy / voice-agent gateway: resilience
//! primitives, SIP timers and header helpers, SDP handling, routing and
//! trunk selection, and security checks.

pub mod text;
pub mod clock;
pub mod resilience;
pub mod proxy;
pub mod redis_state;
pub mod weighted;
pub mod random;
pub mod routing;
pub mod trunk;
pub mod security;
pub mod sip_uri;
pub mod pattern;
pub mod media;
pub mod offline;
pub mod translation;
pub mod transcription;
pub mod synthesis;
pub mod playbook;
