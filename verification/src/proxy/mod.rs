//! SIP proxy: timers, SDP handling, dialing and call dispatch decisions.

pub mod session_timer;
pub mod dispatch;
pub mod failover;
pub mod parallel_dial;
pub mod pj_failover;
pub mod session;
pub mod types;
pub mod sdp_filter;
pub mod media_bridge;
pub mod bridge;
