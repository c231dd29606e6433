//! Shared proxy call types: DSP options, call phases, commands and events.

use vstd::prelude::*;

verus! {

/// DSP processing options for a proxy call.
#[derive(Debug, Clone, Copy, Default, PartialEq, Eq, Structural)]
pub struct DspConfig {
    /// Acoustic echo cancellation on the caller leg.
    pub echo_cancellation: bool,
    /// In-band DTMF detection on the caller leg.
    pub dtmf_detection: bool,
    /// Call-progress tone detection on the callee leg.
    pub tone_detection: bool,
    /// Packet loss concealment on both legs.
    pub plc: bool,
    /// T.38 fax terminal mode.
    pub fax_terminal: bool,
}

/// Phases of a proxy call.
#[derive(Clone, Copy, Debug, Eq, PartialEq, Structural)]
pub enum ProxyCallPhase {
    Initializing,
    Ringing,
    EarlyMedia,
    Bridged,
    OnHold,
    Transferring,
    Terminating,
    Failed,
    Ended,
}

/// No DSP processing at all.
pub open spec fn no_dsp() -> DspConfig {
    DspConfig {
        echo_cancellation: false,
        dtmf_detection: false,
        tone_detection: false,
        plc: false,
        fax_terminal: false,
    }
}

/// What a proxy call carries from setup to teardown.
#[derive(Debug, Clone, PartialEq)]
pub struct ProxyCallContext {
    pub session_id: String,
    /// When the call started, in milliseconds since the Unix epoch.
    pub start_time: u64,
    pub original_caller: String,
    pub original_callee: String,
    pub trunk_name: String,
    pub did_number: Option<String>,
    pub routing_table: Option<String>,
    pub max_forwards: u32,
    pub dsp: DspConfig,
}

impl ProxyCallContext {
    /// A context started at `now`: no DID or routing table yet, 70
    /// Max-Forwards, no DSP.
    pub fn new_at(
        session_id: String,
        original_caller: String,
        original_callee: String,
        trunk_name: String,
        now: u64,
    ) -> (r: Self)
        ensures
            r.session_id == session_id,
            r.start_time == now,
            r.original_caller == original_caller,
            r.original_callee == original_callee,
            r.trunk_name == trunk_name,
            r.did_number is None,
            r.routing_table is None,
            r.max_forwards == 70,
            r.dsp == no_dsp(),
    {
        ProxyCallContext {
            session_id,
            start_time: now,
            original_caller,
            original_callee,
            trunk_name,
            did_number: None,
            routing_table: None,
            max_forwards: 70,
            dsp: DspConfig {
                echo_cancellation: false,
                dtmf_detection: false,
                tone_detection: false,
                plc: false,
                fax_terminal: false,
            },
        }
    }

    /// A context started now; see [`ProxyCallContext::new_at`].
    pub fn new(session_id: String, original_caller: String, original_callee: String, trunk_name: String) -> (r: Self)
        ensures
            r.session_id == session_id,
            r.original_caller == original_caller,
            r.original_callee == original_callee,
            r.trunk_name == trunk_name,
            r.did_number is None,
            r.routing_table is None,
            r.max_forwards == 70,
            r.dsp == no_dsp(),
    {
        let now = crate::clock::unix_time_millis();
        Self::new_at(session_id, original_caller, original_callee, trunk_name, now)
    }
}

/// Commands that can be sent to a call session.
#[derive(Debug, Clone, PartialEq)]
pub enum SessionAction {
    AcceptCall { sdp: Option<String> },
    TransferTarget(String),
    ProvideEarlyMedia(String),
    Hangup { reason: Option<String>, code: Option<u16> },
    HandleReInvite(String),
    MuteTrack,
    UnmuteTrack,
    HoldCall,
    ResumeCall,
}

/// Events emitted by a proxy call session.
#[derive(Debug, Clone, PartialEq)]
pub enum ProxyCallEvent {
    PhaseChanged(ProxyCallPhase),
    EarlyMedia { sdp: String },
    Answered { sdp: String },
    Terminated { reason: String, code: u16 },
    TransferInitiated { target: String },
    HoldDetected,
    ResumeDetected,
    /// A DTMF digit detected in-band: the digit and the time in Unix milliseconds.
    DtmfDetected { digit: char, timestamp: u64 },
    /// A call-progress tone: "busy", "ringback", "sit" or "unknown".
    ToneDetected { tone_type: String },
}

} // verus!
