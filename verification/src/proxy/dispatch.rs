//! Decisions of the proxy call dispatcher.

use vstd::prelude::*;
use crate::redis_state::types::{MediaConfig, TrunkConfig};
use crate::proxy::sdp_filter::{filter_sdp_codecs, resolve_trunk_codecs, sdp_filter_of, trunk_codecs_of};
use crate::proxy::types::{DspConfig, ProxyCallEvent, ProxyCallPhase};
use crate::proxy::failover::opt_view;
use crate::translation::engine::{translate, TranslationEngine, TranslationInput};
use crate::redis_state::types::TranslationClassConfig;
use crate::sip_uri::{user_part, with_user};
use crate::text::{
    chars_of, contains, contains_seq, decimal, eq_chars, from_utf8, from_utf8_lossy, is_text,
    lowercase, string_from_chars, to_lowercase, append, u64_to_decimal, utf8_lossy,
};
use vstd::utf8::{decode_utf8, valid_utf8};

pub use crate::sip_uri::{extract_user, rebuild_uri};

verus! {

/// Final status of a call record.
#[derive(Debug, Clone, Copy, PartialEq, Eq, Structural)]
pub enum CdrStatus {
    Completed,
    Failed,
    Cancelled,
    Busy,
    NoAnswer,
}

/// The status a termination reason maps to, matched on its lowercase form:
/// `cancel` first, then `busy` or `486`, then `no_answer`, `no answer` or
/// `408`, then `normal` or `200`; anything else failed.
pub open spec fn cdr_status_of(reason: Seq<char>) -> CdrStatus {
    let l = lowercase(reason);
    if contains_seq(l, "cancel"@) {
        CdrStatus::Cancelled
    } else if contains_seq(l, "busy"@) || contains_seq(l, "486"@) {
        CdrStatus::Busy
    } else if contains_seq(l, "no_answer"@) || contains_seq(l, "no answer"@) || contains_seq(
        l,
        "408"@,
    ) {
        CdrStatus::NoAnswer
    } else if contains_seq(l, "normal"@) || contains_seq(l, "200"@) {
        CdrStatus::Completed
    } else {
        CdrStatus::Failed
    }
}

/// Whether `l` contains the text `lit`.
fn has_text(l: &Vec<char>, lit: &str) -> (r: bool)
    ensures
        r == contains_seq(l@, lit@),
{
    contains(l, &chars_of(lit))
}

/// Maps a SIP termination reason to a call-record status.
pub fn terminated_reason_to_cdr_status(reason: &str) -> (r: CdrStatus)
    ensures
        r == cdr_status_of(reason@),
{
    let lower = to_lowercase(&chars_of(reason));
    if has_text(&lower, "cancel") {
        CdrStatus::Cancelled
    } else if has_text(&lower, "busy") || has_text(&lower, "486") {
        CdrStatus::Busy
    } else if has_text(&lower, "no_answer") || has_text(&lower, "no answer") || has_text(
        &lower,
        "408",
    ) {
        CdrStatus::NoAnswer
    } else if has_text(&lower, "normal") || has_text(&lower, "200") {
        CdrStatus::Completed
    } else {
        CdrStatus::Failed
    }
}

/// The DSP options for a trunk's media settings: echo cancellation, DTMF
/// detection and PLC on by default; `fax_terminal` turns fax on and echo
/// cancellation and DTMF detection off; `tone_detect` adds tone detection;
/// `minimal` turns echo cancellation, DTMF detection and PLC off.
pub open spec fn dsp_config_of(media: Option<MediaConfig>) -> DspConfig {
    let base = DspConfig {
        echo_cancellation: true,
        dtmf_detection: true,
        tone_detection: false,
        plc: true,
        fax_terminal: false,
    };
    match media {
        Some(m) => match m.media_mode {
            Some(mode) => if mode@ == "fax_terminal"@ {
                DspConfig {
                    fax_terminal: true,
                    echo_cancellation: false,
                    dtmf_detection: false,
                    ..base
                }
            } else if mode@ == "tone_detect"@ {
                DspConfig { tone_detection: true, ..base }
            } else if mode@ == "minimal"@ {
                DspConfig { echo_cancellation: false, dtmf_detection: false, plc: false, ..base }
            } else {
                base
            },
            None => base,
        },
        None => base,
    }
}

/// Builds the DSP options from a trunk's optional media settings.
pub fn build_dsp_config(media: &Option<MediaConfig>) -> (r: DspConfig)
    ensures
        r == dsp_config_of(*media),
{
    let mut cfg = DspConfig {
        echo_cancellation: true,
        dtmf_detection: true,
        tone_detection: false,
        plc: true,
        fax_terminal: false,
    };
    if let Some(m) = media {
        if let Some(mode) = &m.media_mode {
            let c = chars_of(mode.as_str());
            if is_text(&c, "fax_terminal") {
                cfg.fax_terminal = true;
                cfg.echo_cancellation = false;
                cfg.dtmf_detection = false;
            } else if is_text(&c, "tone_detect") {
                cfg.tone_detection = true;
            } else if is_text(&c, "minimal") {
                cfg.echo_cancellation = false;
                cfg.dtmf_detection = false;
                cfg.plc = false;
            }
        }
    }
    cfg
}

/// The handler a DID's routing mode selects.
#[derive(Debug, Clone, Copy, PartialEq, Eq, Structural)]
pub enum BridgeMode {
    /// `sip_proxy`: the SIP B2BUA path.
    SipProxy,
    /// `webrtc_bridge`.
    WebRtcBridge,
    /// `ws_bridge`.
    WsBridge,
}

/// The handler for `mode`, or the error text `unknown bridge mode: <mode>`.
pub open spec fn bridge_mode_of(mode: Seq<char>) -> Result<BridgeMode, Seq<char>> {
    if mode == "sip_proxy"@ {
        Ok(BridgeMode::SipProxy)
    } else if mode == "webrtc_bridge"@ {
        Ok(BridgeMode::WebRtcBridge)
    } else if mode == "ws_bridge"@ {
        Ok(BridgeMode::WsBridge)
    } else {
        Err("unknown bridge mode: "@ + mode)
    }
}

/// Chooses the handler for a DID's routing mode.
pub fn classify_bridge_mode(mode: &str) -> (r: Result<BridgeMode, String>)
    ensures
        match bridge_mode_of(mode@) {
            Ok(m) => r == Ok::<BridgeMode, String>(m),
            Err(e) => r matches Err(s) && s@ == e,
        },
{
    let c = chars_of(mode);
    if is_text(&c, "sip_proxy") {
        Ok(BridgeMode::SipProxy)
    } else if is_text(&c, "webrtc_bridge") {
        Ok(BridgeMode::WebRtcBridge)
    } else if is_text(&c, "ws_bridge") {
        Ok(BridgeMode::WsBridge)
    } else {
        let mut msg = chars_of("unknown bridge mode: ");
        append(&mut msg, &c);
        Err(string_from_chars(&msg))
    }
}


/// How route resolution ended for a DID.
#[derive(Debug, Clone, PartialEq)]
pub enum RouteOutcome {
    /// The DID names no routing table.
    NoTable,
    /// The routing table chose this trunk.
    Resolved(String),
    /// The routing table matched nothing.
    NoRoute,
    /// Resolution failed.
    Failed,
}

/// The trunk a call goes to: the one the routing table chose, else the
/// DID's own trunk.
pub fn dispatch_trunk(did_trunk: &str, outcome: RouteOutcome) -> (r: String)
    ensures
        outcome matches RouteOutcome::Resolved(t) ==> r@ == t@,
        !(outcome is Resolved) ==> r@ == did_trunk@,
{
    match outcome {
        RouteOutcome::Resolved(t) => t,
        _ => did_trunk.to_owned(),
    }
}

/// What a trunk's capacity guard answered.
#[derive(Debug, Clone, PartialEq)]
pub enum CapacityCheck {
    Allowed,
    CpsExceeded { current: u64, limit: u64 },
    ConcurrentExceeded { current: u64, limit: u64 },
    TrunkBlocked { reason: String },
}

/// The rejection text for a capacity answer; `None` when the call may go on.
pub open spec fn capacity_rejection_of(trunk: Seq<char>, check: CapacityCheck) -> Option<Seq<char>> {
    match check {
        CapacityCheck::Allowed => None,
        CapacityCheck::CpsExceeded { current, limit } => Some(
            "CPS limit exceeded for trunk '"@ + trunk + "': "@ + decimal(current as nat) + "/"@
                + decimal(limit as nat),
        ),
        CapacityCheck::ConcurrentExceeded { current, limit } => Some(
            "concurrent limit exceeded for trunk '"@ + trunk + "': "@ + decimal(current as nat) + "/"@
                + decimal(limit as nat),
        ),
        CapacityCheck::TrunkBlocked { reason } => Some(
            "trunk '"@ + trunk + "' is temporarily blocked: "@ + reason@,
        ),
    }
}

/// Rejects a call over its trunk's capacity, with the reason.
pub fn capacity_rejection(trunk: &str, check: &CapacityCheck) -> (r: Option<String>)
    ensures
        opt_view(r) == capacity_rejection_of(trunk@, *check),
{
    match check {
        CapacityCheck::Allowed => None,
        CapacityCheck::CpsExceeded { current, limit } => {
            let mut v = chars_of("CPS limit exceeded for trunk '");
            append(&mut v, &chars_of(trunk));
            append(&mut v, &chars_of("': "));
            append(&mut v, &u64_to_decimal(*current));
            append(&mut v, &chars_of("/"));
            append(&mut v, &u64_to_decimal(*limit));
            Some(string_from_chars(&v))
        },
        CapacityCheck::ConcurrentExceeded { current, limit } => {
            let mut v = chars_of("concurrent limit exceeded for trunk '");
            append(&mut v, &chars_of(trunk));
            append(&mut v, &chars_of("': "));
            append(&mut v, &u64_to_decimal(*current));
            append(&mut v, &chars_of("/"));
            append(&mut v, &u64_to_decimal(*limit));
            Some(string_from_chars(&v))
        },
        CapacityCheck::TrunkBlocked { reason } => {
            let mut v = chars_of("trunk '");
            append(&mut v, &chars_of(trunk));
            append(&mut v, &chars_of("' is temporarily blocked: "));
            append(&mut v, &chars_of(reason.as_str()));
            Some(string_from_chars(&v))
        },
    }
}

/// The error text for a trunk that does not exist: `trunk '<name>' not found`.
pub fn trunk_not_found(name: &str) -> (r: String)
    ensures
        r@ == "trunk '"@ + name@ + "' not found"@,
{
    let mut v = chars_of("trunk '");
    append(&mut v, &chars_of(name));
    append(&mut v, &chars_of("' not found"));
    string_from_chars(&v)
}

/// The caller's SDP as offered to the trunk: filtered to the trunk's codecs
/// when it names any; a filter error rejects the call.
pub open spec fn offered_sdp_of(media: Option<MediaConfig>, codecs: Option<Vec<String>>, sdp: Seq<char>) -> Result<
    Seq<char>,
    Seq<char>,
> {
    match trunk_codecs_of(media, codecs) {
        Some(allowed) => match sdp_filter_of(sdp, allowed.map_values(|a: String| a@)) {
            Ok(f) => Ok(f),
            Err(e) => Err("SDP codec filter: "@ + e),
        },
        None => Ok(sdp),
    }
}

/// Filters the caller's SDP to the trunk's codecs.
pub fn offered_sdp(media: &Option<MediaConfig>, codecs: &Option<Vec<String>>, sdp: String) -> (r: Result<
    String,
    String,
>)
    ensures
        match offered_sdp_of(*media, *codecs, sdp@) {
            Ok(s) => r matches Ok(x) && x@ == s,
            Err(e) => r matches Err(x) && x@ == e,
        },
{
    match resolve_trunk_codecs(media, codecs) {
        Some(allowed) => {
            proof {
                assert(allowed@.map_values(|a: String| a@) =~= allowed@.map_values(|a: String| a@));
            }
            match filter_sdp_codecs(sdp.as_str(), allowed.as_slice()) {
                Ok(f) => Ok(f),
                Err(e) => {
                    let mut v = chars_of("SDP codec filter: ");
                    append(&mut v, &chars_of(e.as_str()));
                    Err(string_from_chars(&v))
                },
            }
        },
        None => Ok(sdp),
    }
}

/// The URI used after translation: rebuilt around the translated user when
/// it differs from the URI's own, else unchanged.
pub open spec fn final_uri_of(uri: Seq<char>, user: Seq<char>) -> Seq<char> {
    if user != user_part(uri) {
        with_user(uri, user)
    } else {
        uri
    }
}

/// Builds the URI used after translation.
pub fn final_uri(uri: &str, translated_user: &str) -> (r: String)
    ensures
        r@ == final_uri_of(uri@, translated_user@),
{
    let own = extract_user(uri);
    if !eq_chars(&chars_of(translated_user), &chars_of(own.as_str())) {
        rebuild_uri(uri, translated_user)
    } else {
        uri.to_owned()
    }
}

/// Timing and status gathered from a proxy session's events for its call
/// record. Times are Unix milliseconds.
#[derive(Debug, Clone, Copy, PartialEq, Eq, Structural)]
pub struct TimingCollector {
    /// When the callee first rang or sent early media.
    pub ring_time: Option<u64>,
    /// When the call was first answered.
    pub answer_time: Option<u64>,
    /// The status from the last termination (completed until one arrives).
    pub status: CdrStatus,
}

impl TimingCollector {
    /// Nothing observed yet: no times, completed.
    pub fn new() -> (r: Self)
        ensures
            r.ring_time is None,
            r.answer_time is None,
            r.status == CdrStatus::Completed,
    {
        TimingCollector { ring_time: None, answer_time: None, status: CdrStatus::Completed }
    }

    /// Takes one session event observed at `now`. Returns `true` when the
    /// event is an answer, which marks the live call record answered at
    /// `now`.
    pub fn on_event(&mut self, event: &ProxyCallEvent, now: u64) -> (r: bool)
        ensures
            r == (event is Answered),
            match *event {
                ProxyCallEvent::PhaseChanged(ProxyCallPhase::Ringing)
                | ProxyCallEvent::PhaseChanged(ProxyCallPhase::EarlyMedia) => *final(self)
                    == TimingCollector {
                    ring_time: match old(self).ring_time {
                        Some(t) => Some(t),
                        None => Some(now),
                    },
                    ..*old(self)
                },
                ProxyCallEvent::Answered { .. } => *final(self) == TimingCollector {
                    answer_time: match old(self).answer_time {
                        Some(t) => Some(t),
                        None => Some(now),
                    },
                    ..*old(self)
                },
                ProxyCallEvent::Terminated { reason, .. } => *final(self) == TimingCollector {
                    status: cdr_status_of(reason@),
                    ..*old(self)
                },
                _ => *final(self) == *old(self),
            },
    {
        match event {
            ProxyCallEvent::PhaseChanged(ProxyCallPhase::Ringing)
            | ProxyCallEvent::PhaseChanged(ProxyCallPhase::EarlyMedia) => {
                if self.ring_time.is_none() {
                    self.ring_time = Some(now);
                }
                false
            },
            ProxyCallEvent::Answered { .. } => {
                if self.answer_time.is_none() {
                    self.answer_time = Some(now);
                }
                true
            },
            ProxyCallEvent::Terminated { reason, .. } => {
                self.status = terminated_reason_to_cdr_status(reason.as_str());
                false
            },
            _ => false,
        }
    }
}

/// The final status of a session run: failed when the session erred or its
/// collector was lost, else what the collector gathered.
pub fn session_status(session_ok: bool, collected: Option<CdrStatus>) -> (r: CdrStatus)
    ensures
        r == (if session_ok {
            match collected {
                Some(s) => s,
                None => CdrStatus::Failed,
            }
        } else {
            CdrStatus::Failed
        }),
{
    if !session_ok {
        return CdrStatus::Failed;
    }
    match collected {
        Some(s) => s,
        None => CdrStatus::Failed,
    }
}

/// What the bridge of an answered pjsip call observed.
#[derive(Debug, Clone, PartialEq)]
pub enum BridgeEvent {
    /// The call was cancelled.
    Cancelled,
    /// The inbound INVITE transaction ended.
    InviteDone,
    /// The gateway terminated the call.
    GatewayTerminated,
    /// The gateway sent a re-INVITE with this SDP.
    GatewayReInvite { sdp: String },
    /// The gateway sent an INFO.
    GatewayInfo { content_type: String, body: String },
    /// The gateway's event channel closed.
    GatewayClosed,
    /// Another gateway event (ringing and the like).
    GatewayOther,
    /// The inbound dialog was confirmed (ACK received).
    CallerConfirmed,
    /// The caller sent an INFO.
    CallerInfo { content_type: Option<String>, body: Vec<u8> },
    /// The caller hung up or its dialog ended.
    CallerTerminated,
    /// Another caller dialog state.
    CallerOther,
}

/// What the bridge does next.
#[derive(Debug, Clone, PartialEq)]
pub enum BridgeAction {
    /// Keep bridging.
    Continue,
    /// End the bridge.
    Stop,
    /// Send BYE to the gateway, then end the bridge.
    ByeAndStop,
    /// Relay the gateway's re-INVITE to the caller.
    RelayReInvite { sdp: String },
    /// Relay an INFO to the caller, with its content type and body when
    /// they are non-empty.
    InfoToCaller { content_type: Option<String>, body: Option<Vec<u8>> },
    /// Relay an INFO to the gateway, then answer the caller 200 OK.
    InfoToGateway { content_type: String, body: String },
}

/// The UTF-8 bytes of a string.
fn string_bytes(s: String) -> (r: Vec<u8>)
    ensures
        decode_utf8(r@) == s@,
{
    let v = s.as_str().as_bytes_vec();
    proof {
        vstd::utf8::encode_utf8_decode_utf8(s@);
    }
    v
}

/// The bridge of an answered pjsip call.
#[derive(Debug, Clone, Copy, PartialEq, Eq, Structural)]
pub struct PjBridge {
    /// Whether the inbound dialog was confirmed.
    pub dialog_confirmed: bool,
}

impl PjBridge {
    /// A bridge whose inbound dialog is not yet confirmed.
    pub fn new() -> (r: Self)
        ensures
            !r.dialog_confirmed,
    {
        PjBridge { dialog_confirmed: false }
    }

    /// Decides on one observation.
    pub fn on_event(&mut self, event: BridgeEvent) -> (r: BridgeAction)
        ensures
            final(self).dialog_confirmed == (old(self).dialog_confirmed || event is CallerConfirmed),
            match event {
                BridgeEvent::Cancelled | BridgeEvent::CallerTerminated => r == BridgeAction::ByeAndStop,
                BridgeEvent::InviteDone => r == (if old(self).dialog_confirmed {
                    BridgeAction::Continue
                } else {
                    BridgeAction::ByeAndStop
                }),
                BridgeEvent::GatewayTerminated | BridgeEvent::GatewayClosed => r == BridgeAction::Stop,
                BridgeEvent::GatewayReInvite { sdp } => r == BridgeAction::RelayReInvite { sdp },
                BridgeEvent::GatewayInfo { content_type, body } => r matches BridgeAction::InfoToCaller {
                    content_type: ct,
                    body: b,
                } && (content_type@.len() == 0 ==> ct is None) && (content_type@.len() > 0 ==> ct
                    == Some(content_type)) && (body@.len() == 0 ==> b is None) && (body@.len() > 0
                    ==> (b matches Some(bytes) && decode_utf8(bytes@) == body@)),
                BridgeEvent::CallerInfo { content_type, body } => r matches BridgeAction::InfoToGateway {
                    content_type: ct,
                    body: b,
                } && ct@ == (match content_type {
                    Some(c) => c@,
                    None => Seq::<char>::empty(),
                }) && (body@.len() == 0 ==> b@.len() == 0) && (body@.len() > 0 ==> b@ == utf8_lossy(
                    body@,
                )),
                _ => r == BridgeAction::Continue,
            },
    {
        match event {
            BridgeEvent::Cancelled | BridgeEvent::CallerTerminated => BridgeAction::ByeAndStop,
            BridgeEvent::InviteDone => {
                if self.dialog_confirmed {
                    BridgeAction::Continue
                } else {
                    BridgeAction::ByeAndStop
                }
            },
            BridgeEvent::GatewayTerminated | BridgeEvent::GatewayClosed => BridgeAction::Stop,
            BridgeEvent::GatewayReInvite { sdp } => BridgeAction::RelayReInvite { sdp },
            BridgeEvent::GatewayInfo { content_type, body } => {
                let ct = if content_type.as_str().unicode_len() == 0 {
                    None
                } else {
                    Some(content_type)
                };
                let b = if body.as_str().unicode_len() == 0 {
                    None
                } else {
                    Some(string_bytes(body))
                };
                BridgeAction::InfoToCaller { content_type: ct, body: b }
            },
            BridgeEvent::CallerInfo { content_type, body } => {
                let ct = match content_type {
                    Some(c) => c,
                    None => String::new(),
                };
                let b = if body.len() == 0 {
                    String::new()
                } else {
                    from_utf8_lossy(body.as_slice())
                };
                BridgeAction::InfoToGateway { content_type: ct, body: b }
            },
            BridgeEvent::CallerConfirmed => {
                self.dialog_confirmed = true;
                BridgeAction::Continue
            },
            _ => BridgeAction::Continue,
        }
    }
}

/// The caller's reply to a relayed re-INVITE.
#[derive(Debug, Clone, PartialEq)]
pub enum ReinviteReply {
    /// The caller answered with this status and body.
    Answered { status: u16, body: Vec<u8> },
    /// The inbound dialog was not confirmed.
    NotConfirmed,
    /// Relaying failed.
    Failed,
}

/// How the gateway's re-INVITE is answered: with the caller's status and
/// its body when that is non-empty valid UTF-8; with 200 and no SDP when the
/// caller could not be asked.
pub fn reinvite_answer(reply: ReinviteReply) -> (r: (u16, Option<String>))
    ensures
        match reply {
            ReinviteReply::Answered { status, body } => r.0 == status && (body@.len() == 0
                ==> r.1 is None) && (body@.len() > 0 ==> (r.1 is Some <==> valid_utf8(body@))) && (
            r.1 matches Some(s) ==> s@ == decode_utf8(body@)),
            _ => r.0 == 200 && r.1 is None,
        },
{
    match reply {
        ReinviteReply::Answered { status, body } => {
            let sdp = if body.len() == 0 {
                None
            } else {
                from_utf8(body.as_slice())
            };
            (status, sdp)
        },
        _ => (200, None),
    }
}

/// One leg of a carrier call record.
#[derive(Debug, Clone, PartialEq)]
pub struct CdrLeg {
    pub trunk: String,
    pub gateway: Option<String>,
    pub caller: String,
    pub callee: String,
    pub codec: Option<String>,
    pub transport: String,
    pub srtp: bool,
    pub sip_status: u16,
    pub hangup_cause: Option<String>,
    pub source_ip: Option<String>,
    pub destination_ip: Option<String>,
}

/// A leg of `trunk` through `gateway` between the users of the two URIs:
/// UDP without SRTP, status 200 for a completed call and 0 otherwise.
pub open spec fn leg_of(
    leg: CdrLeg,
    trunk: Seq<char>,
    gateway: Option<Seq<char>>,
    caller_uri: Seq<char>,
    callee_uri: Seq<char>,
    status: CdrStatus,
) -> bool {
    &&& leg.trunk@ == trunk
    &&& opt_view(leg.gateway) == gateway
    &&& leg.caller@ == user_part(caller_uri)
    &&& leg.callee@ == user_part(callee_uri)
    &&& leg.codec is None
    &&& leg.transport@ == "udp"@
    &&& !leg.srtp
    &&& leg.sip_status == (if status == CdrStatus::Completed {
        200u16
    } else {
        0u16
    })
    &&& leg.hangup_cause is None
    &&& leg.source_ip is None
    &&& leg.destination_ip is None
}

/// Builds one leg of a call record.
fn make_leg(trunk: &str, gateway: Option<String>, caller_uri: &str, callee_uri: &str, status: CdrStatus) -> (r: CdrLeg)
    ensures
        leg_of(r, trunk@, opt_view(gateway), caller_uri@, callee_uri@, status),
{
    CdrLeg {
        trunk: trunk.to_owned(),
        gateway,
        caller: extract_user(caller_uri),
        callee: extract_user(callee_uri),
        codec: None,
        transport: "udp".to_owned(),
        srtp: false,
        sip_status: if status == CdrStatus::Completed {
            200
        } else {
            0
        },
        hangup_cause: None,
        source_ip: None,
        destination_ip: None,
    }
}

/// The two legs of a call record: inbound on the DID's trunk, outbound on
/// the dialed trunk through its first gateway.
pub fn cdr_legs(did_trunk: &str, trunk: &TrunkConfig, caller_uri: &str, callee_uri: &str, status: CdrStatus) -> (r: (CdrLeg, CdrLeg))
    ensures
        leg_of(r.0, did_trunk@, None, caller_uri@, callee_uri@, status),
        leg_of(
            r.1,
            trunk.name@,
            if trunk.gateways@.len() > 0 {
                Some(trunk.gateways@[0].name@)
            } else {
                None
            },
            caller_uri@,
            callee_uri@,
            status,
        ),
{
    let inbound = make_leg(did_trunk, None, caller_uri, callee_uri, status);
    let gateway = if trunk.gateways.len() > 0 {
        Some(trunk.gateways[0].name.clone())
    } else {
        None
    };
    let outbound = make_leg(trunk.name.as_str(), gateway, caller_uri, callee_uri, status);
    (inbound, outbound)
}


/// The caller and callee users after the first `n` translation classes of
/// a dispatch (inbound direction, no caller name): a class that changes
/// anything replaces both.
pub open spec fn dispatch_translation(
    caller: Seq<char>,
    callee: Seq<char>,
    classes: Seq<TranslationClassConfig>,
    n: int,
) -> (Seq<char>, Seq<char>)
    decreases n,
{
    if n <= 0 {
        (caller, callee)
    } else {
        let prev = dispatch_translation(caller, callee, classes, n - 1);
        let rules = classes[n - 1].rules@;
        let st = translate(rules, prev.0, prev.1, None, "inbound"@, rules.len() as int);
        if st.modified {
            (st.caller, st.dest)
        } else {
            prev
        }
    }
}

/// Applies a trunk's translation classes, in order, to the caller and
/// callee users of a call.
pub fn apply_translation_classes(caller: String, callee: String, classes: &[TranslationClassConfig]) -> (r: (
    String,
    String,
))
    ensures
        (r.0@, r.1@) == dispatch_translation(caller@, callee@, classes@, classes@.len() as int),
{
    let mut c = caller;
    let mut d = callee;
    let mut i: usize = 0;
    while i < classes.len()
        invariant
            i <= classes@.len(),
            (c@, d@) == dispatch_translation(caller@, callee@, classes@, i as int),
        decreases classes@.len() - i,
    {
        let input = TranslationInput {
            caller_number: c.clone(),
            destination_number: d.clone(),
            caller_name: None,
            direction: "inbound".to_owned(),
        };
        let result = TranslationEngine::apply(&classes[i], &input);
        if result.modified {
            c = result.caller_number;
            d = result.destination_number;
        }
        i = i + 1;
    }
    (c, d)
}

} // verus!
