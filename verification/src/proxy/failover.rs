//! Sequential gateway dialing: the decisions of the failover loop.
//!
//! The loop tries a trunk's gateways in order until one answers, a
//! no-failover code stops it, or all have failed. The I/O (configuration
//! lookups, INVITEs, waiting on dialog events) is driven by the caller,
//! which feeds each observation to these state machines.

use vstd::prelude::*;
use crate::redis_state::types::TrunkConfig;
use crate::sip_uri::user_part;
use crate::text::{append, chars_of, from_utf8_lossy, string_from_chars, utf8_lossy};

verus! {

/// Why a dialog terminated, with the status code carried by the
/// code-bearing variants.
#[derive(Debug, Clone, Copy, PartialEq, Eq, Structural)]
pub enum TerminationReason {
    Timeout,
    UacCancel,
    UacBye,
    UasBye,
    UacBusy,
    UasBusy,
    UasDecline,
    ProxyError(u16),
    ProxyAuthRequired,
    UacOther(u16),
    UasOther(u16),
}

/// The SIP status code of a termination reason.
pub open spec fn termination_code(r: TerminationReason) -> u16 {
    match r {
        TerminationReason::Timeout => 408,
        TerminationReason::UacCancel => 487,
        TerminationReason::UacBye | TerminationReason::UasBye => 200,
        TerminationReason::UacBusy | TerminationReason::UasBusy => 486,
        TerminationReason::UasDecline => 603,
        TerminationReason::ProxyError(c) => c,
        TerminationReason::ProxyAuthRequired => 407,
        TerminationReason::UacOther(c) | TerminationReason::UasOther(c) => c,
    }
}

/// Converts a termination reason to a SIP status code.
pub fn terminated_reason_to_code(reason: &TerminationReason) -> (r: u16)
    ensures
        r == termination_code(*reason),
{
    match reason {
        TerminationReason::Timeout => 408,
        TerminationReason::UacCancel => 487,
        TerminationReason::UacBye | TerminationReason::UasBye => 200,
        TerminationReason::UacBusy | TerminationReason::UasBusy => 486,
        TerminationReason::UasDecline => 603,
        TerminationReason::ProxyError(c) => *c,
        TerminationReason::ProxyAuthRequired => 407,
        TerminationReason::UacOther(c) | TerminationReason::UasOther(c) => *c,
    }
}

/// `code` is one of the trunk's no-failover codes.
pub open spec fn nofailover_code(codes: Option<Vec<u16>>, code: u16) -> bool {
    match codes {
        Some(c) => c@.contains(code),
        None => false,
    }
}

/// Whether `code` occurs in `codes`.
fn vec_contains(codes: &Vec<u16>, code: u16) -> (r: bool)
    ensures
        r == codes@.contains(code),
{
    let mut i: usize = 0;
    while i < codes.len()
        invariant
            i <= codes@.len(),
            forall|j: int| 0 <= j < i ==> codes@[j] != code,
        decreases codes@.len() - i,
    {
        if codes[i] == code {
            assert(codes@[i as int] == code);
            return true;
        }
        i = i + 1;
    }
    false
}

/// Whether `code` is in the optional no-failover list.
pub fn code_in_list(codes: &Option<Vec<u16>>, code: u16) -> (r: bool)
    ensures
        r == nofailover_code(*codes, code),
{
    match codes {
        Some(c) => vec_contains(c, code),
        None => false,
    }
}

/// Whether `code` is listed in `trunk.nofailover_sip_codes`.
pub fn is_nofailover(code: u16, trunk: &TrunkConfig) -> (r: bool)
    ensures
        r == nofailover_code(trunk.nofailover_sip_codes, code),
{
    code_in_list(&trunk.nofailover_sip_codes, code)
}

/// What the dialog of one gateway attempt reported.
#[derive(Debug, Clone, PartialEq)]
pub enum DialEvent {
    /// The call was cancelled.
    Cancelled,
    /// The dialog's event channel closed.
    ChannelClosed,
    /// No event within the attempt's timeout.
    TimedOut,
    /// Still in progress (calling, trying, waiting for ACK, mid-dialog noise).
    Progress,
    /// Provisional response with its body.
    Early { body: Vec<u8> },
    /// Final 2xx with its body.
    Confirmed { body: Vec<u8> },
    /// Terminated, with the reason and its rendering.
    Terminated { reason: TerminationReason, reason_text: String },
}

/// The result of one gateway attempt, or what to do while it continues.
#[derive(Debug, Clone, PartialEq)]
pub enum WaitStep {
    /// Keep waiting.
    Continue,
    /// Relay 183 Session Progress with this SDP to the caller, keep waiting.
    RelayEarlyMedia { sdp: String },
    /// Relay 180 Ringing to the caller, keep waiting.
    RelayRinging,
    /// The gateway answered, with the answer SDP if any.
    Connected { sdp: Option<String> },
    /// A no-failover code: stop dialing.
    NoFailover { code: u16, reason: String },
    /// This gateway failed: try the next.
    Failed { code: u16, reason: String },
}

/// Waiting on one gateway attempt: the last early-media SDP seen.
#[derive(Debug, Clone, PartialEq)]
pub struct DialWait {
    pub early_media_sdp: Option<String>,
}

/// The answer SDP of a 2xx: its body when non-empty, else the early-media SDP.
pub open spec fn answer_sdp(body: Seq<u8>, early: Option<Seq<char>>) -> Option<Seq<char>> {
    if body.len() == 0 {
        early
    } else {
        Some(utf8_lossy(body))
    }
}

/// The view of an optional string.
pub open spec fn opt_view(o: Option<String>) -> Option<Seq<char>> {
    match o {
        Some(s) => Some(s@),
        None => None,
    }
}

/// What a wait step means for the attempt, with the early SDP after it.
pub open spec fn wait_step_spec(early: Option<Seq<char>>, event: DialEvent, codes: Option<Vec<u16>>) -> (
    Option<Seq<char>>,
    WaitSpec,
) {
    match event {
        DialEvent::Cancelled => (early, WaitSpec::Failed(487, "Cancelled"@)),
        DialEvent::ChannelClosed => (early, WaitSpec::Failed(503, "Dialog channel closed"@)),
        DialEvent::TimedOut => (early, WaitSpec::Failed(408, "Request Timeout"@)),
        DialEvent::Progress => (early, WaitSpec::Continue),
        DialEvent::Early { body } => if body@.len() > 0 {
            (Some(utf8_lossy(body@)), WaitSpec::RelayEarlyMedia(utf8_lossy(body@)))
        } else {
            (early, WaitSpec::RelayRinging)
        },
        DialEvent::Confirmed { body } => (
            if body@.len() == 0 {
                None
            } else {
                early
            },
            WaitSpec::Connected(answer_sdp(body@, early)),
        ),
        DialEvent::Terminated { reason, reason_text } => if nofailover_code(
            codes,
            termination_code(reason),
        ) {
            (early, WaitSpec::NoFailover(termination_code(reason), reason_text@))
        } else {
            (early, WaitSpec::Failed(termination_code(reason), reason_text@))
        },
    }
}

/// A wait step over character sequences.
pub enum WaitSpec {
    Continue,
    RelayEarlyMedia(Seq<char>),
    RelayRinging,
    Connected(Option<Seq<char>>),
    NoFailover(u16, Seq<char>),
    Failed(u16, Seq<char>),
}

/// The view of a wait step.
pub open spec fn wait_view(w: WaitStep) -> WaitSpec {
    match w {
        WaitStep::Continue => WaitSpec::Continue,
        WaitStep::RelayEarlyMedia { sdp } => WaitSpec::RelayEarlyMedia(sdp@),
        WaitStep::RelayRinging => WaitSpec::RelayRinging,
        WaitStep::Connected { sdp } => WaitSpec::Connected(opt_view(sdp)),
        WaitStep::NoFailover { code, reason } => WaitSpec::NoFailover(code, reason@),
        WaitStep::Failed { code, reason } => WaitSpec::Failed(code, reason@),
    }
}

/// A fresh string with the given text.
fn text(lit: &str) -> (r: String)
    ensures
        r@ == lit@,
{
    lit.to_owned()
}

impl DialWait {
    /// No early media seen yet.
    pub fn new() -> (r: Self)
        ensures
            r.early_media_sdp is None,
    {
        DialWait { early_media_sdp: None }
    }

    /// Applies one dialog event of the attempt. `codes` are the trunk's
    /// no-failover codes (`None` where every termination is a plain failure).
    pub fn step(&mut self, event: DialEvent, codes: &Option<Vec<u16>>) -> (r: WaitStep)
        ensures
            (opt_view(final(self).early_media_sdp), wait_view(r)) == wait_step_spec(
                opt_view(old(self).early_media_sdp),
                event,
                *codes,
            ),
    {
        match event {
            DialEvent::Cancelled => WaitStep::Failed { code: 487, reason: text("Cancelled") },
            DialEvent::ChannelClosed => WaitStep::Failed {
                code: 503,
                reason: text("Dialog channel closed"),
            },
            DialEvent::TimedOut => WaitStep::Failed { code: 408, reason: text("Request Timeout") },
            DialEvent::Progress => WaitStep::Continue,
            DialEvent::Early { body } => {
                if body.len() > 0 {
                    let sdp = from_utf8_lossy(body.as_slice());
                    self.early_media_sdp = Some(sdp.clone());
                    WaitStep::RelayEarlyMedia { sdp }
                } else {
                    WaitStep::RelayRinging
                }
            },
            DialEvent::Confirmed { body } => {
                let sdp = if body.len() == 0 {
                    self.early_media_sdp.take()
                } else {
                    Some(from_utf8_lossy(body.as_slice()))
                };
                WaitStep::Connected { sdp }
            },
            DialEvent::Terminated { reason, reason_text } => {
                let code = terminated_reason_to_code(&reason);
                if code_in_list(codes, code) {
                    WaitStep::NoFailover { code, reason: reason_text }
                } else {
                    WaitStep::Failed { code, reason: reason_text }
                }
            },
        }
    }
}

/// Result of a failover dial.
#[derive(Debug, Clone, PartialEq)]
pub enum FailoverResult {
    /// A gateway answered, with the answer SDP if any.
    Connected { gateway_addr: String, sdp: Option<String> },
    /// A no-failover code was received.
    NoFailover { code: u16, reason: String },
    /// Every gateway was tried and failed.
    Exhausted { last_code: u16, last_reason: String },
    /// The trunk has no gateways.
    NoRoutes,
}

/// Progress through a trunk's gateways.
#[derive(Debug, Clone, PartialEq)]
pub struct RouteLoop {
    /// Gateway being tried.
    pub current: usize,
    /// Number of gateways.
    pub total: usize,
    /// Status of the last failure (503 before any).
    pub last_code: u16,
    /// Reason of the last failure.
    pub last_reason: String,
}

/// What the failover loop does next.
#[derive(Debug, Clone, PartialEq)]
pub enum RouteStep {
    /// Dial the gateway at this position.
    Dial(usize),
    /// Dialing is over.
    Done(FailoverResult),
}

impl RouteLoop {
    /// The loop over `total` gateways, and its first step: `NoRoutes` when
    /// there are none, else dial the first.
    pub fn start(total: usize) -> (r: (RouteLoop, RouteStep))
        ensures
            r.0.current == 0,
            r.0.total == total,
            r.0.last_code == 503,
            r.0.last_reason@ == "Service Unavailable"@,
            total == 0 ==> r.1 == RouteStep::Done(FailoverResult::NoRoutes),
            total > 0 ==> r.1 == RouteStep::Dial(0),
    {
        let l = RouteLoop { current: 0, total, last_code: 503, last_reason: text("Service Unavailable") };
        if total == 0 {
            (l, RouteStep::Done(FailoverResult::NoRoutes))
        } else {
            (l, RouteStep::Dial(0))
        }
    }

    /// Moves past the current gateway: dial the next, or report exhaustion
    /// with the last failure.
    fn advance(&mut self) -> (r: RouteStep)
        requires
            old(self).current < old(self).total,
        ensures
            final(self).current == old(self).current + 1,
            final(self).total == old(self).total,
            final(self).last_code == old(self).last_code,
            final(self).last_reason == old(self).last_reason,
            final(self).current < final(self).total ==> r == RouteStep::Dial(final(self).current),
            final(self).current >= final(self).total ==> (r matches RouteStep::Done(
                FailoverResult::Exhausted { last_code, last_reason },
            ) && last_code == old(self).last_code && last_reason@ == old(self).last_reason@),
    {
        self.current = self.current + 1;
        if self.current < self.total {
            RouteStep::Dial(self.current)
        } else {
            RouteStep::Done(FailoverResult::Exhausted {
                last_code: self.last_code,
                last_reason: self.last_reason.clone(),
            })
        }
    }

    /// The current gateway could not be dialed (its configuration is missing
    /// or unreadable, or the INVITE could not be sent): record `reason` and
    /// move on.
    pub fn setup_failed(&mut self, reason: String) -> (r: RouteStep)
        requires
            old(self).current < old(self).total,
        ensures
            final(self).current == old(self).current + 1,
            final(self).total == old(self).total,
            final(self).last_code == old(self).last_code,
            final(self).last_reason@ == reason@,
            final(self).current < final(self).total ==> r == RouteStep::Dial(final(self).current),
            final(self).current >= final(self).total ==> (r matches RouteStep::Done(
                FailoverResult::Exhausted { last_code, last_reason },
            ) && last_code == old(self).last_code && last_reason@ == reason@),
    {
        self.last_reason = reason;
        self.advance()
    }

    /// The current gateway's URIs were malformed: move on, keeping the last
    /// failure.
    pub fn skip(&mut self) -> (r: RouteStep)
        requires
            old(self).current < old(self).total,
        ensures
            final(self).current == old(self).current + 1,
            final(self).last_code == old(self).last_code,
            final(self).last_reason == old(self).last_reason,
            final(self).current < final(self).total ==> r == RouteStep::Dial(final(self).current),
            final(self).current >= final(self).total ==> (r matches RouteStep::Done(
                FailoverResult::Exhausted { last_code, last_reason },
            ) && last_code == old(self).last_code && last_reason@ == old(self).last_reason@),
    {
        self.advance()
    }

    /// The attempt on the current gateway (named `gateway`) ended: connected
    /// and no-failover end the loop; a failure is recorded and the loop
    /// moves on. `outcome` must be a final step of [`DialWait::step`].
    pub fn attempt_ended(&mut self, gateway: &str, outcome: WaitStep) -> (r: RouteStep)
        requires
            old(self).current < old(self).total,
            outcome is Connected || outcome is NoFailover || outcome is Failed,
        ensures
            match outcome {
                WaitStep::Connected { sdp } => r matches RouteStep::Done(
                    FailoverResult::Connected { gateway_addr, sdp: s },
                ) && gateway_addr@ == gateway@ && s == sdp,
                WaitStep::NoFailover { code, reason } => r == RouteStep::Done(
                    FailoverResult::NoFailover { code, reason },
                ),
                WaitStep::Failed { code, reason } => final(self).current == old(self).current + 1
                    && final(self).total == old(self).total && final(self).last_code == code && final(self).last_reason == reason && (
                final(self).current < final(self).total ==> r == RouteStep::Dial(final(self).current))
                    && (final(self).current >= final(self).total ==> (r matches RouteStep::Done(
                    FailoverResult::Exhausted { last_code, last_reason },
                ) && last_code == code && last_reason@ == reason@)),
                _ => true,
            },
    {
        match outcome {
            WaitStep::Connected { sdp } => RouteStep::Done(
                FailoverResult::Connected { gateway_addr: gateway.to_owned(), sdp },
            ),
            WaitStep::NoFailover { code, reason } => RouteStep::Done(
                FailoverResult::NoFailover { code, reason },
            ),
            WaitStep::Failed { code, reason } => {
                self.last_code = code;
                self.last_reason = reason;
                self.advance()
            },
            _ => RouteStep::Dial(self.current),
        }
    }
}

/// The outbound Request-URI for a gateway: `sip:<callee user>@<proxy address>`.
pub open spec fn request_uri(callee_uri: Seq<char>, proxy_addr: Seq<char>) -> Seq<char> {
    "sip:"@ + user_part(callee_uri) + "@"@ + proxy_addr
}

/// Builds the outbound Request-URI for a gateway.
pub fn outbound_request_uri(callee_uri: &str, proxy_addr: &str) -> (r: String)
    ensures
        r@ == request_uri(callee_uri@, proxy_addr@),
{
    let user = crate::sip_uri::extract_user(callee_uri);
    let mut v = chars_of("sip:");
    append(&mut v, &chars_of(user.as_str()));
    append(&mut v, &chars_of("@"));
    append(&mut v, &chars_of(proxy_addr));
    string_from_chars(&v)
}

/// The reason recorded when a gateway has no configuration:
/// `gateway '<name>' not configured`.
pub fn gateway_not_configured(name: &str) -> (r: String)
    ensures
        r@ == "gateway '"@ + name@ + "' not configured"@,
{
    let mut v = chars_of("gateway '");
    append(&mut v, &chars_of(name));
    append(&mut v, &chars_of("' not configured"));
    string_from_chars(&v)
}

} // verus!
