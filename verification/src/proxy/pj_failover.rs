//! Sequential gateway dialing through the pjsip stack: the decisions of
//! the dial loop. The caller creates INVITEs and receives call events; each
//! observation is handed to these state machines.

use vstd::prelude::*;
use crate::proxy::failover::{
    nofailover_code, code_in_list, opt_view, FailoverResult, RouteLoop, RouteStep, WaitStep,
};
use crate::redis_state::types::{TrunkConfig, TrunkCredential};
use crate::sip_uri::user_part;
use crate::text::{append, chars_of, string_from_chars};

pub use crate::sip_uri::extract_user;

verus! {

/// Credentials handed to the pjsip stack for digest authentication.
#[derive(Debug, Clone, PartialEq)]
pub struct PjCredential {
    pub realm: String,
    pub username: String,
    pub password: String,
    pub scheme: String,
}

/// Builds the pjsip credential of a trunk credential: the same realm,
/// username and password, with the `digest` scheme.
pub fn build_pj_credential(cred: &TrunkCredential) -> (r: PjCredential)
    ensures
        r.realm@ == cred.realm@,
        r.username@ == cred.username@,
        r.password@ == cred.password@,
        r.scheme@ == "digest"@,
{
    PjCredential {
        realm: cred.realm.clone(),
        username: cred.username.clone(),
        password: cred.password.clone(),
        scheme: "digest".to_owned(),
    }
}

/// The credential used for every INVITE of a trunk: built from its first
/// credential, if it has any.
pub fn trunk_pj_credential(trunk: &TrunkConfig) -> (r: Option<PjCredential>)
    ensures
        match trunk.credentials {
            Some(creds) if creds@.len() > 0 => r matches Some(c) && c.realm@ == creds@[0].realm@
                && c.username@ == creds@[0].username@ && c.password@ == creds@[0].password@
                && c.scheme@ == "digest"@,
            _ => r is None,
        },
{
    match &trunk.credentials {
        Some(creds) => {
            if creds.len() > 0 {
                Some(build_pj_credential(&creds[0]))
            } else {
                None
            }
        },
        None => None,
    }
}

/// The target URI of an INVITE to a gateway: `sip:<callee user>@<gateway>`.
pub open spec fn pj_target(callee_uri: Seq<char>, gateway: Seq<char>) -> Seq<char> {
    "sip:"@ + user_part(callee_uri) + "@"@ + gateway
}

/// Builds the target URI of an INVITE to the gateway named `gateway`.
pub fn pj_target_uri(callee_uri: &str, gateway: &str) -> (r: String)
    ensures
        r@ == pj_target(callee_uri@, gateway@),
{
    let user = extract_user(callee_uri);
    let mut v = chars_of("sip:");
    append(&mut v, &chars_of(user.as_str()));
    append(&mut v, &chars_of("@"));
    append(&mut v, &chars_of(gateway));
    string_from_chars(&v)
}

/// A call event of the pjsip stack.
#[derive(Debug, Clone, PartialEq)]
pub enum PjCallEvent {
    Trying,
    Ringing,
    EarlyMedia { sdp: String },
    Confirmed { call_id: String, sdp: Option<String> },
    Terminated { code: u16, reason: String },
    Info,
    ReInvite,
}

/// What waiting on one attempt observed.
#[derive(Debug, Clone, PartialEq)]
pub enum PjDialEvent {
    /// The call was cancelled.
    Cancelled,
    /// The event channel closed.
    ChannelClosed,
    /// No event within the attempt's timeout.
    TimedOut,
    /// A call event.
    Event(PjCallEvent),
}

/// The result of one attempt, or `Continue` while it goes on.
#[derive(Debug, Clone, PartialEq)]
pub enum PjWaitStep {
    Continue,
    Connected { sdp: Option<String>, call_id: String },
    NoFailover { code: u16, reason: String },
    Failed { code: u16, reason: String },
}

/// Waiting on one attempt: the last early-media SDP seen.
#[derive(Debug, Clone, PartialEq)]
pub struct PjDialWait {
    pub early_media_sdp: Option<String>,
}

/// Result of a pjsip failover dial.
#[derive(Debug, Clone, PartialEq)]
pub enum PjFailoverResult {
    /// A gateway answered: its name, the answer SDP and the Call-ID.
    Connected { gateway_addr: String, sdp: Option<String>, call_id: String },
    /// A no-failover code was received.
    NoFailover { code: u16, reason: String },
    /// Every gateway was tried and failed.
    Exhausted { last_code: u16, last_reason: String },
    /// The trunk has no gateways.
    NoRoutes,
}

/// What the pjsip failover loop does next.
#[derive(Debug, Clone, PartialEq)]
pub enum PjRouteStep {
    Dial(usize),
    Done(PjFailoverResult),
}

/// A 2xx's answer SDP: its own, else the early-media SDP.
pub open spec fn pj_answer(sdp: Option<Seq<char>>, early: Option<Seq<char>>) -> Option<Seq<char>> {
    match sdp {
        Some(s) => Some(s),
        None => early,
    }
}

impl PjDialWait {
    /// No early media seen yet.
    pub fn new() -> (r: Self)
        ensures
            r.early_media_sdp is None,
    {
        PjDialWait { early_media_sdp: None }
    }

    /// Applies one observation of the attempt. `codes` are the trunk's
    /// no-failover codes.
    pub fn step(&mut self, event: PjDialEvent, codes: &Option<Vec<u16>>) -> (r: PjWaitStep)
        ensures
            match event {
                PjDialEvent::Cancelled => r matches PjWaitStep::Failed { code, reason } && code == 487
                    && reason@ == "Cancelled"@,
                PjDialEvent::ChannelClosed => r matches PjWaitStep::Failed { code, reason } && code
                    == 503 && reason@ == "Event channel closed"@,
                PjDialEvent::TimedOut => r matches PjWaitStep::Failed { code, reason } && code == 408
                    && reason@ == "Request Timeout"@,
                PjDialEvent::Event(PjCallEvent::EarlyMedia { sdp }) => r is Continue
                    && final(self).early_media_sdp == Some(sdp),
                PjDialEvent::Event(PjCallEvent::Confirmed { call_id, sdp }) => r matches PjWaitStep::Connected {
                    sdp: answer,
                    call_id: id,
                } && opt_view(answer) == pj_answer(opt_view(sdp), opt_view(old(self).early_media_sdp))
                    && id == call_id,
                PjDialEvent::Event(PjCallEvent::Terminated { code, reason }) => if nofailover_code(
                    *codes,
                    code,
                ) {
                    r == PjWaitStep::NoFailover { code, reason }
                } else {
                    r == PjWaitStep::Failed { code, reason }
                },
                _ => r is Continue && final(self).early_media_sdp == old(self).early_media_sdp,
            },
    {
        match event {
            PjDialEvent::Cancelled => PjWaitStep::Failed { code: 487, reason: "Cancelled".to_owned() },
            PjDialEvent::ChannelClosed => PjWaitStep::Failed {
                code: 503,
                reason: "Event channel closed".to_owned(),
            },
            PjDialEvent::TimedOut => PjWaitStep::Failed {
                code: 408,
                reason: "Request Timeout".to_owned(),
            },
            PjDialEvent::Event(ev) => match ev {
                PjCallEvent::EarlyMedia { sdp } => {
                    self.early_media_sdp = Some(sdp);
                    PjWaitStep::Continue
                },
                PjCallEvent::Confirmed { call_id, sdp } => {
                    let early = self.early_media_sdp.take();
                    let answer = match sdp {
                        Some(s) => Some(s),
                        None => early,
                    };
                    PjWaitStep::Connected { sdp: answer, call_id }
                },
                PjCallEvent::Terminated { code, reason } => {
                    if code_in_list(codes, code) {
                        PjWaitStep::NoFailover { code, reason }
                    } else {
                        PjWaitStep::Failed { code, reason }
                    }
                },
                _ => PjWaitStep::Continue,
            },
        }
    }
}

/// The pjsip counterpart of a failover result; a `Connected` of the plain
/// loop never reaches it.
fn from_route_step(step: RouteStep) -> (r: PjRouteStep)
    requires
        !(step matches RouteStep::Done(FailoverResult::Connected { .. })),
    ensures
        match step {
            RouteStep::Dial(i) => r == PjRouteStep::Dial(i),
            RouteStep::Done(FailoverResult::NoRoutes) => r == PjRouteStep::Done(PjFailoverResult::NoRoutes),
            RouteStep::Done(FailoverResult::NoFailover { code, reason }) => r == PjRouteStep::Done(
                PjFailoverResult::NoFailover { code, reason },
            ),
            RouteStep::Done(FailoverResult::Exhausted { last_code, last_reason }) => r
                == PjRouteStep::Done(PjFailoverResult::Exhausted { last_code, last_reason }),
            _ => true,
        },
{
    match step {
        RouteStep::Dial(i) => PjRouteStep::Dial(i),
        RouteStep::Done(FailoverResult::NoRoutes) => PjRouteStep::Done(PjFailoverResult::NoRoutes),
        RouteStep::Done(FailoverResult::NoFailover { code, reason }) => PjRouteStep::Done(
            PjFailoverResult::NoFailover { code, reason },
        ),
        RouteStep::Done(FailoverResult::Exhausted { last_code, last_reason }) => PjRouteStep::Done(
            PjFailoverResult::Exhausted { last_code, last_reason },
        ),
        RouteStep::Done(FailoverResult::Connected { .. }) => PjRouteStep::Done(PjFailoverResult::NoRoutes),
    }
}

/// The loop over `total` gateways and its first step: `NoRoutes` when there
/// are none, else dial the first.
pub fn pj_start(total: usize) -> (r: (RouteLoop, PjRouteStep))
    ensures
        r.0.current == 0,
        r.0.total == total,
        r.0.last_code == 503,
        r.0.last_reason@ == "Service Unavailable"@,
        total == 0 ==> r.1 == PjRouteStep::Done(PjFailoverResult::NoRoutes),
        total > 0 ==> r.1 == PjRouteStep::Dial(0),
{
    let (l, s) = RouteLoop::start(total);
    (l, from_route_step(s))
}

/// The INVITE to the current gateway could not be created: its error text
/// becomes the last reason (the last code stays) and the loop moves on.
pub fn pj_invite_failed(route: &mut RouteLoop, error: String) -> (r: PjRouteStep)
    requires
        old(route).current < old(route).total,
    ensures
        final(route).current == old(route).current + 1,
        final(route).total == old(route).total,
        final(route).last_code == old(route).last_code,
        final(route).last_reason@ == error@,
        final(route).current < final(route).total ==> r == PjRouteStep::Dial(final(route).current),
        final(route).current >= final(route).total ==> (r matches PjRouteStep::Done(
            PjFailoverResult::Exhausted { last_code, last_reason },
        ) && last_code == old(route).last_code && last_reason@ == error@),
{
    let s = route.setup_failed(error);
    from_route_step(s)
}

/// The attempt on the current gateway (named `gateway`) ended with the
/// final step `outcome`: an answer or a no-failover code ends the loop, a
/// failure is recorded and the loop moves on.
pub fn pj_attempt_ended(route: &mut RouteLoop, gateway: &str, outcome: PjWaitStep) -> (r: PjRouteStep)
    requires
        old(route).current < old(route).total,
        !(outcome is Continue),
    ensures
        match outcome {
            PjWaitStep::Connected { sdp, call_id } => r matches PjRouteStep::Done(
                PjFailoverResult::Connected { gateway_addr, sdp: s, call_id: id },
            ) && gateway_addr@ == gateway@ && s == sdp && id == call_id,
            PjWaitStep::NoFailover { code, reason } => r == PjRouteStep::Done(
                PjFailoverResult::NoFailover { code, reason },
            ),
            PjWaitStep::Failed { code, reason } => {
                &&& final(route).current == old(route).current + 1
                &&& final(route).total == old(route).total
                &&& final(route).last_code == code
                &&& final(route).last_reason == reason
                &&& final(route).current < final(route).total ==> r == PjRouteStep::Dial(
                    final(route).current,
                )
                &&& final(route).current >= final(route).total ==> (r matches PjRouteStep::Done(
                    PjFailoverResult::Exhausted { last_code, last_reason },
                ) && last_code == code && last_reason@ == reason@)
            },
            _ => true,
        },
{
    match outcome {
        PjWaitStep::Connected { sdp, call_id } => PjRouteStep::Done(
            PjFailoverResult::Connected { gateway_addr: gateway.to_owned(), sdp, call_id },
        ),
        PjWaitStep::NoFailover { code, reason } => PjRouteStep::Done(
            PjFailoverResult::NoFailover { code, reason },
        ),
        PjWaitStep::Failed { code, reason } => {
            let s = route.attempt_ended(gateway, WaitStep::Failed { code, reason });
            from_route_step(s)
        },
        PjWaitStep::Continue => PjRouteStep::Dial(route.current),
    }
}

} // verus!
