//! Decisions of a proxy call session: what the end of the failover dial
//! leads to, the bridge of the two legs, the DSP processors to attach, and
//! the media direction of an SDP body (hold detection).

use vstd::prelude::*;
use crate::proxy::failover::{termination_code, terminated_reason_to_code, FailoverResult, TerminationReason};
use crate::proxy::types::{DspConfig, ProxyCallEvent, ProxyCallPhase};
use crate::text::{chars_of, is_text, lines, lines_of, trim, trimmed, views};

verus! {

/// The media direction attribute of an SDP body.
#[derive(Debug, Clone, Copy, PartialEq, Eq, Structural)]
pub enum SdpDirection {
    /// `a=sendrecv`: media both ways.
    SendRecv,
    /// `a=sendonly`: hold from the sender.
    SendOnly,
    /// `a=recvonly`: hold from the receiver.
    RecvOnly,
    /// `a=inactive`: no media either way.
    Inactive,
}

/// The direction a trimmed line sets, if it is a direction attribute.
pub open spec fn line_direction(line: Seq<char>) -> Option<SdpDirection> {
    if line == "a=sendonly"@ {
        Some(SdpDirection::SendOnly)
    } else if line == "a=recvonly"@ {
        Some(SdpDirection::RecvOnly)
    } else if line == "a=inactive"@ {
        Some(SdpDirection::Inactive)
    } else if line == "a=sendrecv"@ {
        Some(SdpDirection::SendRecv)
    } else {
        None
    }
}

/// The direction after the first `n` lines: the last direction attribute
/// among them, `SendRecv` when there is none.
pub open spec fn direction_after(ls: Seq<Seq<char>>, n: int) -> SdpDirection
    decreases n,
{
    if n <= 0 || n > ls.len() {
        SdpDirection::SendRecv
    } else {
        match line_direction(trim(ls[n - 1])) {
            Some(d) => d,
            None => direction_after(ls, n - 1),
        }
    }
}

/// The media direction of an SDP body: the last of the lines
/// `a=sendonly`, `a=recvonly`, `a=inactive`, `a=sendrecv` (trimmed) wins;
/// `SendRecv` when none appears.
pub fn parse_sdp_direction(sdp: &str) -> (r: SdpDirection)
    ensures
        r == direction_after(lines_of(sdp@), lines_of(sdp@).len() as int),
{
    let text = chars_of(sdp);
    let ls = lines(&text);
    let ghost lv = views(ls@);
    let mut result = SdpDirection::SendRecv;
    let mut i: usize = 0;
    while i < ls.len()
        invariant
            i <= ls@.len(),
            lv == views(ls@),
            lv.len() == ls@.len(),
            lv == lines_of(sdp@),
            direction_after(lv, i as int) == result,
        decreases ls@.len() - i,
    {
        let t = trimmed(&ls[i]);
        assert(t@ == trim(lv[i as int]));
        if is_text(&t, "a=sendonly") {
            result = SdpDirection::SendOnly;
        } else if is_text(&t, "a=recvonly") {
            result = SdpDirection::RecvOnly;
        } else if is_text(&t, "a=inactive") {
            result = SdpDirection::Inactive;
        } else if is_text(&t, "a=sendrecv") {
            result = SdpDirection::SendRecv;
        }
        i = i + 1;
    }
    result
}

/// A direction that signals hold: `sendonly`, `recvonly` or `inactive`.
pub open spec fn hold_direction(dir: SdpDirection) -> bool {
    dir != SdpDirection::SendRecv
}

/// Whether `dir` signals hold.
pub fn is_hold_direction(dir: SdpDirection) -> (r: bool)
    ensures
        r == hold_direction(dir),
{
    match dir {
        SdpDirection::SendRecv => false,
        _ => true,
    }
}


/// What a proxy session does when the failover dial ended.
#[derive(Debug, Clone, PartialEq)]
pub enum DialOutcomeAction {
    /// Attach the DSP processors, answer with this SDP, and bridge.
    Bridge { answer_sdp: String },
    /// The call failed.
    Fail,
}

/// The state of a proxy session: its phase and the SDPs it holds.
#[derive(Debug, Clone, PartialEq)]
pub struct SessionState {
    pub phase: ProxyCallPhase,
    pub early_media_sdp: Option<String>,
    pub answer_sdp: Option<String>,
}

/// The view of optional text.
pub open spec fn opt_text(o: Option<String>) -> Option<Seq<char>> {
    match o {
        Some(s) => Some(s@),
        None => None,
    }
}

impl SessionState {
    /// A session being set up.
    pub fn new() -> (r: Self)
        ensures
            r.phase == ProxyCallPhase::Initializing,
            r.early_media_sdp is None,
            r.answer_sdp is None,
    {
        SessionState { phase: ProxyCallPhase::Initializing, early_media_sdp: None, answer_sdp: None }
    }

    /// The dial starts: the session rings.
    pub fn start_dial(&mut self) -> (r: ProxyCallEvent)
        ensures
            final(self).phase == ProxyCallPhase::Ringing,
            final(self).early_media_sdp == old(self).early_media_sdp,
            final(self).answer_sdp == old(self).answer_sdp,
            r == ProxyCallEvent::PhaseChanged(ProxyCallPhase::Ringing),
    {
        self.phase = ProxyCallPhase::Ringing;
        ProxyCallEvent::PhaseChanged(ProxyCallPhase::Ringing)
    }

    /// The failover dial ended with `result`: a connection bridges with the
    /// answer SDP (the dial's, else the early-media SDP, else empty); any
    /// other result fails the call with its status and reason (`No routes`,
    /// 503, when there were none). Returns the events to emit, in order.
    pub fn dial_ended(&mut self, result: FailoverResult) -> (r: (DialOutcomeAction, Vec<ProxyCallEvent>))
        ensures
            match result {
                FailoverResult::Connected { sdp, .. } => {
                    let answer = match opt_text(sdp) {
                        Some(s) => s,
                        None => match opt_text(old(self).early_media_sdp) {
                            Some(e) => e,
                            None => Seq::<char>::empty(),
                        },
                    };
                    &&& r.0 matches DialOutcomeAction::Bridge { answer_sdp } && answer_sdp@ == answer
                    &&& final(self).phase == ProxyCallPhase::Bridged
                    &&& opt_text(final(self).answer_sdp) == Some(answer)
                    &&& sdp is None ==> final(self).early_media_sdp is None
                    &&& sdp is Some ==> final(self).early_media_sdp == old(self).early_media_sdp
                    &&& r.1@.len() == 2
                    &&& r.1@[0] == ProxyCallEvent::PhaseChanged(ProxyCallPhase::Bridged)
                    &&& r.1@[1] matches ProxyCallEvent::Answered { sdp: a } && a@ == answer
                },
                FailoverResult::NoFailover { code, reason } => {
                    &&& r.0 == DialOutcomeAction::Fail
                    &&& *final(self) == SessionState { phase: ProxyCallPhase::Failed, ..*old(self) }
                    &&& r.1@ == seq![
                        ProxyCallEvent::PhaseChanged(ProxyCallPhase::Failed),
                        ProxyCallEvent::Terminated { reason, code },
                    ]
                },
                FailoverResult::Exhausted { last_code, last_reason } => {
                    &&& r.0 == DialOutcomeAction::Fail
                    &&& *final(self) == SessionState { phase: ProxyCallPhase::Failed, ..*old(self) }
                    &&& r.1@ == seq![
                        ProxyCallEvent::PhaseChanged(ProxyCallPhase::Failed),
                        ProxyCallEvent::Terminated { reason: last_reason, code: last_code },
                    ]
                },
                FailoverResult::NoRoutes => {
                    &&& r.0 == DialOutcomeAction::Fail
                    &&& *final(self) == SessionState { phase: ProxyCallPhase::Failed, ..*old(self) }
                    &&& r.1@.len() == 2
                    &&& r.1@[0] == ProxyCallEvent::PhaseChanged(ProxyCallPhase::Failed)
                    &&& r.1@[1] matches ProxyCallEvent::Terminated { reason, code } && code == 503
                        && reason@ == "No routes"@
                },
            },
    {
        let mut events: Vec<ProxyCallEvent> = Vec::new();
        match result {
            FailoverResult::Connected { sdp, .. } => {
                let answer = match sdp {
                    Some(s) => s,
                    None => match self.early_media_sdp.take() {
                        Some(e) => e,
                        None => String::new(),
                    },
                };
                self.answer_sdp = Some(answer.clone());
                self.phase = ProxyCallPhase::Bridged;
                events.push(ProxyCallEvent::PhaseChanged(ProxyCallPhase::Bridged));
                events.push(ProxyCallEvent::Answered { sdp: answer.clone() });
                (DialOutcomeAction::Bridge { answer_sdp: answer }, events)
            },
            FailoverResult::NoFailover { code, reason } => {
                self.phase = ProxyCallPhase::Failed;
                events.push(ProxyCallEvent::PhaseChanged(ProxyCallPhase::Failed));
                events.push(ProxyCallEvent::Terminated { reason, code });
                (DialOutcomeAction::Fail, events)
            },
            FailoverResult::Exhausted { last_code, last_reason } => {
                self.phase = ProxyCallPhase::Failed;
                events.push(ProxyCallEvent::PhaseChanged(ProxyCallPhase::Failed));
                events.push(ProxyCallEvent::Terminated { reason: last_reason, code: last_code });
                (DialOutcomeAction::Fail, events)
            },
            FailoverResult::NoRoutes => {
                self.phase = ProxyCallPhase::Failed;
                events.push(ProxyCallEvent::PhaseChanged(ProxyCallPhase::Failed));
                events.push(ProxyCallEvent::Terminated { reason: "No routes".to_owned(), code: 503 });
                (DialOutcomeAction::Fail, events)
            },
        }
    }
}

/// What the bridge of a proxy session observed on its legs.
#[derive(Debug, Clone, PartialEq)]
pub enum LegEvent {
    /// The session was cancelled.
    Cancelled,
    /// The caller's dialog terminated, with the reason and its rendering.
    CallerTerminated { reason: TerminationReason, reason_text: String },
    /// The caller's dialog channel closed.
    CallerClosed,
    /// The callee's dialog terminated, with the reason and its rendering.
    CalleeTerminated { reason: TerminationReason, reason_text: String },
    /// The callee's dialog channel closed.
    CalleeClosed,
    /// Another dialog state on either leg (re-INVITE, INFO, ...).
    Other,
}

/// What the bridge does next.
#[derive(Debug, Clone, PartialEq)]
pub enum LegAction {
    /// Keep bridging.
    Continue,
    /// Hang up both legs and stop.
    HangUpBoth,
    /// Hang up the callee and stop.
    HangUpCallee,
    /// Hang up the caller and stop.
    HangUpCaller,
}

/// Decides on one observation of the bridge; a termination ends the call
/// (phase `Ended`) and is reported with its status code.
pub fn bridge_step(state: &mut SessionState, event: LegEvent) -> (r: (LegAction, Vec<ProxyCallEvent>))
    ensures
        match event {
            LegEvent::Cancelled => r.0 == LegAction::HangUpBoth && r.1@.len() == 0 && *final(state)
                == *old(state),
            LegEvent::CallerTerminated { reason, reason_text } => {
                &&& r.0 == LegAction::HangUpCallee
                &&& final(state).phase == ProxyCallPhase::Ended
                &&& r.1@ == seq![
                    ProxyCallEvent::PhaseChanged(ProxyCallPhase::Ended),
                    ProxyCallEvent::Terminated { reason: reason_text, code: termination_code(reason) },
                ]
            },
            LegEvent::CalleeTerminated { reason, reason_text } => {
                &&& r.0 == LegAction::HangUpCaller
                &&& final(state).phase == ProxyCallPhase::Ended
                &&& r.1@ == seq![
                    ProxyCallEvent::PhaseChanged(ProxyCallPhase::Ended),
                    ProxyCallEvent::Terminated { reason: reason_text, code: termination_code(reason) },
                ]
            },
            LegEvent::CallerClosed => r.0 == LegAction::HangUpCallee && r.1@.len() == 0
                && *final(state) == *old(state),
            LegEvent::CalleeClosed => r.0 == LegAction::HangUpCaller && r.1@.len() == 0
                && *final(state) == *old(state),
            LegEvent::Other => r.0 == LegAction::Continue && r.1@.len() == 0 && *final(state)
                == *old(state),
        },
        final(state).early_media_sdp == old(state).early_media_sdp,
        final(state).answer_sdp == old(state).answer_sdp,
{
    let mut events: Vec<ProxyCallEvent> = Vec::new();
    match event {
        LegEvent::Cancelled => (LegAction::HangUpBoth, events),
        LegEvent::CallerTerminated { reason, reason_text } => {
            let code = terminated_reason_to_code(&reason);
            state.phase = ProxyCallPhase::Ended;
            events.push(ProxyCallEvent::PhaseChanged(ProxyCallPhase::Ended));
            events.push(ProxyCallEvent::Terminated { reason: reason_text, code });
            (LegAction::HangUpCallee, events)
        },
        LegEvent::CalleeTerminated { reason, reason_text } => {
            let code = terminated_reason_to_code(&reason);
            state.phase = ProxyCallPhase::Ended;
            events.push(ProxyCallEvent::PhaseChanged(ProxyCallPhase::Ended));
            events.push(ProxyCallEvent::Terminated { reason: reason_text, code });
            (LegAction::HangUpCaller, events)
        },
        LegEvent::CallerClosed => (LegAction::HangUpCallee, events),
        LegEvent::CalleeClosed => (LegAction::HangUpCaller, events),
        LegEvent::Other => (LegAction::Continue, events),
    }
}

/// The DSP processors a call attaches, in order, with the leg each goes
/// on: echo cancellation and DTMF detection on the caller, tone detection
/// on the callee, PLC on both, the fax terminal on the caller.
pub open spec fn dsp_plan(dsp: DspConfig) -> Seq<(Seq<char>, Seq<char>)> {
    (if dsp.echo_cancellation {
        seq![("spandsp_echo"@, "caller"@)]
    } else {
        Seq::empty()
    }) + (if dsp.dtmf_detection {
        seq![("spandsp_dtmf"@, "caller"@)]
    } else {
        Seq::empty()
    }) + (if dsp.tone_detection {
        seq![("spandsp_tone"@, "callee"@)]
    } else {
        Seq::empty()
    }) + (if dsp.plc {
        seq![("spandsp_plc"@, "caller"@), ("spandsp_plc"@, "callee"@)]
    } else {
        Seq::empty()
    }) + (if dsp.fax_terminal {
        seq![("spandsp_fax"@, "caller"@)]
    } else {
        Seq::empty()
    })
}

/// The processor names and legs of a pair list.
pub open spec fn plan_view(v: Seq<(&str, &str)>) -> Seq<(Seq<char>, Seq<char>)> {
    v.map_values(|p: (&str, &str)| (p.0@, p.1@))
}

/// Lists the DSP processors to create for a call.
pub fn dsp_processor_plan(dsp: &DspConfig) -> (r: Vec<(&'static str, &'static str)>)
    ensures
        plan_view(r@) == dsp_plan(*dsp),
{
    let mut r: Vec<(&'static str, &'static str)> = Vec::new();
    if dsp.echo_cancellation {
        r.push(("spandsp_echo", "caller"));
    }
    let ghost a = r@;
    if dsp.dtmf_detection {
        r.push(("spandsp_dtmf", "caller"));
    }
    let ghost b = r@;
    if dsp.tone_detection {
        r.push(("spandsp_tone", "callee"));
    }
    let ghost c = r@;
    if dsp.plc {
        r.push(("spandsp_plc", "caller"));
        r.push(("spandsp_plc", "callee"));
    }
    let ghost d = r@;
    if dsp.fax_terminal {
        r.push(("spandsp_fax", "caller"));
    }
    assert(plan_view(r@) =~= dsp_plan(*dsp));
    r
}

} // verus!
