use active_call::proxy::failover::{FailoverResult, TerminationReason};
use active_call::proxy::session::{
    bridge_step, dsp_processor_plan, DialOutcomeAction, LegAction, LegEvent, SessionState,
};
use active_call::proxy::types::{DspConfig, ProxyCallContext, ProxyCallEvent, ProxyCallPhase};

#[test]
fn session_rings_then_bridges_with_dial_sdp() {
    let mut s = SessionState::new();
    assert_eq!(s.phase, ProxyCallPhase::Initializing);
    assert_eq!(s.start_dial(), ProxyCallEvent::PhaseChanged(ProxyCallPhase::Ringing));
    let (action, events) = s.dial_ended(FailoverResult::Connected {
        gateway_addr: "gw1".to_string(),
        sdp: Some("v=0".to_string()),
    });
    assert_eq!(action, DialOutcomeAction::Bridge { answer_sdp: "v=0".to_string() });
    assert_eq!(
        events,
        vec![
            ProxyCallEvent::PhaseChanged(ProxyCallPhase::Bridged),
            ProxyCallEvent::Answered { sdp: "v=0".to_string() }
        ]
    );
    assert_eq!(s.phase, ProxyCallPhase::Bridged);
    assert_eq!(s.answer_sdp, Some("v=0".to_string()));
}

#[test]
fn session_answer_falls_back_to_early_then_empty() {
    let mut s = SessionState::new();
    s.early_media_sdp = Some("early".to_string());
    let (action, _) = s.dial_ended(FailoverResult::Connected { gateway_addr: "gw".to_string(), sdp: None });
    assert_eq!(action, DialOutcomeAction::Bridge { answer_sdp: "early".to_string() });
    assert_eq!(s.early_media_sdp, None);
    let mut s = SessionState::new();
    let (action, _) = s.dial_ended(FailoverResult::Connected { gateway_addr: "gw".to_string(), sdp: None });
    assert_eq!(action, DialOutcomeAction::Bridge { answer_sdp: String::new() });
}

#[test]
fn session_failures_terminate() {
    let mut s = SessionState::new();
    let (action, events) = s.dial_ended(FailoverResult::NoRoutes);
    assert_eq!(action, DialOutcomeAction::Fail);
    assert_eq!(
        events,
        vec![
            ProxyCallEvent::PhaseChanged(ProxyCallPhase::Failed),
            ProxyCallEvent::Terminated { reason: "No routes".to_string(), code: 503 }
        ]
    );
    let mut s = SessionState::new();
    let (_, events) =
        s.dial_ended(FailoverResult::Exhausted { last_code: 486, last_reason: "Busy Here".to_string() });
    assert_eq!(events[1], ProxyCallEvent::Terminated { reason: "Busy Here".to_string(), code: 486 });
    let mut s = SessionState::new();
    let (_, events) = s.dial_ended(FailoverResult::NoFailover { code: 403, reason: "Forbidden".to_string() });
    assert_eq!(events[1], ProxyCallEvent::Terminated { reason: "Forbidden".to_string(), code: 403 });
    assert_eq!(s.phase, ProxyCallPhase::Failed);
}

#[test]
fn bridge_hangs_up_the_other_leg() {
    let mut s = SessionState::new();
    let (a, ev) = bridge_step(
        &mut s,
        LegEvent::CallerTerminated { reason: TerminationReason::UacBye, reason_text: "UacBye".to_string() },
    );
    assert_eq!(a, LegAction::HangUpCallee);
    assert_eq!(
        ev,
        vec![
            ProxyCallEvent::PhaseChanged(ProxyCallPhase::Ended),
            ProxyCallEvent::Terminated { reason: "UacBye".to_string(), code: 200 }
        ]
    );
    let (a, ev) = bridge_step(
        &mut s,
        LegEvent::CalleeTerminated { reason: TerminationReason::UasBusy, reason_text: "UasBusy".to_string() },
    );
    assert_eq!(a, LegAction::HangUpCaller);
    assert_eq!(ev[1], ProxyCallEvent::Terminated { reason: "UasBusy".to_string(), code: 486 });
    assert_eq!(bridge_step(&mut s, LegEvent::Cancelled), (LegAction::HangUpBoth, vec![]));
    assert_eq!(bridge_step(&mut s, LegEvent::CallerClosed), (LegAction::HangUpCallee, vec![]));
    assert_eq!(bridge_step(&mut s, LegEvent::CalleeClosed), (LegAction::HangUpCaller, vec![]));
    assert_eq!(bridge_step(&mut s, LegEvent::Other), (LegAction::Continue, vec![]));
}

#[test]
fn dsp_plan_for_defaults_and_fax() {
    let defaults = DspConfig {
        echo_cancellation: true,
        dtmf_detection: true,
        tone_detection: false,
        plc: true,
        fax_terminal: false,
    };
    assert_eq!(
        dsp_processor_plan(&defaults),
        vec![
            ("spandsp_echo", "caller"),
            ("spandsp_dtmf", "caller"),
            ("spandsp_plc", "caller"),
            ("spandsp_plc", "callee")
        ]
    );
    let fax = DspConfig { fax_terminal: true, echo_cancellation: false, dtmf_detection: false, ..defaults };
    assert_eq!(
        dsp_processor_plan(&fax),
        vec![("spandsp_plc", "caller"), ("spandsp_plc", "callee"), ("spandsp_fax", "caller")]
    );
    assert!(dsp_processor_plan(&DspConfig::default()).is_empty());
}

fn make_context() -> ProxyCallContext {
    ProxyCallContext::new(
        "test-session-001".to_string(),
        "sip:caller@example.com".to_string(),
        "sip:callee@example.com".to_string(),
        "test-trunk".to_string(),
    )
}

#[test]
fn test_proxy_call_context_defaults() {
    let ctx = make_context();
    assert_eq!(ctx.trunk_name, "test-trunk");
    assert!(ctx.did_number.is_none());
    assert!(ctx.routing_table.is_none());
    assert_eq!(ctx.max_forwards, 70);
}

#[test]
fn proxy_call_context_records_its_start() {
    let ctx = ProxyCallContext::new_at("s".to_string(), "a".to_string(), "b".to_string(), "t".to_string(), 1234);
    assert_eq!(ctx.start_time, 1234);
    assert_eq!(ctx.session_id, "s");
    assert!(!ctx.dsp.echo_cancellation && !ctx.dsp.plc && !ctx.dsp.fax_terminal);
}
