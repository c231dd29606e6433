use active_call::proxy::failover::{
    code_in_list, is_nofailover, outbound_request_uri, terminated_reason_to_code, DialEvent,
    DialWait, FailoverResult, RouteLoop, RouteStep, TerminationReason, WaitStep,
};
use active_call::redis_state::types::{GatewayRef, TrunkConfig};

fn make_trunk(nofailover: Option<Vec<u16>>, gateways: Vec<&str>) -> TrunkConfig {
    TrunkConfig {
        name: "test-trunk".to_string(),
        direction: "outbound".to_string(),
        gateways: gateways
            .into_iter()
            .map(|n| GatewayRef { name: n.to_string(), weight: None })
            .collect(),
        distribution: "weight_based".to_string(),
        codecs: None,
        acl: None,
        credentials: None,
        media: None,
        origination_uris: None,
        translation_classes: None,
        manipulation_classes: None,
        nofailover_sip_codes: nofailover,
    }
}

#[test]
fn test_is_nofailover_code_in_list() {
    let trunk = make_trunk(Some(vec![403, 486]), vec![]);
    assert!(is_nofailover(403, &trunk));
    assert!(is_nofailover(486, &trunk));
}

#[test]
fn test_is_nofailover_code_not_in_list() {
    let trunk = make_trunk(Some(vec![403]), vec![]);
    assert!(!is_nofailover(503, &trunk));
}

#[test]
fn test_is_nofailover_none_config() {
    let trunk = make_trunk(None, vec![]);
    assert!(!is_nofailover(403, &trunk));
    assert!(!is_nofailover(503, &trunk));
}

#[test]
fn test_is_nofailover_empty_list() {
    let trunk = make_trunk(Some(vec![]), vec![]);
    assert!(!is_nofailover(403, &trunk));
}

#[test]
fn test_terminated_reason_codes() {
    assert_eq!(terminated_reason_to_code(&TerminationReason::Timeout), 408);
    assert_eq!(terminated_reason_to_code(&TerminationReason::UacCancel), 487);
    assert_eq!(terminated_reason_to_code(&TerminationReason::UacBusy), 486);
    assert_eq!(terminated_reason_to_code(&TerminationReason::UasDecline), 603);
    assert_eq!(terminated_reason_to_code(&TerminationReason::ProxyError(403)), 403);
    assert_eq!(terminated_reason_to_code(&TerminationReason::UacOther(503)), 503);
}

#[test]
fn terminated_reason_codes_of_byes_and_auth() {
    assert_eq!(terminated_reason_to_code(&TerminationReason::UacBye), 200);
    assert_eq!(terminated_reason_to_code(&TerminationReason::UasBye), 200);
    assert_eq!(terminated_reason_to_code(&TerminationReason::UasBusy), 486);
    assert_eq!(terminated_reason_to_code(&TerminationReason::ProxyAuthRequired), 407);
    assert_eq!(terminated_reason_to_code(&TerminationReason::UasOther(480)), 480);
}

#[test]
fn test_no_routes_empty_gateways() {
    let trunk = make_trunk(None, vec![]);
    assert!(trunk.gateways.is_empty());
    let (_, step) = RouteLoop::start(trunk.gateways.len());
    assert_eq!(step, RouteStep::Done(FailoverResult::NoRoutes));
}

#[test]
fn test_nofailover_stops_loop() {
    let trunk = make_trunk(Some(vec![403]), vec!["gw1", "gw2"]);
    let code = 403u16;
    assert!(is_nofailover(code, &trunk), "403 should trigger nofailover and stop the loop");
    assert!(!is_nofailover(503, &trunk), "503 should allow failover to next gateway");

    // Through the state machines: a 403 on the first gateway ends the loop.
    let (mut route, step) = RouteLoop::start(trunk.gateways.len());
    assert_eq!(step, RouteStep::Dial(0));
    let mut wait = DialWait::new();
    let outcome = wait.step(
        DialEvent::Terminated { reason: TerminationReason::ProxyError(403), reason_text: "Forbidden".to_string() },
        &trunk.nofailover_sip_codes,
    );
    assert_eq!(outcome, WaitStep::NoFailover { code: 403, reason: "Forbidden".to_string() });
    let next = route.attempt_ended("gw1", outcome);
    assert_eq!(
        next,
        RouteStep::Done(FailoverResult::NoFailover { code: 403, reason: "Forbidden".to_string() })
    );
}

#[test]
fn failover_test_early_media_sdp_fallback() {
    let early_sdp = "v=0\r\no=- 1 1 IN IP4 1.1.1.1\r\n".to_string();
    let confirmed_body: &[u8] = b"";

    let mut wait = DialWait::new();
    let relay = wait.step(DialEvent::Early { body: early_sdp.as_bytes().to_vec() }, &None);
    assert_eq!(relay, WaitStep::RelayEarlyMedia { sdp: early_sdp.clone() });
    let step = wait.step(DialEvent::Confirmed { body: confirmed_body.to_vec() }, &None);
    let sdp = match step {
        WaitStep::Connected { sdp } => sdp,
        other => panic!("expected Connected, got {other:?}"),
    };
    assert_eq!(
        sdp.as_deref(),
        Some(early_sdp.as_str()),
        "should fall back to early media SDP when 200 OK body is empty"
    );
}

#[test]
fn test_confirmed_sdp_used_when_present() {
    let early_sdp = "v=0\r\no=- 1 1 IN IP4 1.1.1.1\r\n".to_string();
    let confirmed_body = b"v=0\r\no=- 2 2 IN IP4 2.2.2.2\r\n";

    let mut wait = DialWait::new();
    wait.step(DialEvent::Early { body: early_sdp.as_bytes().to_vec() }, &None);
    let step = wait.step(DialEvent::Confirmed { body: confirmed_body.to_vec() }, &None);
    let sdp = match step {
        WaitStep::Connected { sdp } => sdp,
        other => panic!("expected Connected, got {other:?}"),
    };
    assert_eq!(
        sdp.as_deref(),
        Some("v=0\r\no=- 2 2 IN IP4 2.2.2.2\r\n"),
        "should use 200 OK SDP when body is non-empty"
    );
}

#[test]
fn wait_step_fixed_failures() {
    let mut wait = DialWait::new();
    assert_eq!(
        wait.step(DialEvent::Cancelled, &None),
        WaitStep::Failed { code: 487, reason: "Cancelled".to_string() }
    );
    assert_eq!(
        wait.step(DialEvent::ChannelClosed, &None),
        WaitStep::Failed { code: 503, reason: "Dialog channel closed".to_string() }
    );
    assert_eq!(
        wait.step(DialEvent::TimedOut, &None),
        WaitStep::Failed { code: 408, reason: "Request Timeout".to_string() }
    );
    assert_eq!(wait.step(DialEvent::Progress, &None), WaitStep::Continue);
    assert_eq!(wait.step(DialEvent::Early { body: vec![] }, &None), WaitStep::RelayRinging);
}

#[test]
fn confirmed_without_any_sdp_has_none() {
    let mut wait = DialWait::new();
    assert_eq!(
        wait.step(DialEvent::Confirmed { body: vec![] }, &None),
        WaitStep::Connected { sdp: None }
    );
}

#[test]
fn route_loop_exhausts_with_last_failure() {
    let (mut route, step) = RouteLoop::start(2);
    assert_eq!(step, RouteStep::Dial(0));
    let s1 = route.attempt_ended("gw1", WaitStep::Failed { code: 486, reason: "Busy Here".to_string() });
    assert_eq!(s1, RouteStep::Dial(1));
    let s2 = route.setup_failed("gateway 'gw2' not configured".to_string());
    assert_eq!(
        s2,
        RouteStep::Done(FailoverResult::Exhausted {
            last_code: 486,
            last_reason: "gateway 'gw2' not configured".to_string()
        })
    );
}

#[test]
fn route_loop_connected_names_gateway() {
    let (mut route, _) = RouteLoop::start(3);
    let s = route.attempt_ended("gw1", WaitStep::Connected { sdp: Some("v=0".to_string()) });
    assert_eq!(
        s,
        RouteStep::Done(FailoverResult::Connected {
            gateway_addr: "gw1".to_string(),
            sdp: Some("v=0".to_string())
        })
    );
}

#[test]
fn route_loop_skip_keeps_default_failure() {
    let (mut route, _) = RouteLoop::start(1);
    assert_eq!(
        route.skip(),
        RouteStep::Done(FailoverResult::Exhausted {
            last_code: 503,
            last_reason: "Service Unavailable".to_string()
        })
    );
}

#[test]
fn outbound_request_uri_uses_callee_user() {
    assert_eq!(
        outbound_request_uri("sip:+14155551234@carrier.com", "10.0.0.1:5060"),
        "sip:+14155551234@10.0.0.1:5060"
    );
    assert!(code_in_list(&Some(vec![1, 2, 3]), 3));
    assert!(!code_in_list(&Some(vec![1, 2, 3]), 4));
}
