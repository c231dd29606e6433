use active_call::proxy::dispatch::{
    capacity_rejection, cdr_legs, dispatch_trunk, final_uri, offered_sdp, reinvite_answer,
    session_status, trunk_not_found, BridgeAction, BridgeEvent, CapacityCheck, CdrStatus,
    PjBridge, ReinviteReply, RouteOutcome, TimingCollector,
};
use active_call::proxy::types::{ProxyCallEvent, ProxyCallPhase};
use active_call::redis_state::types::{GatewayRef, MediaConfig, TrunkConfig};

fn trunk(gateways: Vec<&str>, codecs: Option<Vec<String>>) -> TrunkConfig {
    TrunkConfig {
        name: "trunk-out".to_string(),
        direction: "outbound".to_string(),
        gateways: gateways.into_iter().map(|n| GatewayRef { name: n.to_string(), weight: None }).collect(),
        distribution: "weight_based".to_string(),
        codecs,
        acl: None,
        credentials: None,
        media: None,
        origination_uris: None,
        translation_classes: None,
        manipulation_classes: None,
        nofailover_sip_codes: None,
    }
}

#[test]
fn trunk_choice_prefers_resolved_route() {
    assert_eq!(dispatch_trunk("did-trunk", RouteOutcome::Resolved("routed".to_string())), "routed");
    assert_eq!(dispatch_trunk("did-trunk", RouteOutcome::NoRoute), "did-trunk");
    assert_eq!(dispatch_trunk("did-trunk", RouteOutcome::Failed), "did-trunk");
    assert_eq!(dispatch_trunk("did-trunk", RouteOutcome::NoTable), "did-trunk");
}

#[test]
fn capacity_rejection_texts() {
    assert_eq!(capacity_rejection("t1", &CapacityCheck::Allowed), None);
    assert_eq!(
        capacity_rejection("t1", &CapacityCheck::CpsExceeded { current: 12, limit: 10 }),
        Some("CPS limit exceeded for trunk 't1': 12/10".to_string())
    );
    assert_eq!(
        capacity_rejection("t1", &CapacityCheck::ConcurrentExceeded { current: 0, limit: 100 }),
        Some("concurrent limit exceeded for trunk 't1': 0/100".to_string())
    );
    assert_eq!(
        capacity_rejection("t1", &CapacityCheck::TrunkBlocked { reason: "asr".to_string() }),
        Some("trunk 't1' is temporarily blocked: asr".to_string())
    );
    assert_eq!(trunk_not_found("x"), "trunk 'x' not found");
}

#[test]
fn offered_sdp_filters_or_rejects() {
    let sdp = "v=0\r\nm=audio 4000 RTP/AVP 0 8 101\r\na=rtpmap:0 PCMU/8000\r\na=rtpmap:8 PCMA/8000\r\na=rtpmap:101 telephone-event/8000\r\n".to_string();
    let unchanged = offered_sdp(&None, &None, sdp.clone()).unwrap();
    assert_eq!(unchanged, sdp);
    let filtered = offered_sdp(&None, &Some(vec!["PCMA".to_string()]), sdp.clone()).unwrap();
    assert!(filtered.contains("m=audio 4000 RTP/AVP 8 101"));
    assert!(!filtered.contains("PCMU"));
    let err = offered_sdp(&None, &Some(vec!["G729".to_string()]), sdp).unwrap_err();
    assert!(err.starts_with("SDP codec filter: "), "{err}");
    let m = Some(MediaConfig { codecs: vec!["PCMU".to_string()], dtmf_mode: "rfc2833".to_string(), srtp: None, media_mode: None });
    let only_pcmu = offered_sdp(&m, &Some(vec!["PCMA".to_string()]), "v=0\r\nm=audio 4000 RTP/AVP 0 8\r\n".to_string()).unwrap();
    assert!(only_pcmu.contains("RTP/AVP 0"));
}

#[test]
fn final_uris_after_translation() {
    assert_eq!(final_uri("sip:alice@example.com", "alice"), "sip:alice@example.com");
    assert_eq!(final_uri("sip:alice@example.com", "+4420"), "sip:+4420@example.com");
    assert_eq!(final_uri("sips:bob@h", "carol"), "sips:carol@h");
}

#[test]
fn timing_collector_keeps_first_times_and_last_status() {
    let mut c = TimingCollector::new();
    assert!(!c.on_event(&ProxyCallEvent::PhaseChanged(ProxyCallPhase::Ringing), 100));
    assert!(!c.on_event(&ProxyCallEvent::PhaseChanged(ProxyCallPhase::EarlyMedia), 150));
    assert!(c.on_event(&ProxyCallEvent::Answered { sdp: "v=0".to_string() }, 200));
    assert!(c.on_event(&ProxyCallEvent::Answered { sdp: "v=0".to_string() }, 250));
    assert!(!c.on_event(&ProxyCallEvent::Terminated { reason: "USER_BUSY".to_string(), code: 486 }, 300));
    assert_eq!(c.ring_time, Some(100));
    assert_eq!(c.answer_time, Some(200));
    assert_eq!(c.status, CdrStatus::Busy);
    assert_eq!(session_status(true, Some(c.status)), CdrStatus::Busy);
    assert_eq!(session_status(false, Some(CdrStatus::Completed)), CdrStatus::Failed);
    assert_eq!(session_status(true, None), CdrStatus::Failed);
}

#[test]
fn bridge_invite_done_before_and_after_ack() {
    let mut b = PjBridge::new();
    assert_eq!(b.on_event(BridgeEvent::InviteDone), BridgeAction::ByeAndStop);
    let mut b = PjBridge::new();
    assert_eq!(b.on_event(BridgeEvent::CallerConfirmed), BridgeAction::Continue);
    assert_eq!(b.on_event(BridgeEvent::InviteDone), BridgeAction::Continue);
    assert_eq!(b.on_event(BridgeEvent::GatewayTerminated), BridgeAction::Stop);
    assert_eq!(b.on_event(BridgeEvent::CallerTerminated), BridgeAction::ByeAndStop);
    assert_eq!(b.on_event(BridgeEvent::Cancelled), BridgeAction::ByeAndStop);
    assert_eq!(b.on_event(BridgeEvent::GatewayClosed), BridgeAction::Stop);
    assert_eq!(b.on_event(BridgeEvent::GatewayOther), BridgeAction::Continue);
}

#[test]
fn bridge_relays_info_both_ways() {
    let mut b = PjBridge::new();
    assert_eq!(
        b.on_event(BridgeEvent::GatewayInfo { content_type: String::new(), body: String::new() }),
        BridgeAction::InfoToCaller { content_type: None, body: None }
    );
    assert_eq!(
        b.on_event(BridgeEvent::GatewayInfo {
            content_type: "application/dtmf-relay".to_string(),
            body: "Signal=5".to_string()
        }),
        BridgeAction::InfoToCaller {
            content_type: Some("application/dtmf-relay".to_string()),
            body: Some(b"Signal=5".to_vec())
        }
    );
    assert_eq!(
        b.on_event(BridgeEvent::CallerInfo { content_type: None, body: b"Signal=1".to_vec() }),
        BridgeAction::InfoToGateway { content_type: String::new(), body: "Signal=1".to_string() }
    );
    assert_eq!(
        b.on_event(BridgeEvent::GatewayReInvite { sdp: "v=0".to_string() }),
        BridgeAction::RelayReInvite { sdp: "v=0".to_string() }
    );
}

#[test]
fn reinvite_answers() {
    assert_eq!(
        reinvite_answer(ReinviteReply::Answered { status: 200, body: b"v=0".to_vec() }),
        (200, Some("v=0".to_string()))
    );
    assert_eq!(reinvite_answer(ReinviteReply::Answered { status: 488, body: vec![] }), (488, None));
    assert_eq!(reinvite_answer(ReinviteReply::Answered { status: 200, body: vec![0xff, 0xfe] }), (200, None));
    assert_eq!(reinvite_answer(ReinviteReply::NotConfirmed), (200, None));
    assert_eq!(reinvite_answer(ReinviteReply::Failed), (200, None));
}

#[test]
fn cdr_legs_for_completed_and_failed_calls() {
    let t = trunk(vec!["gw-1", "gw-2"], None);
    let (inb, out) = cdr_legs("did-trunk", &t, "sip:alice@a.com", "sip:+1555@b.com", CdrStatus::Completed);
    assert_eq!(inb.trunk, "did-trunk");
    assert_eq!(inb.gateway, None);
    assert_eq!(inb.caller, "alice");
    assert_eq!(inb.callee, "+1555");
    assert_eq!(inb.transport, "udp");
    assert_eq!(inb.sip_status, 200);
    assert_eq!(out.trunk, "trunk-out");
    assert_eq!(out.gateway, Some("gw-1".to_string()));
    let (inb, out) = cdr_legs("did-trunk", &trunk(vec![], None), "a", "b", CdrStatus::Busy);
    assert_eq!(inb.sip_status, 0);
    assert_eq!(out.gateway, None);
}
