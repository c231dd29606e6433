use active_call::proxy::pj_failover::extract_user;

#[test]
fn test_extract_user_full_sip_uri() {
    assert_eq!(extract_user("sip:+14155551234@carrier.com"), "+14155551234");
}

#[test]
fn test_extract_user_sips_uri() {
    assert_eq!(extract_user("sips:alice@example.com"), "alice");
}

#[test]
fn test_extract_user_no_scheme() {
    assert_eq!(extract_user("+14155551234@carrier.com"), "+14155551234");
}

#[test]
fn test_extract_user_no_at() {
    assert_eq!(extract_user("+14155551234"), "+14155551234");
}

#[test]
fn test_extract_user_bare_sip_prefix() {
    assert_eq!(extract_user("sip:bob"), "bob");
}

use active_call::proxy::pj_failover::{
    build_pj_credential, pj_attempt_ended, pj_invite_failed, pj_start, pj_target_uri,
    trunk_pj_credential, PjCallEvent, PjDialEvent, PjDialWait, PjFailoverResult, PjRouteStep,
    PjWaitStep,
};
use active_call::redis_state::types::{TrunkConfig, TrunkCredential};

fn bare_trunk() -> TrunkConfig {
    TrunkConfig {
        name: "test-trunk".to_string(),
        direction: "bidirectional".to_string(),
        gateways: vec![],
        distribution: "weight_based".to_string(),
        codecs: None,
        acl: None,
        credentials: None,
        media: None,
        origination_uris: None,
        translation_classes: None,
        manipulation_classes: None,
        nofailover_sip_codes: None,
    }
}

#[test]
fn test_build_pj_credential_maps_fields() {
    let trunk_cred = TrunkCredential {
        realm: "carrier.example.com".to_string(),
        username: "alice".to_string(),
        password: "secret".to_string(),
    };
    let pj = build_pj_credential(&trunk_cred);
    assert_eq!(pj.realm, "carrier.example.com");
    assert_eq!(pj.username, "alice");
    assert_eq!(pj.password, "secret");
    assert_eq!(pj.scheme, "digest");
}

#[test]
fn test_no_routes_guard_empty_gateways() {
    let trunk = bare_trunk();
    assert!(trunk.gateways.is_empty());
    let (_, step) = pj_start(trunk.gateways.len());
    assert_eq!(step, PjRouteStep::Done(PjFailoverResult::NoRoutes));
}

#[test]
fn pj_failover_test_early_media_sdp_fallback() {
    let early_sdp = Some("v=0\r\no=- 1 1 IN IP4 1.1.1.1\r\n".to_string());
    let confirmed_sdp: Option<String> = None;

    let mut wait = PjDialWait::new();
    let s = wait.step(PjDialEvent::Event(PjCallEvent::EarlyMedia { sdp: early_sdp.clone().unwrap() }), &None);
    assert_eq!(s, PjWaitStep::Continue);
    let answer = wait.step(
        PjDialEvent::Event(PjCallEvent::Confirmed { call_id: "c1".to_string(), sdp: confirmed_sdp }),
        &None,
    );
    let answer_sdp = match answer {
        PjWaitStep::Connected { sdp, .. } => sdp,
        other => panic!("expected Connected, got {other:?}"),
    };
    assert_eq!(answer_sdp.as_deref(), early_sdp.as_deref());
}

#[test]
fn test_confirmed_sdp_takes_priority() {
    let early_sdp = Some("v=0\r\no=- 1 1 IN IP4 1.1.1.1\r\n".to_string());
    let confirmed_sdp = Some("v=0\r\no=- 2 2 IN IP4 2.2.2.2\r\n".to_string());

    let mut wait = PjDialWait::new();
    wait.step(PjDialEvent::Event(PjCallEvent::EarlyMedia { sdp: early_sdp.unwrap() }), &None);
    let answer = wait.step(
        PjDialEvent::Event(PjCallEvent::Confirmed { call_id: "c2".to_string(), sdp: confirmed_sdp.clone() }),
        &None,
    );
    let answer_sdp = match answer {
        PjWaitStep::Connected { sdp, call_id } => {
            assert_eq!(call_id, "c2");
            sdp
        }
        other => panic!("expected Connected, got {other:?}"),
    };
    assert_eq!(answer_sdp.as_deref(), confirmed_sdp.as_deref());
}

#[test]
fn pj_wait_terminations() {
    let codes = Some(vec![403u16]);
    let mut wait = PjDialWait::new();
    assert_eq!(
        wait.step(PjDialEvent::Event(PjCallEvent::Terminated { code: 403, reason: "Forbidden".to_string() }), &codes),
        PjWaitStep::NoFailover { code: 403, reason: "Forbidden".to_string() }
    );
    assert_eq!(
        wait.step(PjDialEvent::Event(PjCallEvent::Terminated { code: 486, reason: "Busy".to_string() }), &codes),
        PjWaitStep::Failed { code: 486, reason: "Busy".to_string() }
    );
    assert_eq!(
        wait.step(PjDialEvent::ChannelClosed, &codes),
        PjWaitStep::Failed { code: 503, reason: "Event channel closed".to_string() }
    );
    assert_eq!(
        wait.step(PjDialEvent::Cancelled, &codes),
        PjWaitStep::Failed { code: 487, reason: "Cancelled".to_string() }
    );
    assert_eq!(
        wait.step(PjDialEvent::TimedOut, &codes),
        PjWaitStep::Failed { code: 408, reason: "Request Timeout".to_string() }
    );
    assert_eq!(wait.step(PjDialEvent::Event(PjCallEvent::Ringing), &codes), PjWaitStep::Continue);
}

#[test]
fn pj_loop_runs_through_gateways() {
    let (mut route, step) = pj_start(2);
    assert_eq!(step, PjRouteStep::Dial(0));
    let s = pj_invite_failed(&mut route, "invite failed".to_string());
    assert_eq!(s, PjRouteStep::Dial(1));
    let s = pj_attempt_ended(&mut route, "gw2", PjWaitStep::Failed { code: 486, reason: "Busy".to_string() });
    assert_eq!(
        s,
        PjRouteStep::Done(PjFailoverResult::Exhausted { last_code: 486, last_reason: "Busy".to_string() })
    );
    let (mut route, _) = pj_start(1);
    let s = pj_attempt_ended(
        &mut route,
        "gw1",
        PjWaitStep::Connected { sdp: None, call_id: "abc".to_string() },
    );
    assert_eq!(
        s,
        PjRouteStep::Done(PjFailoverResult::Connected {
            gateway_addr: "gw1".to_string(),
            sdp: None,
            call_id: "abc".to_string()
        })
    );
}

#[test]
fn pj_target_and_credential() {
    assert_eq!(pj_target_uri("sips:alice@example.com", "gw-east"), "sip:alice@gw-east");
    let mut trunk = bare_trunk();
    assert_eq!(trunk_pj_credential(&trunk), None);
    trunk.credentials = Some(vec![TrunkCredential {
        realm: "r".to_string(),
        username: "u".to_string(),
        password: "p".to_string(),
    }]);
    let c = trunk_pj_credential(&trunk).unwrap();
    assert_eq!(c.username, "u");
    assert_eq!(c.scheme, "digest");
}
