use active_call::proxy::dispatch::{
    build_dsp_config, classify_bridge_mode, extract_user, rebuild_uri, terminated_reason_to_cdr_status,
    BridgeMode, CdrStatus,
};
use active_call::redis_state::types::MediaConfig;

#[test]
fn test_extract_user_sip_uri() {
    assert_eq!(extract_user("sip:alice@example.com"), "alice");
    assert_eq!(extract_user("sips:bob@carrier.net"), "bob");
    assert_eq!(extract_user("+15551234567"), "+15551234567");
    assert_eq!(extract_user("sip:+15551234567@gateway.com"), "+15551234567");
}

#[test]
fn test_extract_user_bare_number() {
    assert_eq!(extract_user("12345"), "12345");
}

#[test]
fn test_rebuild_uri_replaces_user() {
    assert_eq!(rebuild_uri("sip:alice@example.com", "bob"), "sip:bob@example.com");
    assert_eq!(rebuild_uri("sips:alice@example.com", "charlie"), "sips:charlie@example.com");
}

#[test]
fn test_rebuild_uri_no_at_sign() {
    assert_eq!(rebuild_uri("sip:gateway.com", "bob"), "sip:bob@unknown");
}

#[test]
fn test_dispatch_bridge_call_unknown_mode_classification() {
    assert!(classify_bridge_mode("sip_proxy").is_ok());
    assert!(classify_bridge_mode("webrtc_bridge").is_ok());
    assert!(classify_bridge_mode("ws_bridge").is_ok());
    assert!(classify_bridge_mode("unknown_mode").is_err());
    let err = classify_bridge_mode("foobar").unwrap_err();
    assert!(err.to_string().contains("foobar"));
}

#[test]
fn test_terminated_reason_to_cdr_status_mapping() {
    assert_eq!(terminated_reason_to_cdr_status("NORMAL_CLEARING"), CdrStatus::Completed);
    assert_eq!(terminated_reason_to_cdr_status("CANCEL"), CdrStatus::Cancelled);
    assert_eq!(terminated_reason_to_cdr_status("USER_BUSY"), CdrStatus::Busy);
    assert_eq!(terminated_reason_to_cdr_status("NO_ANSWER"), CdrStatus::NoAnswer);
    assert_eq!(terminated_reason_to_cdr_status("unknown_reason"), CdrStatus::Failed);
    assert_eq!(terminated_reason_to_cdr_status("486 Busy Here"), CdrStatus::Busy);
}

#[test]
fn bridge_modes_and_error_text() {
    assert_eq!(classify_bridge_mode("sip_proxy"), Ok(BridgeMode::SipProxy));
    assert_eq!(classify_bridge_mode("ws_bridge"), Ok(BridgeMode::WsBridge));
    assert_eq!(classify_bridge_mode("x"), Err("unknown bridge mode: x".to_string()));
}

fn media(mode: Option<&str>) -> Option<MediaConfig> {
    Some(MediaConfig {
        codecs: vec![],
        dtmf_mode: "rfc2833".to_string(),
        srtp: None,
        media_mode: mode.map(|m| m.to_string()),
    })
}

#[test]
fn dsp_config_modes() {
    let d = build_dsp_config(&None);
    assert!(d.echo_cancellation && d.dtmf_detection && d.plc && !d.tone_detection && !d.fax_terminal);
    let f = build_dsp_config(&media(Some("fax_terminal")));
    assert!(f.fax_terminal && !f.echo_cancellation && !f.dtmf_detection && f.plc);
    let t = build_dsp_config(&media(Some("tone_detect")));
    assert!(t.tone_detection && t.echo_cancellation);
    let m = build_dsp_config(&media(Some("minimal")));
    assert!(!m.echo_cancellation && !m.dtmf_detection && !m.plc);
    let o = build_dsp_config(&media(Some("other")));
    assert_eq!(o, d);
}
