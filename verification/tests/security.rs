use active_call::security::message_validator::{validate_sip_message, SipMessageInfo, ValidationResult};
use active_call::security::topology::{hide_topology, is_internal_value, SipHeaders};

fn msg(max_fwd: Option<u32>, content_len: Option<usize>, body_len: usize) -> SipMessageInfo {
    SipMessageInfo {
        max_forwards: max_fwd,
        content_length: content_len,
        body_length: body_len,
        method: "REGISTER".to_string(),
    }
}

#[test]
fn test_max_forwards_zero_rejected() {
    let result = validate_sip_message(&msg(Some(0), None, 0));
    assert_eq!(result, ValidationResult::InvalidMaxForwards { value: Some(0) });
}

#[test]
fn test_content_length_mismatch_rejected() {
    let result = validate_sip_message(&msg(Some(70), Some(100), 50));
    assert_eq!(result, ValidationResult::ContentLengthMismatch { header: 100, actual: 50 });
}

#[test]
fn test_valid_message_accepted() {
    let result = validate_sip_message(&msg(Some(70), Some(50), 50));
    assert_eq!(result, ValidationResult::Valid);
}

#[test]
fn test_missing_max_forwards_rejected() {
    let result = validate_sip_message(&msg(None, None, 0));
    assert_eq!(result, ValidationResult::MissingMaxForwards);
}

#[test]
fn test_valid_message_without_content_length() {
    let result = validate_sip_message(&msg(Some(70), None, 0));
    assert_eq!(result, ValidationResult::Valid);
}

fn make_headers(pairs: &[(&str, &str)]) -> SipHeaders {
    SipHeaders::new(pairs.iter().map(|(k, v)| (k.to_string(), v.to_string())).collect())
}

#[test]
fn test_strips_internal_via_keeps_outermost() {
    let mut headers = make_headers(&[
        ("Via", "SIP/2.0/UDP external.example.com;branch=z9hG4bK1"),
        ("Via", "SIP/2.0/UDP 10.0.0.1;branch=z9hG4bK2"),
        ("Via", "SIP/2.0/UDP 192.168.1.5;branch=z9hG4bK3"),
        ("From", "<sip:alice@example.com>"),
    ]);
    hide_topology(&mut headers, &["10.0.0.", "192.168."]);
    let vias: Vec<_> = headers.headers.iter().filter(|(k, _)| k.to_lowercase() == "via").collect();
    assert_eq!(vias.len(), 1, "only outermost Via should remain");
    assert!(vias[0].1.contains("external.example.com"), "outermost Via should be preserved");
}

#[test]
fn test_strips_internal_record_route() {
    let mut headers = make_headers(&[
        ("Record-Route", "<sip:external.example.com;lr>"),
        ("Record-Route", "<sip:10.0.0.1;lr>"),
        ("Record-Route", "<sip:192.168.1.5;lr>"),
        ("Via", "SIP/2.0/UDP external.example.com;branch=z9hG4bK1"),
    ]);
    hide_topology(&mut headers, &["10.0.0.", "192.168."]);
    let rr: Vec<_> = headers.headers.iter().filter(|(k, _)| k.to_lowercase() == "record-route").collect();
    assert_eq!(rr.len(), 1, "internal Record-Route entries should be removed");
    assert!(rr[0].1.contains("external.example.com"), "external Record-Route should be preserved");
}

#[test]
fn test_non_topology_headers_preserved() {
    let mut headers = make_headers(&[
        ("Via", "SIP/2.0/UDP external.example.com;branch=z9hG4bK1"),
        ("From", "<sip:alice@example.com>"),
        ("To", "<sip:bob@example.com>"),
        ("Call-ID", "abc123@example.com"),
        ("CSeq", "1 INVITE"),
    ]);
    hide_topology(&mut headers, &["10.0.0.", "192.168."]);
    let from: Vec<_> = headers.headers.iter().filter(|(k, _)| k.to_lowercase() == "from").collect();
    assert_eq!(from.len(), 1);
    assert!(from[0].1.contains("alice@example.com"));
    let to: Vec<_> = headers.headers.iter().filter(|(k, _)| k.to_lowercase() == "to").collect();
    assert_eq!(to.len(), 1);
    let call_id: Vec<_> = headers.headers.iter().filter(|(k, _)| k.to_lowercase() == "call-id").collect();
    assert_eq!(call_id.len(), 1);
}

#[test]
fn via_matching_ignores_case_and_order_is_kept() {
    let mut headers = make_headers(&[
        ("From", "a"),
        ("VIA", "first"),
        ("via", "second"),
        ("RECORD-ROUTE", "<sip:10.0.0.9;lr>"),
        ("To", "b"),
    ]);
    hide_topology(&mut headers, &["10.0.0."]);
    let names: Vec<&str> = headers.headers.iter().map(|(k, _)| k.as_str()).collect();
    assert_eq!(names, vec!["From", "VIA", "To"]);
    assert!(is_internal_value("x 192.168.1.1", &["192.168."]));
    assert!(!is_internal_value("x", &[]));
}

#[test]
fn internal_first_via_is_removed_too() {
    let mut headers = make_headers(&[
        ("Via", "SIP/2.0/UDP 10.0.0.1;branch=z9hG4bK2"),
        ("From", "<sip:alice@example.com>"),
    ]);
    hide_topology(&mut headers, &["10.0.0.", "192.168."]);
    assert_eq!(
        headers.headers,
        vec![("From".to_string(), "<sip:alice@example.com>".to_string())]
    );
}
