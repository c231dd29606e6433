use active_call::proxy::sdp_filter::{filter_sdp_codecs, resolve_trunk_codecs};
use active_call::proxy::session::{is_hold_direction, parse_sdp_direction, SdpDirection};
use active_call::redis_state::types::MediaConfig;

fn sample_offer() -> String {
    [
        "v=0",
        "o=- 123 123 IN IP4 10.0.0.1",
        "s=-",
        "c=IN IP4 10.0.0.1",
        "t=0 0",
        "m=audio 20000 RTP/AVP 0 8 111 101",
        "a=rtpmap:0 PCMU/8000",
        "a=rtpmap:8 PCMA/8000",
        "a=rtpmap:111 opus/48000/2",
        "a=fmtp:111 minptime=10;useinbandfec=1",
        "a=rtpmap:101 telephone-event/8000",
        "a=fmtp:101 0-16",
        "a=ptime:20",
    ]
    .join("\n")
}

#[test]
fn filter_keeps_only_pcmu() {
    let allowed = vec!["pcmu".to_string()];
    let result = filter_sdp_codecs(&sample_offer(), &allowed).unwrap();
    assert!(result.contains("m=audio 20000 RTP/AVP 0 101"));
    assert!(result.contains("a=rtpmap:0 PCMU/8000"));
    assert!(!result.contains("a=rtpmap:8 PCMA/8000"));
    assert!(!result.contains("a=rtpmap:111 opus/48000/2"));
    assert!(!result.contains("a=fmtp:111"));
    assert!(result.contains("a=rtpmap:101 telephone-event/8000"));
    assert!(result.contains("a=fmtp:101 0-16"));
}

#[test]
fn filter_allows_multiple_codecs() {
    let allowed = vec!["pcmu".to_string(), "pcma".to_string()];
    let result = filter_sdp_codecs(&sample_offer(), &allowed).unwrap();
    assert!(result.contains("m=audio 20000 RTP/AVP 0 8 101"));
    assert!(result.contains("a=rtpmap:0 PCMU/8000"));
    assert!(result.contains("a=rtpmap:8 PCMA/8000"));
    assert!(!result.contains("a=rtpmap:111"));
}

#[test]
fn error_on_no_overlap() {
    let allowed = vec!["g729".to_string()];
    let err = filter_sdp_codecs(&sample_offer(), &allowed).unwrap_err();
    assert!(err.starts_with("no codec overlap:"));
}

#[test]
fn telephone_event_preserved_even_when_not_in_allowed() {
    let allowed = vec!["pcmu".to_string()];
    let result = filter_sdp_codecs(&sample_offer(), &allowed).unwrap();
    assert!(result.contains("a=rtpmap:101 telephone-event/8000"));
    assert!(result.contains("a=fmtp:101 0-16"));
    assert!(result.contains(" 101"));
}

#[test]
fn non_audio_sdp_lines_preserved() {
    let allowed = vec!["pcmu".to_string()];
    let result = filter_sdp_codecs(&sample_offer(), &allowed).unwrap();
    assert!(result.contains("v=0"));
    assert!(result.contains("o=- 123 123 IN IP4 10.0.0.1"));
    assert!(result.contains("c=IN IP4 10.0.0.1"));
    assert!(result.contains("a=ptime:20"));
}

#[test]
fn opus_only_strips_g711() {
    let allowed = vec!["opus".to_string()];
    let result = filter_sdp_codecs(&sample_offer(), &allowed).unwrap();
    assert!(result.contains("m=audio 20000 RTP/AVP 111 101"));
    assert!(!result.contains("a=rtpmap:0 PCMU"));
    assert!(!result.contains("a=rtpmap:8 PCMA"));
    assert!(result.contains("a=rtpmap:111 opus/48000/2"));
    assert!(result.contains("a=fmtp:111"));
}

#[test]
fn resolve_prefers_media_codecs() {
    let media = Some(MediaConfig {
        codecs: vec!["opus".to_string()],
        dtmf_mode: "rfc2833".to_string(),
        srtp: None,
        media_mode: None,
    });
    let legacy = Some(vec!["pcmu".to_string()]);
    let result = resolve_trunk_codecs(&media, &legacy);
    assert_eq!(result, Some(vec!["opus".to_string()]));
}

#[test]
fn resolve_falls_back_to_legacy() {
    let media: Option<MediaConfig> = None;
    let legacy = Some(vec!["pcma".to_string()]);
    let result = resolve_trunk_codecs(&media, &legacy);
    assert_eq!(result, Some(vec!["pcma".to_string()]));
}

#[test]
fn resolve_returns_none_when_nothing_configured() {
    let result = resolve_trunk_codecs(&None, &None);
    assert!(result.is_none());
}

#[test]
fn resolve_returns_none_for_empty_media_codecs() {
    let media = Some(MediaConfig {
        codecs: vec![],
        dtmf_mode: "rfc2833".to_string(),
        srtp: None,
        media_mode: None,
    });
    let result = resolve_trunk_codecs(&media, &None);
    assert!(result.is_none());
}

#[test]
fn output_uses_crlf() {
    let allowed = vec!["pcmu".to_string()];
    let result = filter_sdp_codecs(&sample_offer(), &allowed).unwrap();
    assert!(result.contains("\r\n"));
    let without_crlf = result.replace("\r\n", "");
    assert!(!without_crlf.contains('\n'), "bare LF found outside CRLF pairs");
}

#[test]
fn static_payload_types_without_rtpmap() {
    let offer = "v=0\r\nm=audio 4000 RTP/AVP 0 8 18\r\na=ptime:20\r\n";
    let result = filter_sdp_codecs(offer, &["PCMA".to_string()]).unwrap();
    assert_eq!(result, "v=0\r\nm=audio 4000 RTP/AVP 8\r\na=ptime:20\r\n");
    let err = filter_sdp_codecs(offer, &["opus".to_string(), "x".to_string()]).unwrap_err();
    assert_eq!(err, "no codec overlap: allowed=[opus,x] vs offer PTs");
}

const SDP_SENDONLY: &str = "v=0\r\no=- 0 0 IN IP4 127.0.0.1\r\ns=-\r\nt=0 0\r\nm=audio 9 RTP/AVP 0\r\na=sendonly\r\n";
const SDP_RECVONLY: &str = "v=0\r\no=- 0 0 IN IP4 127.0.0.1\r\ns=-\r\nt=0 0\r\nm=audio 9 RTP/AVP 0\r\na=recvonly\r\n";
const SDP_SENDRECV: &str = "v=0\r\no=- 0 0 IN IP4 127.0.0.1\r\ns=-\r\nt=0 0\r\nm=audio 9 RTP/AVP 0\r\na=sendrecv\r\n";
const SDP_INACTIVE: &str = "v=0\r\no=- 0 0 IN IP4 127.0.0.1\r\ns=-\r\nt=0 0\r\nm=audio 9 RTP/AVP 0\r\na=inactive\r\n";

#[test]
fn test_sdp_sendonly_is_hold() {
    assert_eq!(parse_sdp_direction(SDP_SENDONLY), SdpDirection::SendOnly);
    assert!(is_hold_direction(SdpDirection::SendOnly));
}

#[test]
fn test_sdp_recvonly_is_hold() {
    assert_eq!(parse_sdp_direction(SDP_RECVONLY), SdpDirection::RecvOnly);
    assert!(is_hold_direction(SdpDirection::RecvOnly));
}

#[test]
fn test_sdp_sendrecv_is_resume() {
    assert_eq!(parse_sdp_direction(SDP_SENDRECV), SdpDirection::SendRecv);
    assert!(!is_hold_direction(SdpDirection::SendRecv));
}

#[test]
fn test_sdp_inactive_is_hold() {
    assert_eq!(parse_sdp_direction(SDP_INACTIVE), SdpDirection::Inactive);
    assert!(is_hold_direction(SdpDirection::Inactive));
}

#[test]
fn test_parse_sdp_direction_extracts_correctly() {
    let sdp_no_dir = "v=0\r\nm=audio 9 RTP/AVP 0\r\n";
    assert_eq!(parse_sdp_direction(sdp_no_dir), SdpDirection::SendRecv);
    let sdp_multi = "v=0\r\na=sendonly\r\nm=audio 9\r\na=sendrecv\r\n";
    assert_eq!(parse_sdp_direction(sdp_multi), SdpDirection::SendRecv);
    let sdp_lf_only = "v=0\na=inactive\n";
    assert_eq!(parse_sdp_direction(sdp_lf_only), SdpDirection::Inactive);
}
