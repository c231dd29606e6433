use active_call::proxy::bridge::{
    audio_frame_to_bytes, build_ice_servers, relay_step, webrtc_ice_lite, webrtc_ice_urls,
    ws_bridge_target, RelayAction, RelayEvent, Samples, DEFAULT_STUN_SERVER,
};
use active_call::redis_state::types::{DidConfig, DidRouting, WebRtcBridgeConfig, WsBridgeConfig};

fn make_did_webrtc(ice_servers: Option<Vec<String>>, ice_lite: Option<bool>) -> DidConfig {
    DidConfig {
        number: "+15551234567".to_string(),
        trunk: "trunk1".to_string(),
        routing: DidRouting {
            mode: "webrtc_bridge".to_string(),
            playbook: None,
            webrtc_config: Some(WebRtcBridgeConfig { ice_servers, ice_lite }),
            ws_config: None,
        },
        caller_name: None,
    }
}

fn make_did_ws(ws: Option<WsBridgeConfig>) -> DidConfig {
    DidConfig {
        number: "+15551234567".to_string(),
        trunk: "trunk1".to_string(),
        routing: DidRouting { mode: "ws_bridge".to_string(), playbook: None, webrtc_config: None, ws_config: ws },
        caller_name: None,
    }
}

#[test]
fn test_webrtc_bridge_config_defaults_no_ice_servers() {
    let did = make_did_webrtc(None, None);
    let servers = build_ice_servers(webrtc_ice_urls(&did));
    assert_eq!(servers.len(), 1);
    assert_eq!(servers[0], vec![DEFAULT_STUN_SERVER.to_string()]);
    assert!(!webrtc_ice_lite(&did));
}

#[test]
fn test_webrtc_bridge_config_custom_ice_servers() {
    let custom = vec!["stun:stun.example.com:3478".to_string()];
    let did = make_did_webrtc(Some(custom.clone()), Some(true));
    let servers = build_ice_servers(webrtc_ice_urls(&did));
    assert_eq!(servers.len(), 1);
    assert_eq!(servers[0], custom);
    assert!(webrtc_ice_lite(&did));
    let empty = make_did_webrtc(Some(vec![]), None);
    assert_eq!(build_ice_servers(webrtc_ice_urls(&empty)), vec![vec![DEFAULT_STUN_SERVER.to_string()]]);
}

#[test]
fn ws_bridge_targets() {
    let did = make_did_ws(Some(WsBridgeConfig { url: "wss://example.com/audio".to_string(), codec: Some("pcmu".to_string()) }));
    let t = ws_bridge_target(&did).unwrap();
    assert_eq!(t.url, "wss://example.com/audio");
    assert_eq!(
        ws_bridge_target(&make_did_ws(None)).unwrap_err(),
        "ws_bridge mode requires ws_config with a target URL"
    );
    assert_eq!(
        ws_bridge_target(&make_did_ws(Some(WsBridgeConfig { url: String::new(), codec: None }))).unwrap_err(),
        "ws_bridge mode requires a non-empty ws_config.url"
    );
}

#[test]
fn relay_and_frame_bytes() {
    assert_eq!(relay_step(RelayEvent::Frame), RelayAction::Forward);
    assert_eq!(relay_step(RelayEvent::Cancelled), RelayAction::Stop);
    assert_eq!(relay_step(RelayEvent::Disconnected), RelayAction::Stop);
    assert_eq!(relay_step(RelayEvent::LegEnded), RelayAction::Stop);
    assert_eq!(relay_step(RelayEvent::SendFailed), RelayAction::Stop);
    assert_eq!(audio_frame_to_bytes(&Samples::Rtp { payload: vec![1, 2, 3] }), vec![1, 2, 3]);
    let pcm: Vec<i16> = vec![1, -2, 0x1234];
    let expected: Vec<u8> = pcm.iter().flat_map(|s| s.to_le_bytes()).collect();
    assert_eq!(audio_frame_to_bytes(&Samples::Pcm { samples: pcm }), expected);
    assert!(audio_frame_to_bytes(&Samples::Empty).is_empty());
}
