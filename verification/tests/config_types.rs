use active_call::redis_state::runtime_state::GatewayHealthStatus;
use active_call::redis_state::types::{
    default_condition_mode, default_direction, default_match_field, default_priority, DidConfig, DidRouting,
    WebRtcBridgeConfig, WsBridgeConfig,
};

fn make_did_webrtc(ice_servers: Option<Vec<String>>, ice_lite: Option<bool>) -> DidConfig {
    DidConfig {
        number: "+15551234567".to_string(),
        trunk: "trunk1".to_string(),
        routing: DidRouting {
            mode: "webrtc_bridge".to_string(),
            playbook: None,
            webrtc_config: Some(WebRtcBridgeConfig { ice_servers, ice_lite }),
            ws_config: None,
        },
        caller_name: None,
    }
}

fn make_did_ws(url: &str, codec: Option<&str>) -> DidConfig {
    DidConfig {
        number: "+15551234567".to_string(),
        trunk: "trunk1".to_string(),
        routing: DidRouting {
            mode: "ws_bridge".to_string(),
            playbook: None,
            webrtc_config: None,
            ws_config: Some(WsBridgeConfig { url: url.to_string(), codec: codec.map(|c| c.to_string()) }),
        },
        caller_name: None,
    }
}

#[test]
fn test_webrtc_bridge_ice_lite_extraction() {
    let did = make_did_webrtc(None, Some(true));
    let ice_lite = did.routing.webrtc_config.as_ref().and_then(|c| c.ice_lite).unwrap_or(false);
    assert!(ice_lite);
}

#[test]
fn test_ws_bridge_config_extraction() {
    let did = make_did_ws("wss://example.com/audio", Some("pcmu"));
    let ws_config = did.routing.ws_config.as_ref().unwrap();
    assert_eq!(ws_config.url, "wss://example.com/audio");
    assert_eq!(ws_config.codec, Some("pcmu".to_string()));
}

#[test]
fn test_ws_bridge_config_default_codec() {
    let did = make_did_ws("wss://example.com/audio", None);
    let ws_config = did.routing.ws_config.as_ref().unwrap();
    assert!(ws_config.codec.is_none());
}

#[test]
fn test_ws_bridge_missing_config_returns_error() {
    let did = DidConfig {
        number: "+15551234567".to_string(),
        trunk: "trunk1".to_string(),
        routing: DidRouting { mode: "ws_bridge".to_string(), playbook: None, webrtc_config: None, ws_config: None },
        caller_name: None,
    };
    let result: Option<&WsBridgeConfig> = did.routing.ws_config.as_ref();
    assert!(result.is_none(), "ws_config must be None, which would trigger an error in dispatch_ws_bridge");
}

#[test]
fn config_defaults() {
    assert_eq!(default_match_field(), "destination_number");
    assert_eq!(default_priority(), 100);
    assert_eq!(default_direction(), "both");
    assert_eq!(default_condition_mode(), "and");
}

#[test]
fn gateway_health_text_round_trip() {
    for s in [GatewayHealthStatus::Active, GatewayHealthStatus::Disabled, GatewayHealthStatus::Unknown] {
        assert_eq!(GatewayHealthStatus::from_str(&s.to_string()), Ok(s));
    }
    assert_eq!(GatewayHealthStatus::from_str("ACTIVE"), Ok(GatewayHealthStatus::Unknown));
}
