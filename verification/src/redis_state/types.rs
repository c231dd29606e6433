//! Configuration records: endpoints, gateways, trunks, DIDs, routing,
//! translation and manipulation classes.

use vstd::prelude::*;

verus! {

/// TLS material of an endpoint.
#[derive(Debug, Clone, PartialEq)]
pub struct TlsConfig {
    pub cert_file: String,
    pub key_file: String,
    pub ca_file: Option<String>,
}

/// NAT traversal settings of an endpoint.
#[derive(Debug, Clone, PartialEq)]
pub struct NatConfig {
    pub external_ip: Option<String>,
    pub stun_server: Option<String>,
}

/// Digest credentials of an endpoint.
#[derive(Debug, Clone, PartialEq)]
pub struct AuthConfig {
    pub realm: String,
    pub username: String,
    pub password: String,
}

/// Session timer settings of an endpoint.
#[derive(Debug, Clone, PartialEq)]
pub struct SessionTimerConfig {
    pub enabled: bool,
    pub interval_secs: u32,
}

/// A SIP listening endpoint.
#[derive(Debug, Clone, PartialEq)]
pub struct EndpointConfig {
    pub name: String,
    pub stack: String,
    pub transport: String,
    pub bind_addr: String,
    pub port: u16,
    pub tls: Option<TlsConfig>,
    pub nat: Option<NatConfig>,
    pub auth: Option<AuthConfig>,
    pub session_timer: Option<SessionTimerConfig>,
}

/// Outbound credentials of a gateway.
#[derive(Debug, Clone, PartialEq)]
pub struct GatewayAuthConfig {
    pub username: String,
    pub password: String,
    pub realm: Option<String>,
}

/// A carrier gateway.
#[derive(Debug, Clone, PartialEq)]
pub struct GatewayConfig {
    pub name: String,
    pub proxy_addr: String,
    pub transport: String,
    pub auth: Option<GatewayAuthConfig>,
    pub health_check_interval_secs: u32,
    pub failure_threshold: u32,
    pub recovery_threshold: u32,
}

/// A trunk's reference to a gateway, with an optional selection weight.
#[derive(Debug, Clone, PartialEq)]
pub struct GatewayRef {
    pub name: String,
    pub weight: Option<u32>,
}

/// Digest credentials a trunk presents.
#[derive(Debug, Clone, PartialEq)]
pub struct TrunkCredential {
    pub realm: String,
    pub username: String,
    pub password: String,
}

/// Media settings of a trunk.
#[derive(Debug, Clone, PartialEq)]
pub struct MediaConfig {
    pub codecs: Vec<String>,
    pub dtmf_mode: String,
    pub srtp: Option<String>,
    pub media_mode: Option<String>,
}

/// An origination URI of a trunk.
#[derive(Debug, Clone, PartialEq)]
pub struct OriginationUri {
    pub uri: String,
    pub priority: Option<u32>,
    pub weight: Option<u32>,
}

/// Settings of a WebRTC bridge DID.
#[derive(Debug, Clone, PartialEq)]
pub struct WebRtcBridgeConfig {
    pub ice_servers: Option<Vec<String>>,
    pub ice_lite: Option<bool>,
}

/// Settings of a WebSocket bridge DID.
#[derive(Debug, Clone, PartialEq)]
pub struct WsBridgeConfig {
    pub url: String,
    pub codec: Option<String>,
}

/// How a DID's calls are handled.
#[derive(Debug, Clone, PartialEq)]
pub struct DidRouting {
    pub mode: String,
    pub playbook: Option<String>,
    pub webrtc_config: Option<WebRtcBridgeConfig>,
    pub ws_config: Option<WsBridgeConfig>,
}

/// A dialled number and its handling.
#[derive(Debug, Clone, PartialEq)]
pub struct DidConfig {
    pub number: String,
    pub trunk: String,
    pub routing: DidRouting,
    pub caller_name: Option<String>,
}

/// A trunk: its gateways, selection and media policy. Call-admission
/// limits are held by the admission layer, not here.
#[derive(Debug, Clone, PartialEq)]
pub struct TrunkConfig {
    pub name: String,
    pub direction: String,
    pub gateways: Vec<GatewayRef>,
    pub distribution: String,
    pub codecs: Option<Vec<String>>,
    pub acl: Option<Vec<String>>,
    pub credentials: Option<Vec<TrunkCredential>>,
    pub media: Option<MediaConfig>,
    pub origination_uris: Option<Vec<OriginationUri>>,
    pub translation_classes: Option<Vec<String>>,
    pub manipulation_classes: Option<Vec<String>>,
    pub nofailover_sip_codes: Option<Vec<u16>>,
}

/// How a routing record matches a call.
#[derive(Debug, Clone, Copy, PartialEq, Eq, Structural)]
pub enum MatchType {
    Lpm,
    ExactMatch,
    Regex,
    Compare,
    HttpQuery,
}

/// A weighted routing target.
#[derive(Debug, Clone, PartialEq)]
pub struct RoutingTarget {
    pub trunk: String,
    pub load_percent: Option<u32>,
}

/// The field a routing record matches when none is configured.
pub fn default_match_field() -> (r: String)
    ensures
        r@ == seq![
            'd',
            'e',
            's',
            't',
            'i',
            'n',
            'a',
            't',
            'i',
            'o',
            'n',
            '_',
            'n',
            'u',
            'm',
            'b',
            'e',
            'r',
        ],
{
    let v: Vec<char> = vec![
        'd',
        'e',
        's',
        't',
        'i',
        'n',
        'a',
        't',
        'i',
        'o',
        'n',
        '_',
        'n',
        'u',
        'm',
        'b',
        'e',
        'r',
    ];
    crate::text::string_from_chars(&v)
}

/// The priority of a routing record when none is configured.
pub fn default_priority() -> (r: u32)
    ensures
        r == 100,
{
    100
}

/// A routing record of a routing table.
#[derive(Debug, Clone, PartialEq)]
pub struct RoutingRecord {
    pub match_type: MatchType,
    pub value: String,
    pub compare_op: Option<String>,
    pub match_field: String,
    pub targets: Vec<RoutingTarget>,
    pub jump_to: Option<String>,
    pub priority: u32,
    pub is_default: bool,
}

/// A legacy routing rule.
#[derive(Debug, Clone, PartialEq)]
pub struct RoutingRule {
    pub pattern: String,
    pub destination: String,
    pub priority: Option<u32>,
}

/// A named routing table.
#[derive(Debug, Clone, PartialEq)]
pub struct RoutingTableConfig {
    pub name: String,
    pub records: Vec<RoutingRecord>,
    pub description: Option<String>,
}

/// The direction a translation rule applies to when none is configured.
pub fn default_direction() -> (r: String)
    ensures
        r@ == seq!['b', 'o', 't', 'h'],
{
    let v: Vec<char> = vec!['b', 'o', 't', 'h'];
    crate::text::string_from_chars(&v)
}

/// A number translation rule.
#[derive(Debug, Clone, PartialEq)]
pub struct TranslationRule {
    pub caller_pattern: Option<String>,
    pub caller_replace: Option<String>,
    pub destination_pattern: Option<String>,
    pub destination_replace: Option<String>,
    pub caller_name_pattern: Option<String>,
    pub caller_name_replace: Option<String>,
    pub direction: String,
    pub legacy_match: Option<String>,
    pub legacy_replace: Option<String>,
}

/// A named set of translation rules.
#[derive(Debug, Clone, PartialEq)]
pub struct TranslationClassConfig {
    pub name: String,
    pub rules: Vec<TranslationRule>,
}

/// How the conditions of a manipulation rule combine when none is configured.
pub fn default_condition_mode() -> (r: String)
    ensures
        r@ == seq!['a', 'n', 'd'],
{
    let v: Vec<char> = vec!['a', 'n', 'd'];
    crate::text::string_from_chars(&v)
}

/// A condition of a manipulation rule.
#[derive(Debug, Clone, PartialEq)]
pub struct ManipulationCondition {
    pub field: String,
    pub pattern: String,
}

/// An action of a manipulation rule.
#[derive(Debug, Clone, PartialEq)]
pub struct ManipulationAction {
    pub action_type: String,
    pub name: Option<String>,
    pub value: Option<String>,
}

/// A header manipulation rule.
#[derive(Debug, Clone, PartialEq)]
pub struct ManipulationRule {
    pub condition_mode: String,
    pub conditions: Vec<ManipulationCondition>,
    pub actions: Vec<ManipulationAction>,
    pub anti_actions: Vec<ManipulationAction>,
    pub header: Option<String>,
    pub action: Option<String>,
    pub value: Option<String>,
}

/// A named set of manipulation rules.
#[derive(Debug, Clone, PartialEq)]
pub struct ManipulationClassConfig {
    pub name: String,
    pub rules: Vec<ManipulationRule>,
}

} // verus!
