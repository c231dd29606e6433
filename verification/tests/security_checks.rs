use active_call::security::brute_force::{BruteForceResult, BruteForceTracker};
use active_call::security::firewall::{cidr_entry, split_cidr, CidrEntry, FirewallResult, IpFirewall};
use active_call::security::flood_tracker::{FloodResult, FloodTracker};
use active_call::security::ip::IpKey;
use active_call::security::{SecurityCheckResult, SecurityConfig, SipSecurityModule};

fn ip(a: u8, b: u8, c: u8, d: u8) -> IpKey {
    IpKey::v4(a, b, c, d)
}

fn host(k: IpKey) -> CidrEntry {
    cidr_entry(k, None).unwrap()
}

fn net(k: IpKey, prefix: &str) -> CidrEntry {
    cidr_entry(k, Some(prefix)).unwrap()
}

// ::1, ::2, fe80::, fe80::1, 2001:db8::1
const V6_LOOPBACK: u128 = 1;
const V6_TWO: u128 = 2;
const V6_FE80: u128 = 0xfe80 << 112;
const V6_FE80_1: u128 = (0xfe80 << 112) | 1;
const V6_DOC: u128 = (0x2001 << 112) | (0x0db8 << 96) | 1;

#[test]
fn test_brute_force_auto_block_on_threshold() {
    let mut tracker = BruteForceTracker::new(5, 60, 3600);
    let source = ip(1, 2, 3, 4);

    let mut last = BruteForceResult::Allowed;
    for _ in 0..5 {
        last = tracker.record_failure(&source);
    }
    assert_eq!(last, BruteForceResult::Blocked { failures: 5 }, "5th failure should trigger block");
}

#[test]
fn test_brute_force_success_resets_failures() {
    let mut tracker = BruteForceTracker::new(5, 60, 3600);
    let source = ip(1, 2, 3, 4);

    for _ in 0..4 {
        tracker.record_failure(&source);
    }
    tracker.record_success(&source);
    assert!(!tracker.is_blocked(&source));

    for _ in 0..4 {
        let r = tracker.record_failure(&source);
        assert_eq!(r, BruteForceResult::Allowed);
    }
}

#[test]
fn test_brute_force_independent_per_ip() {
    let mut tracker = BruteForceTracker::new(5, 60, 3600);
    let ip_a = ip(1, 2, 3, 4);
    let ip_b = ip(5, 6, 7, 8);

    for _ in 0..4 {
        tracker.record_failure(&ip_a);
    }
    let result = tracker.record_failure(&ip_b);
    assert_eq!(result, BruteForceResult::Allowed);
    assert!(!tracker.is_blocked(&ip_b));
    assert_eq!(tracker.tracked_count(), 2);
}

#[test]
fn brute_force_window_and_block_expiry() {
    let mut tracker = BruteForceTracker::new(2, 60, 10);
    let a = ip(9, 9, 9, 9);
    assert_eq!(tracker.record_failure_at(&a, 1_000), BruteForceResult::Allowed);
    // The first failure left the 60 s window.
    assert_eq!(tracker.record_failure_at(&a, 61_000), BruteForceResult::Allowed);
    assert_eq!(tracker.record_failure_at(&a, 62_000), BruteForceResult::Blocked { failures: 2 });
    assert!(tracker.is_blocked_at(&a, 71_999));
    assert_eq!(tracker.record_failure_at(&a, 70_000), BruteForceResult::Blocked { failures: 2 });
    assert!(!tracker.is_blocked_at(&a, 72_000));
    assert_eq!(tracker.get_blocked_at(63_000), vec![(a, 72_000)]);
    assert!(tracker.unblock(&a));
    assert!(!tracker.unblock(&ip(8, 8, 8, 8)));
    assert!(tracker.get_blocked_at(63_000).is_empty());
}

#[test]
fn test_flood_auto_block_on_threshold() {
    let mut tracker = FloodTracker::new(100, 1, 300);
    let source = ip(1, 2, 3, 4);

    let mut last_result = FloodResult::Allowed;
    for _ in 0..100 {
        last_result = tracker.record_request(&source);
    }
    assert_eq!(last_result, FloodResult::Blocked { count: 100 }, "100th request should trigger block");
}

#[test]
fn test_flood_independent_per_ip() {
    let mut tracker = FloodTracker::new(100, 1, 300);
    let ip_a = ip(1, 2, 3, 4);
    let ip_b = ip(5, 6, 7, 8);

    for _ in 0..99 {
        tracker.record_request(&ip_a);
    }
    let result = tracker.record_request(&ip_b);
    assert_eq!(result, FloodResult::Allowed, "ip_b should not be blocked");
}

#[test]
fn test_flood_blocked_ip_stays_blocked() {
    let mut tracker = FloodTracker::new(1, 1, 300);
    let source = ip(1, 2, 3, 4);

    tracker.record_request(&source);
    tracker.record_request(&source);

    assert!(tracker.is_blocked(&source), "IP should remain blocked");

    let result = tracker.record_request(&source);
    assert!(matches!(result, FloodResult::Blocked { .. }), "Subsequent requests should stay blocked");
}

#[test]
fn test_flood_unblock() {
    let mut tracker = FloodTracker::new(1, 1, 300);
    let source = ip(1, 2, 3, 4);

    tracker.record_request(&source);
    tracker.record_request(&source);
    assert!(tracker.is_blocked(&source));

    tracker.unblock(&source);
    assert!(!tracker.is_blocked(&source));
}

#[test]
fn test_blacklisted_ip_blocked() {
    let firewall = IpFirewall::from_entries(vec![], vec![host(ip(192, 168, 1, 100))]);
    assert_eq!(firewall.check(&ip(192, 168, 1, 100)), FirewallResult::Blacklisted);
}

#[test]
fn test_whitelisted_ip_allowed() {
    let firewall = IpFirewall::from_entries(vec![host(ip(192, 168, 1, 50))], vec![]);
    assert_eq!(firewall.check(&ip(192, 168, 1, 50)), FirewallResult::Whitelisted);
}

#[test]
fn test_unknown_ip_allowed() {
    let firewall = IpFirewall::from_entries(vec![], vec![]);
    assert_eq!(firewall.check(&ip(8, 8, 8, 8)), FirewallResult::Allowed);
}

#[test]
fn test_cidr_blacklist_matches_in_range() {
    let firewall = IpFirewall::from_entries(vec![], vec![net(ip(10, 0, 0, 0), "8")]);
    assert_eq!(firewall.check(&ip(10, 1, 2, 3)), FirewallResult::Blacklisted);
}

#[test]
fn test_cidr_blacklist_allows_out_of_range() {
    let firewall = IpFirewall::from_entries(vec![], vec![net(ip(10, 0, 0, 0), "8")]);
    assert_eq!(firewall.check(&ip(192, 168, 1, 1)), FirewallResult::Allowed);
}

#[test]
fn test_whitelist_overrides_blacklist() {
    let firewall =
        IpFirewall::from_entries(vec![net(ip(10, 0, 0, 0), "8")], vec![net(ip(10, 0, 0, 0), "8")]);
    assert_eq!(firewall.check(&ip(10, 1, 2, 3)), FirewallResult::Whitelisted);
}

#[test]
fn test_ipv6_blacklist_exact() {
    let firewall = IpFirewall::from_entries(vec![], vec![net(IpKey::v6(V6_LOOPBACK), "128")]);
    assert_eq!(firewall.check(&IpKey::v6(V6_LOOPBACK)), FirewallResult::Blacklisted);
    assert_eq!(firewall.check(&IpKey::v6(V6_TWO)), FirewallResult::Allowed);
}

#[test]
fn test_ipv6_cidr_range() {
    let firewall = IpFirewall::from_entries(vec![], vec![net(IpKey::v6(V6_FE80), "10")]);
    assert_eq!(firewall.check(&IpKey::v6(V6_FE80_1)), FirewallResult::Blacklisted);
    assert_eq!(firewall.check(&IpKey::v6(V6_DOC)), FirewallResult::Allowed);
}

#[test]
fn cidr_texts_and_prefix_limits() {
    let t = split_cidr("  10.0.0.0/8 ");
    assert_eq!(t.address, "10.0.0.0");
    assert_eq!(t.prefix.as_deref(), Some("8"));
    let bare = split_cidr("1.2.3.4");
    assert_eq!(bare.address, "1.2.3.4");
    assert_eq!(bare.prefix, None);
    assert_eq!(host(ip(1, 2, 3, 4)).prefix_len, 32);
    assert_eq!(host(IpKey::v6(1)).prefix_len, 128);
    assert_eq!(cidr_entry(ip(1, 2, 3, 4), Some("33")), None);
    assert_eq!(cidr_entry(ip(1, 2, 3, 4), Some("x")), None);
    assert!(cidr_entry(IpKey::v6(1), Some("128")).is_some());
    assert_eq!(cidr_entry(IpKey::v6(1), Some("129")), None);
    // An IPv4 network never covers an IPv6 address.
    let fw = IpFirewall::from_entries(vec![], vec![net(ip(0, 0, 0, 0), "0")]);
    assert_eq!(fw.check(&IpKey::v6(1)), FirewallResult::Allowed);
    assert_eq!(fw.check(&ip(1, 1, 1, 1)), FirewallResult::Blacklisted);
}

fn make_module_with_ua_blacklist() -> SipSecurityModule {
    let config = SecurityConfig {
        ua_blacklist: vec![r"(?i)sipvicious".to_string(), r"(?i)friendly-scanner".to_string()],
        ..SecurityConfig::default()
    };
    SipSecurityModule::with_firewall(&config, IpFirewall::from_entries(vec![], vec![]))
}

#[test]
fn test_ua_blacklist_friendly_scanner() {
    let mut module = make_module_with_ua_blacklist();
    let result = module.check_request("1.2.3.4", Some(ip(1, 2, 3, 4)), Some("friendly-scanner/1.0"));
    assert!(matches!(result, SecurityCheckResult::UaBlocked { .. }), "expected UaBlocked, got {:?}", result);
}

#[test]
fn test_ua_blacklist_sipvicious() {
    let mut module = make_module_with_ua_blacklist();
    let result = module.check_request("1.2.3.4", Some(ip(1, 2, 3, 4)), Some("SIPVicious v0.3.3"));
    assert!(matches!(result, SecurityCheckResult::UaBlocked { .. }), "expected UaBlocked, got {:?}", result);
}

#[test]
fn test_ua_allowlist_normal_agent() {
    let mut module = make_module_with_ua_blacklist();
    let result = module.check_request("1.2.3.4", Some(ip(1, 2, 3, 4)), Some("Linphone/4.5"));
    assert_ne!(
        std::mem::discriminant(&result),
        std::mem::discriminant(&SecurityCheckResult::UaBlocked { ua: String::new() })
    );
}

#[test]
fn security_module_order_of_checks() {
    let config = SecurityConfig { flood_threshold: 2, ..SecurityConfig::default() };
    let fw = IpFirewall::from_entries(vec![host(ip(10, 0, 0, 1))], vec![host(ip(10, 0, 0, 2))]);
    let mut m = SipSecurityModule::with_firewall(&config, fw);
    assert_eq!(m.check_ip_at(&ip(10, 0, 0, 1), Some("sipvicious"), 0), SecurityCheckResult::Whitelisted);
    assert_eq!(m.check_ip_at(&ip(10, 0, 0, 2), None, 0), SecurityCheckResult::Blacklisted);
    assert_eq!(
        m.check_ip_at(&ip(10, 0, 0, 3), Some("sipsak 1.0"), 0),
        SecurityCheckResult::UaBlocked { ua: "sipsak 1.0".to_string() }
    );
    assert_eq!(m.check_ip_at(&ip(10, 0, 0, 3), None, 0), SecurityCheckResult::Allowed);
    assert_eq!(m.check_ip_at(&ip(10, 0, 0, 3), None, 1), SecurityCheckResult::FloodBlocked { count: 2 });
    for t in 0..5u64 {
        m.record_auth_failure_at(Some(ip(10, 0, 0, 4)), t);
    }
    assert_eq!(
        m.check_ip_at(&ip(10, 0, 0, 4), None, 10),
        SecurityCheckResult::BruteForceBlocked { failures: 0 }
    );
    let blocked = m.get_blocked_ips_at(10);
    assert_eq!(blocked.len(), 2);
    assert_eq!(blocked[0].reason, "flood");
    assert_eq!(blocked[1].reason, "brute_force");
    assert!(m.unblock_ip(Some(ip(10, 0, 0, 4))));
    assert!(!m.unblock_ip(None));
    assert_eq!(
        m.check_request_at("not-an-ip", None, None, 0),
        SecurityCheckResult::InvalidMessage { reason: "unparseable source IP: not-an-ip".to_string() }
    );
}

#[test]
fn clock_driven_blocks_are_reported_now() {
    let config = SecurityConfig::default();
    let mut m = SipSecurityModule::with_firewall(&config, IpFirewall::from_entries(vec![], vec![]));
    for _ in 0..config.auth_failure_threshold {
        m.record_auth_failure(Some(ip(10, 9, 9, 9)));
    }
    let blocked = m.get_blocked_ips();
    assert_eq!(blocked.len(), 1);
    assert_eq!(blocked[0].ip, ip(10, 9, 9, 9));
    assert_eq!(blocked[0].reason, "brute_force");

    let mut bf = BruteForceTracker::new(2, 60, 3600);
    bf.record_failure(&ip(1, 1, 1, 1));
    bf.record_failure(&ip(1, 1, 1, 1));
    let list = bf.get_blocked();
    assert_eq!(list.len(), 1);
    assert_eq!(list[0].0, ip(1, 1, 1, 1));

    let mut fl = FloodTracker::new(1, 1, 300);
    fl.record_request(&ip(2, 2, 2, 2));
    assert_eq!(fl.get_blocked().len(), 1);
    assert!(fl.unblock(&ip(2, 2, 2, 2)));
    assert!(fl.get_blocked().is_empty());
}
