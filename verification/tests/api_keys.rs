use active_call::redis_state::auth::{
    api_key_from_bytes, auth_gate, auth_skipped, bearer_token, create_key, entries_named, hex_encode,
    key_hash, key_names, sha256_hex, strip_key_prefix, validate_key, AuthGate,
};
use active_call::redis_state::keys::{
    calls_key, check_not_engaged, cps_cutoff, cps_key, deps_key, entity_key, entity_pattern,
    health_key, refs_key, resource_ref, routing_table_references, trunk_references, untrack_all_plan,
};
use active_call::redis_state::types::{
    GatewayRef, MatchType, RoutingRecord, RoutingTableConfig, RoutingTarget, TrunkConfig,
};

fn s(v: &[&str]) -> Vec<String> {
    v.iter().map(|x| x.to_string()).collect()
}

#[test]
fn hex_encode_is_lowercase_two_digits_per_byte() {
    assert_eq!(hex_encode(&[0x00, 0xff, 0x1a, 0x9c]), "00ff1a9c");
    assert_eq!(hex_encode(&[]), "");
}

#[test]
fn sha256_hex_matches_known_digests() {
    assert_eq!(
        sha256_hex("abc"),
        "ba7816bf8f01cfea414140de5dae2223b00361a396177a9cb410ff61f20015ad"
    );
    assert_eq!(
        sha256_hex(""),
        "e3b0c44298fc1c149afbf4c8996fb92427ae41e4649b934ca495991b7852b855"
    );
}

#[test]
fn key_prefix_is_stripped_before_hashing() {
    assert_eq!(strip_key_prefix("sv_abc"), "abc");
    assert_eq!(strip_key_prefix("abc"), "abc");
    assert_eq!(strip_key_prefix("sv"), "sv");
    assert_eq!(key_hash("sv_abc"), sha256_hex("abc"));
    assert_eq!(key_hash("abc"), sha256_hex("abc"));
}

#[test]
fn key_from_bytes_has_prefix_hex_and_named_entry() {
    let k = api_key_from_bytes("ops", &[0u8; 32]);
    let hex = "00".repeat(32);
    assert_eq!(k.plaintext, format!("sv_{hex}"));
    assert_eq!(k.entry, format!("ops:{}", sha256_hex(&hex)));
}

#[test]
fn created_key_is_sv_prefixed_and_validates_against_its_entry() {
    let k = create_key("test-create");
    assert!(k.plaintext.starts_with("sv_"));
    assert_eq!(k.plaintext.len(), 3 + 64);
    assert!(k.plaintext[3..].chars().all(|c| c.is_ascii_hexdigit() && !c.is_ascii_uppercase()));
    let members = vec![k.entry.clone()];
    assert!(validate_key(&k.plaintext, &members));
    assert!(!validate_key("sv_totally_invalid_key_that_does_not_exist_in_redis", &members));
    assert!(!validate_key(&k.plaintext, &[]));
}

#[test]
fn deleting_a_name_removes_only_its_entries() {
    let a = create_key("test-delete");
    let b = create_key("other");
    let members = vec![a.entry.clone(), b.entry.clone()];
    let gone = entries_named("test-delete", &members);
    assert_eq!(gone, vec![a.entry.clone()]);
    let left: Vec<String> = members.into_iter().filter(|m| !gone.contains(m)).collect();
    assert!(!validate_key(&a.plaintext, &left));
    assert!(validate_key(&b.plaintext, &left));
    assert!(entries_named("missing", &left).is_empty());
}

#[test]
fn key_names_are_the_text_before_the_first_colon() {
    let members = s(&["list-key-a:abcd", "list-key-b:ef:01", "no-colon"]);
    assert_eq!(key_names(&members), s(&["list-key-a", "list-key-b"]));
}

#[test]
fn bearer_token_follows_the_bearer_prefix() {
    assert_eq!(bearer_token(Some("Bearer sv_x")), Some("sv_x".to_string()));
    assert_eq!(bearer_token(Some("Basic abc")), None);
    assert_eq!(bearer_token(Some("bearer sv_x")), None);
    assert_eq!(bearer_token(None), None);
}

#[test]
fn auth_gate_decides_before_the_lookup() {
    let skips = s(&["/health"]);
    assert!(auth_skipped("/health/live", &skips));
    assert!(!auth_skipped("/protected", &skips));
    assert_eq!(auth_gate("/health", &skips, true, None), AuthGate::Pass);
    assert_eq!(auth_gate("/protected", &skips, true, None), AuthGate::Reject);
    assert_eq!(auth_gate("/protected", &skips, false, Some("Bearer k")), AuthGate::Reject);
    assert_eq!(
        auth_gate("/protected", &skips, true, Some("Bearer sv_invalid_token")),
        AuthGate::Check("sv_invalid_token".to_string())
    );
}

#[test]
fn store_keys_are_named_by_kind() {
    assert_eq!(entity_key("p:", "gateway", "gw1"), "p:gateway:gw1");
    assert_eq!(entity_pattern("", "trunk"), "trunk:*");
    assert_eq!(refs_key("t_", "trunk:us"), "t_sv:engagement:refs:trunk:us");
    assert_eq!(deps_key("", "gateway:gw1"), "sv:engagement:deps:gateway:gw1");
    assert_eq!(resource_ref("did", "+1555"), "did:+1555");
    assert_eq!(calls_key("t1"), "sv:calls:t1");
    assert_eq!(cps_key("t1"), "sv:cps:t1");
    assert_eq!(health_key("gw"), "sv:health:gw");
    assert_eq!(cps_cutoff(100_000, 60), 40_000);
    assert_eq!(cps_cutoff(0, 1), -1000);
}

fn trunk(name: &str, gws: &[&str]) -> TrunkConfig {
    TrunkConfig {
        name: name.to_string(),
        direction: "both".to_string(),
        gateways: gws.iter().map(|g| GatewayRef { name: g.to_string(), weight: None }).collect(),
        distribution: "round-robin".to_string(),
        codecs: None,
        acl: None,
        credentials: None,
        media: None,
        origination_uris: None,
        translation_classes: None,
        manipulation_classes: None,
        nofailover_sip_codes: None,
    }
}

fn record(trunks: &[&str]) -> RoutingRecord {
    RoutingRecord {
        match_type: MatchType::Lpm,
        value: "1".to_string(),
        compare_op: None,
        match_field: "destination_number".to_string(),
        targets: trunks
            .iter()
            .map(|t| RoutingTarget { trunk: t.to_string(), load_percent: None })
            .collect(),
        jump_to: None,
        priority: 100,
        is_default: false,
    }
}

#[test]
fn resources_reference_what_they_use() {
    assert_eq!(
        trunk_references(&trunk("trunk-eng1", &["gw-eng1", "gw2"])),
        s(&["gateway:gw-eng1", "gateway:gw2"])
    );
    let table = RoutingTableConfig {
        name: "main".to_string(),
        records: vec![record(&["t1", "t2"]), record(&[]), record(&["t3"])],
        description: None,
    };
    assert_eq!(routing_table_references(&table), s(&["trunk:t1", "trunk:t2", "trunk:t3"]));
}

#[test]
fn referenced_resources_cannot_be_deleted() {
    assert_eq!(check_not_engaged("gateway", "gw1", &[]), Ok(()));
    assert_eq!(
        check_not_engaged("gateway", "gw-eng1", &s(&["trunk:trunk-eng1"])),
        Err("cannot delete gateway 'gw-eng1': referenced by trunk:trunk-eng1".to_string())
    );
    assert_eq!(
        check_not_engaged("trunk", "t", &s(&["did:+15551110000", "routing_table:main"])),
        Err("cannot delete trunk 't': referenced by did:+15551110000, routing_table:main".to_string())
    );
}

#[test]
fn untracking_removes_every_reverse_link() {
    let plan = untrack_all_plan("x_", "trunk:a", &s(&["gateway:g1", "gateway:g2"]));
    assert_eq!(
        plan.remove_from,
        s(&["x_sv:engagement:deps:gateway:g1", "x_sv:engagement:deps:gateway:g2"])
    );
    assert_eq!(plan.delete, Some("x_sv:engagement:refs:trunk:a".to_string()));
    let empty = untrack_all_plan("", "trunk:a", &[]);
    assert!(empty.remove_from.is_empty());
    assert_eq!(empty.delete, None);
}
