use std::collections::HashMap;

use active_call::redis_state::types::{MatchType, RoutingRecord, RoutingTarget};
use active_call::random::Xorshift32;
use active_call::routing::engine::{resolve_field, select_target, select_target_with, RouteContext};
use active_call::routing::resolve::{
    check_depth, compare_text, handle_matched, next_candidate, table_not_found, MatchAction,
    ScanStep, TableScan,
};

fn record(match_type: MatchType, value: &str, trunk: &str, priority: u32) -> RoutingRecord {
    RoutingRecord {
        match_type,
        value: value.to_string(),
        compare_op: None,
        match_field: "destination_number".to_string(),
        targets: vec![RoutingTarget { trunk: trunk.to_string(), load_percent: None }],
        jump_to: None,
        priority,
        is_default: false,
    }
}

fn default_record(trunk: &str) -> RoutingRecord {
    RoutingRecord { priority: 9999, is_default: true, ..record(MatchType::ExactMatch, "", trunk, 9999) }
}

fn jump_record(value: &str, jump_to: &str) -> RoutingRecord {
    RoutingRecord {
        targets: vec![],
        jump_to: Some(jump_to.to_string()),
        ..record(MatchType::Lpm, value, "", 100)
    }
}

fn ctx(dest: &str) -> RouteContext {
    RouteContext {
        destination_number: dest.to_string(),
        caller_number: "+10000000001".to_string(),
        caller_name: None,
    }
}

/// Drives the verified scan over in-memory tables, answering comparisons
/// textually and HTTP queries with nothing.
fn resolve(tables: &HashMap<String, Vec<RoutingRecord>>, start: &str, c: &RouteContext) -> Result<Option<String>, String> {
    let mut table = start.to_string();
    let mut depth = 0u32;
    loop {
        check_depth(depth)?;
        let records = tables.get(&table).ok_or_else(|| table_not_found(&table))?;
        let mut scan = TableScan::new(records, c);
        let mut step = scan.advance(records, c);
        let matched = loop {
            match step {
                ScanStep::NeedCompare(i) => {
                    let r = &records[i];
                    let field = resolve_field(c, &r.match_field);
                    let op = r.compare_op.as_deref().unwrap_or("eq");
                    let ok = compare_text(field, op, &r.value);
                    step = scan.answer_compare(records, c, ok);
                }
                ScanStep::NeedHttp(_) => step = scan.answer_http(records, c, None),
                ScanStep::HttpRouted(_, t) => return Ok(Some(t)),
                ScanStep::Matched(i) | ScanStep::Default(i) => break i,
                ScanStep::NoMatch => return Ok(None),
            }
        };
        match handle_matched(&records[matched], &table, depth, 0)? {
            MatchAction::Jump { table: t, depth: d } => {
                table = t;
                depth = d;
            }
            MatchAction::Routed(r) => return Ok(Some(r.trunk)),
        }
    }
}

fn tables(list: Vec<(&str, Vec<RoutingRecord>)>) -> HashMap<String, Vec<RoutingRecord>> {
    list.into_iter().map(|(n, r)| (n.to_string(), r)).collect()
}

#[test]
fn test_select_target_single() {
    let targets = vec![RoutingTarget { trunk: "trunk-a".to_string(), load_percent: Some(100) }];
    assert_eq!(select_target(&targets, &mut Xorshift32::new()), Some("trunk-a"));
}

#[test]
fn test_select_target_empty_returns_none() {
    assert_eq!(select_target(&[], &mut Xorshift32::new()), None);
}

#[test]
fn test_select_target_weighted_distribution() {
    let targets = vec![
        RoutingTarget { trunk: "trunk-primary".to_string(), load_percent: Some(80) },
        RoutingTarget { trunk: "trunk-secondary".to_string(), load_percent: Some(20) },
    ];

    let n = 1000u32;
    let mut rng = Xorshift32::new();
    let mut primary_count = 0u32;
    for _ in 0..n {
        if select_target(&targets, &mut rng) == Some("trunk-primary") {
            primary_count += 1;
        }
    }

    let ratio = primary_count as f64 / n as f64;
    assert!((ratio - 0.80).abs() < 0.10, "primary ratio {ratio:.3} not near 0.80");
}

#[test]
fn select_target_with_ticket_boundaries() {
    let targets = vec![
        RoutingTarget { trunk: "a".to_string(), load_percent: Some(80) },
        RoutingTarget { trunk: "b".to_string(), load_percent: Some(20) },
    ];
    assert_eq!(select_target_with(&targets, 79), Some("a"));
    assert_eq!(select_target_with(&targets, 80), Some("b"));
    assert_eq!(select_target_with(&targets, 179), Some("a"));
    let zero = vec![
        RoutingTarget { trunk: "z1".to_string(), load_percent: Some(0) },
        RoutingTarget { trunk: "z2".to_string(), load_percent: Some(0) },
    ];
    assert_eq!(select_target_with(&zero, 5), Some("z1"));
}

#[test]
fn resolve_lpm_longest_prefix_wins() {
    let t = tables(vec![(
        "lpm-test",
        vec![
            record(MatchType::Lpm, "+1", "trunk-us", 100),
            record(MatchType::Lpm, "+1415", "trunk-sf", 90),
            record(MatchType::Lpm, "+14155", "trunk-sf5", 80),
        ],
    )]);
    assert_eq!(resolve(&t, "lpm-test", &ctx("+14155551234")), Ok(Some("trunk-sf5".to_string())));
    assert_eq!(resolve(&t, "lpm-test", &ctx("+14161234567")), Ok(Some("trunk-us".to_string())));
}

#[test]
fn resolve_exact_and_regex() {
    let t = tables(vec![
        (
            "exact-test",
            vec![
                record(MatchType::ExactMatch, "sip:user@domain.com", "trunk-sip", 100),
                record(MatchType::ExactMatch, "+14155551234", "trunk-exact", 100),
            ],
        ),
        ("regex-test", vec![record(MatchType::Regex, r"^\+1415\d{7}$", "trunk-415", 100)]),
        ("bad-regex", vec![record(MatchType::Regex, r"(unclosed", "trunk-x", 100)]),
    ]);
    assert_eq!(resolve(&t, "exact-test", &ctx("+14155551234")), Ok(Some("trunk-exact".to_string())));
    assert_eq!(resolve(&t, "exact-test", &ctx("sip:user@domain")), Ok(None));
    assert_eq!(resolve(&t, "regex-test", &ctx("+14151234567")), Ok(Some("trunk-415".to_string())));
    assert_eq!(resolve(&t, "regex-test", &ctx("+14161234567")), Ok(None));
    assert_eq!(resolve(&t, "bad-regex", &ctx("(unclosed")), Ok(None));
}

#[test]
fn resolve_compare_and_priority_order() {
    let mut cmp = record(MatchType::Compare, "100", "trunk-100", 100);
    cmp.compare_op = Some("eq".to_string());
    let t = tables(vec![
        ("compare-test", vec![cmp]),
        (
            "prio",
            vec![
                record(MatchType::Lpm, "+1", "trunk-late", 50),
                record(MatchType::ExactMatch, "+1555", "trunk-early", 10),
            ],
        ),
    ]);
    assert_eq!(resolve(&t, "compare-test", &ctx("100")), Ok(Some("trunk-100".to_string())));
    assert_eq!(resolve(&t, "compare-test", &ctx("200")), Ok(None));
    assert_eq!(resolve(&t, "prio", &ctx("+1555")), Ok(Some("trunk-early".to_string())));
}

#[test]
fn resolve_jumps_and_depth_limit() {
    let mut list = vec![];
    for i in 0..10usize {
        list.push((format!("table-{i}"), vec![jump_record("+1", &format!("table-{}", i + 1))]));
    }
    list.push(("table-10".to_string(), vec![record(MatchType::Lpm, "+1", "trunk-deep", 100)]));
    for i in 0..11usize {
        list.push((format!("chain-{i}"), vec![jump_record("+1", &format!("chain-{}", i + 1))]));
    }
    list.push(("chain-11".to_string(), vec![record(MatchType::Lpm, "+1", "trunk-never", 100)]));
    let t: HashMap<String, Vec<RoutingRecord>> = list.into_iter().collect();
    assert_eq!(resolve(&t, "table-0", &ctx("+14155551234")), Ok(Some("trunk-deep".to_string())));
    let err = resolve(&t, "chain-0", &ctx("+14155551234")).unwrap_err();
    assert!(err.contains("max depth"), "expected max depth error, got: {err}");
    assert_eq!(err, "routing loop: max depth 10 exceeded");
    assert_eq!(
        resolve(&t, "missing", &ctx("+1")).unwrap_err(),
        "routing table 'missing' not found"
    );
}

#[test]
fn resolve_default_record_used_as_fallback() {
    let t = tables(vec![(
        "default-test",
        vec![record(MatchType::ExactMatch, "+14155551234", "trunk-specific", 100), default_record("trunk-default")],
    )]);
    assert_eq!(resolve(&t, "default-test", &ctx("+14155551234")), Ok(Some("trunk-specific".to_string())));
    assert_eq!(resolve(&t, "default-test", &ctx("+33123456789")), Ok(Some("trunk-default".to_string())));
}

#[test]
fn record_without_targets_is_an_error() {
    let mut r = record(MatchType::Lpm, "+1", "x", 100);
    r.targets.clear();
    assert_eq!(
        handle_matched(&r, "t", 0, 0).err(),
        Some("routing record matched but has no targets".to_string())
    );
}

#[test]
fn scan_asks_for_http_and_routes_on_answer() {
    let records = vec![record(MatchType::HttpQuery, "http://x/route", "", 100)];
    let c = ctx("+1");
    let mut scan = TableScan::new(&records, &c);
    assert_eq!(scan.advance(&records, &c), ScanStep::NeedHttp(0));
    assert_eq!(
        scan.answer_http(&records, &c, Some("trunk-from-api".to_string())),
        ScanStep::HttpRouted(0, "trunk-from-api".to_string())
    );
}

#[test]
fn next_candidate_follows_priority_then_position() {
    let records = vec![
        record(MatchType::Lpm, "a", "t", 20),
        record(MatchType::Lpm, "b", "t", 10),
        default_record("d"),
        record(MatchType::Lpm, "c", "t", 10),
    ];
    assert_eq!(next_candidate(&records, None), Some(1));
    assert_eq!(next_candidate(&records, Some(1)), Some(3));
    assert_eq!(next_candidate(&records, Some(3)), Some(0));
    assert_eq!(next_candidate(&records, Some(0)), None);
}

#[test]
fn text_comparisons() {
    assert!(compare_text("abc", "eq", "abc"));
    assert!(compare_text("abc", "ne", "abd"));
    assert!(compare_text("b", "gt", "abc"));
    assert!(compare_text("ab", "lt", "abc"));
    assert!(compare_text("abc", "gte", "abc"));
    assert!(compare_text("abc", "lte", "abd"));
    assert!(!compare_text("abc", "approx", "abc"));
}

#[test]
fn unweighted_targets_give_the_first_trunk() {
    let targets = vec![
        RoutingTarget { trunk: "trunk-a".to_string(), load_percent: None },
        RoutingTarget { trunk: "trunk-b".to_string(), load_percent: None },
    ];
    let mut rng = Xorshift32::new();
    for _ in 0..50 {
        assert_eq!(select_target(&targets, &mut rng), Some("trunk-a"));
    }
    assert_eq!(rng.state, 0);
    assert_eq!(select_target_with(&targets, 1), Some("trunk-a"));
}
