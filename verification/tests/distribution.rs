use active_call::redis_state::types::GatewayRef;
use active_call::random::Xorshift64;
use active_call::trunk::distribution::{
    select_gateway, select_gateway_with, select_round_robin, select_weight_based, DistributionAlgorithm, SelectionContext,
};
use std::sync::atomic::AtomicU64;

fn gw(name: &str, weight: Option<u32>) -> GatewayRef {
    GatewayRef { name: name.to_string(), weight }
}

fn counter() -> AtomicU64 {
    AtomicU64::new(0)
}

fn ctx_empty(c: &AtomicU64) -> SelectionContext<'_> {
    SelectionContext { call_id: None, src_ip: None, destination: None, counter: c }
}

#[test]
fn test_select_gateway_empty_returns_none() {
    let c = counter();
    let result = select_gateway(&DistributionAlgorithm::RoundRobin, &[], &ctx_empty(&c), &mut Xorshift64::new());
    assert!(result.is_none());
}

#[test]
fn test_select_gateway_single_always_returns_it() {
    let gws = vec![gw("gw1", Some(100))];
    let c = counter();
    for algo in [
        DistributionAlgorithm::WeightBased,
        DistributionAlgorithm::RoundRobin,
        DistributionAlgorithm::HashCallId,
        DistributionAlgorithm::HashSrcIp,
        DistributionAlgorithm::HashDestination,
    ] {
        let result = select_gateway(&algo, &gws, &ctx_empty(&c), &mut Xorshift64::new());
        assert_eq!(result.map(|g| &g.name), Some(&"gw1".to_string()));
    }
}

#[test]
fn test_round_robin_cycles_evenly() {
    let gws = vec![gw("gw1", None), gw("gw2", None), gw("gw3", None)];
    let c = counter();
    let mut counts = std::collections::HashMap::new();
    for _ in 0..99 {
        let r = select_gateway(&DistributionAlgorithm::RoundRobin, &gws, &ctx_empty(&c), &mut Xorshift64::new());
        *counts.entry(r.unwrap().name.clone()).or_insert(0u32) += 1;
    }
    assert_eq!(counts["gw1"], 33);
    assert_eq!(counts["gw2"], 33);
    assert_eq!(counts["gw3"], 33);
}

#[test]
fn test_weight_based_distribution_proportional() {
    let gws = vec![gw("gw1", Some(60)), gw("gw2", Some(40))];
    let c = counter();
    let n = 1000u32;
    let mut rng = Xorshift64::new();
    let mut counts = std::collections::HashMap::new();
    for _ in 0..n {
        let r = select_gateway(&DistributionAlgorithm::WeightBased, &gws, &ctx_empty(&c), &mut rng);
        *counts.entry(r.unwrap().name.clone()).or_insert(0u32) += 1;
    }
    let gw1_ratio = counts["gw1"] as f64 / n as f64;
    let gw2_ratio = counts["gw2"] as f64 / n as f64;
    assert!((gw1_ratio - 0.60).abs() < 0.15, "gw1 ratio {gw1_ratio:.3} not near 0.60");
    assert!((gw2_ratio - 0.40).abs() < 0.15, "gw2 ratio {gw2_ratio:.3} not near 0.40");
}

#[test]
fn test_hash_callid_deterministic() {
    let gws = vec![gw("gw1", None), gw("gw2", None), gw("gw3", None)];
    let c = counter();
    let ctx = SelectionContext { call_id: Some("abc123@host"), src_ip: None, destination: None, counter: &c };
    let first = select_gateway(&DistributionAlgorithm::HashCallId, &gws, &ctx, &mut Xorshift64::new()).unwrap().name.clone();
    for _ in 0..20 {
        let result = select_gateway(&DistributionAlgorithm::HashCallId, &gws, &ctx, &mut Xorshift64::new()).unwrap().name.clone();
        assert_eq!(result, first, "hash_callid should be deterministic");
    }
}

#[test]
fn test_hash_src_ip_deterministic() {
    let gws = vec![gw("gw1", None), gw("gw2", None)];
    let c = counter();
    let ctx = SelectionContext { call_id: None, src_ip: Some("192.168.1.100"), destination: None, counter: &c };
    let first = select_gateway(&DistributionAlgorithm::HashSrcIp, &gws, &ctx, &mut Xorshift64::new()).unwrap().name.clone();
    for _ in 0..10 {
        let result = select_gateway(&DistributionAlgorithm::HashSrcIp, &gws, &ctx, &mut Xorshift64::new()).unwrap().name.clone();
        assert_eq!(result, first, "hash_src_ip should be deterministic");
    }
}

#[test]
fn test_hash_destination_deterministic() {
    let gws = vec![gw("gw1", None), gw("gw2", None), gw("gw3", None)];
    let c = counter();
    let ctx = SelectionContext { call_id: None, src_ip: None, destination: Some("+15551234567"), counter: &c };
    let first = select_gateway(&DistributionAlgorithm::HashDestination, &gws, &ctx, &mut Xorshift64::new()).unwrap().name.clone();
    for _ in 0..10 {
        let result = select_gateway(&DistributionAlgorithm::HashDestination, &gws, &ctx, &mut Xorshift64::new()).unwrap().name.clone();
        assert_eq!(result, first, "hash_destination should be deterministic");
    }
}

#[test]
fn test_distribution_algorithm_from_str() {
    assert_eq!(DistributionAlgorithm::from_str("weight_based"), DistributionAlgorithm::WeightBased);
    assert_eq!(DistributionAlgorithm::from_str("round-robin"), DistributionAlgorithm::RoundRobin);
    assert_eq!(DistributionAlgorithm::from_str("hash_callid"), DistributionAlgorithm::HashCallId);
    assert_eq!(DistributionAlgorithm::from_str("hash_src_ip"), DistributionAlgorithm::HashSrcIp);
    assert_eq!(DistributionAlgorithm::from_str("hash_destination"), DistributionAlgorithm::HashDestination);
    assert_eq!(DistributionAlgorithm::from_str("unknown"), DistributionAlgorithm::WeightBased);
}

#[test]
fn weight_based_ticket_intervals() {
    let gws = vec![gw("a", Some(60)), gw("b", Some(40))];
    assert_eq!(select_weight_based(&gws, 0).name, "a");
    assert_eq!(select_weight_based(&gws, 59).name, "a");
    assert_eq!(select_weight_based(&gws, 60).name, "b");
    assert_eq!(select_weight_based(&gws, 99).name, "b");
    assert_eq!(select_weight_based(&gws, 100).name, "a");
    let zero = vec![gw("z1", Some(0)), gw("z2", Some(0))];
    assert_eq!(select_weight_based(&zero, 7).name, "z1");
}

#[test]
fn round_robin_ticket_modulo() {
    let gws = vec![gw("a", None), gw("b", None), gw("c", None)];
    assert_eq!(select_round_robin(&gws, 4).name, "b");
    assert_eq!(select_round_robin(&gws, 3).name, "a");
}

#[test]
fn round_robin_pick_follows_the_ticket() {
    let gws = vec![gw("gw1", None), gw("gw2", None), gw("gw3", None)];
    let c = counter();
    let names: Vec<String> = (0u64..7)
        .map(|t| {
            select_gateway_with(&DistributionAlgorithm::RoundRobin, &gws, &ctx_empty(&c), t, &mut Xorshift64::new())
                .unwrap()
                .name
                .clone()
        })
        .collect();
    assert_eq!(names, vec!["gw1", "gw2", "gw3", "gw1", "gw2", "gw3", "gw1"]);
}

#[test]
fn round_robin_draws_consecutive_tickets_from_the_counter() {
    let gws = vec![gw("gw1", None), gw("gw2", None)];
    let c = AtomicU64::new(5);
    let a = select_gateway(&DistributionAlgorithm::RoundRobin, &gws, &ctx_empty(&c), &mut Xorshift64::new());
    let b = select_gateway(&DistributionAlgorithm::RoundRobin, &gws, &ctx_empty(&c), &mut Xorshift64::new());
    assert_eq!(a.unwrap().name, "gw2");
    assert_eq!(b.unwrap().name, "gw1");
    assert_eq!(c.load(std::sync::atomic::Ordering::Relaxed), 7);
}
