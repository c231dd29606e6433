use active_call::random::{seed32, seed64, Xorshift32, Xorshift64};
use active_call::redis_state::runtime_state::GatewayHealthStatus;

#[test]
fn xorshift32_steps_from_state() {
    let mut g = Xorshift32 { state: 1 };
    assert_eq!(g.next(), 270369);
    assert_eq!(g.state, 270369);
    assert_eq!(g.next(), 67634689);
}

#[test]
fn xorshift64_steps_from_state() {
    let mut g = Xorshift64 { state: 1 };
    assert_eq!(g.next(), 1082269761);
    assert_eq!(g.state, 1082269761);
}

#[test]
fn unseeded_generators_seed_and_never_yield_zero() {
    let mut a = Xorshift32::new();
    let mut b = Xorshift64::new();
    for _ in 0..1000 {
        assert_ne!(a.next(), 0);
        assert_ne!(b.next(), 0);
    }
}

#[test]
fn seeds_are_odd_and_cut_to_width() {
    assert_eq!(seed32(None), 987654321);
    assert_eq!(seed64(None), 12345678901234567);
    assert_eq!(seed32(Some(0x1_0000_0004)), 5);
    assert_eq!(seed64(Some((1u128 << 64) + 8)), 9);
}

#[test]
fn gateway_health_round_trips_through_text() {
    for s in [GatewayHealthStatus::Active, GatewayHealthStatus::Disabled, GatewayHealthStatus::Unknown] {
        assert_eq!(GatewayHealthStatus::from_str(&s.to_string()), Ok(s));
    }
    assert_eq!(GatewayHealthStatus::from_str("Active"), Ok(GatewayHealthStatus::Unknown));
}
