use active_call::resilience::circuit_breaker::{CircuitBreaker, CircuitBreakerConfig, CircuitState};

fn cfg() -> CircuitBreakerConfig {
    CircuitBreakerConfig {
        failure_threshold: 3,
        window: 60_000,
        cooldown: 100,
        max_cooldown: 800,
    }
}

const T0: u64 = 1_700_000_000_000;

#[test]
fn closed_breaker_allows_requests() {
    let mut cb = CircuitBreaker::new(cfg());
    assert_eq!(cb.state(), CircuitState::Closed);
    let p = cb.try_acquire().expect("should permit when closed");
    cb.record_success(p);
    assert_eq!(cb.state(), CircuitState::Closed);
}

#[test]
fn opens_after_threshold_failures() {
    let mut cb = CircuitBreaker::new(cfg());
    let now = T0;
    for _ in 0..3 {
        let p = cb.try_acquire_at(now).expect("permit");
        cb.record_failure_at(p, now);
    }
    assert_eq!(cb.state(), CircuitState::Open);
    assert!(cb.try_acquire_at(now).is_none());
}

#[test]
fn does_not_open_if_failures_outside_window() {
    let mut cb = CircuitBreaker::new(cfg());
    let t0 = T0;
    for _ in 0..2 {
        let p = cb.try_acquire_at(t0).expect("permit");
        cb.record_failure_at(p, t0);
    }
    let later = t0 + 90_000;
    let p = cb.try_acquire_at(later).expect("permit");
    cb.record_failure_at(p, later);
    assert_eq!(cb.state(), CircuitState::Closed);
}

#[test]
fn half_opens_after_cooldown() {
    let mut cb = CircuitBreaker::new(cfg());
    let t0 = T0;
    for _ in 0..3 {
        let p = cb.try_acquire_at(t0).expect("permit");
        cb.record_failure_at(p, t0);
    }
    assert_eq!(cb.state(), CircuitState::Open);
    let trial_at = t0 + 100;
    let permit = cb.try_acquire_at(trial_at).expect("trial permit after cooldown");
    assert_eq!(cb.state(), CircuitState::HalfOpen);
    cb.record_success_at(permit, trial_at);
    assert_eq!(cb.state(), CircuitState::Closed);
}

#[test]
fn trial_failure_doubles_cooldown() {
    let mut cb = CircuitBreaker::new(cfg());
    let t0 = T0;
    for _ in 0..3 {
        let p = cb.try_acquire_at(t0).expect("permit");
        cb.record_failure_at(p, t0);
    }
    let trial1 = t0 + 100;
    let p = cb.try_acquire_at(trial1).expect("trial");
    cb.record_failure_at(p, trial1);
    assert_eq!(cb.state(), CircuitState::Open);
    let too_early = trial1 + 150;
    assert!(cb.try_acquire_at(too_early).is_none());
    let trial2 = trial1 + 200;
    let p = cb.try_acquire_at(trial2).expect("second trial");
    cb.record_failure_at(p, trial2);
    let too_early_2 = trial2 + 300;
    assert!(cb.try_acquire_at(too_early_2).is_none());
    let trial3 = trial2 + 400;
    assert!(cb.try_acquire_at(trial3).is_some());
}

#[test]
fn cooldown_capped_at_max() {
    let mut config = cfg();
    config.cooldown = 500;
    config.max_cooldown = 800;
    let mut cb = CircuitBreaker::new(config);
    let t0 = T0;
    for _ in 0..3 {
        let p = cb.try_acquire_at(t0).expect("permit");
        cb.record_failure_at(p, t0);
    }
    let mut t = t0 + 500;
    for _ in 0..5 {
        let p = cb.try_acquire_at(t).expect("trial");
        cb.record_failure_at(p, t);
        t += 800;
    }
    assert_eq!(cb.current_cooldown(), 800);
}

#[test]
fn success_resets_cooldown_to_initial() {
    let mut cb = CircuitBreaker::new(cfg());
    let t0 = T0;
    for _ in 0..3 {
        let p = cb.try_acquire_at(t0).expect("permit");
        cb.record_failure_at(p, t0);
    }
    let trial1 = t0 + 100;
    let p = cb.try_acquire_at(trial1).expect("trial");
    cb.record_failure_at(p, trial1);
    let trial2 = trial1 + 200;
    let p = cb.try_acquire_at(trial2).expect("trial");
    cb.record_success_at(p, trial2);
    let later = trial2 + 120_000;
    for _ in 0..3 {
        let p = cb.try_acquire_at(later).expect("permit");
        cb.record_failure_at(p, later);
    }
    let too_early = later + 50;
    assert!(cb.try_acquire_at(too_early).is_none());
    let after_initial = later + 100;
    assert!(cb.try_acquire_at(after_initial).is_some());
}

#[test]
fn second_caller_blocked_during_half_open_trial() {
    let mut cb = CircuitBreaker::new(cfg());
    let t0 = T0;
    for _ in 0..3 {
        let p = cb.try_acquire_at(t0).expect("permit");
        cb.record_failure_at(p, t0);
    }
    let trial_at = t0 + 100;
    let _trial_permit = cb.try_acquire_at(trial_at).expect("first trial");
    assert_eq!(cb.state(), CircuitState::HalfOpen);
    assert!(cb.try_acquire_at(trial_at).is_none());
}

#[test]
fn default_config_values() {
    let c = CircuitBreakerConfig::default();
    assert_eq!(c.failure_threshold, 3);
    assert_eq!(c.window, 60_000);
    assert_eq!(c.cooldown, 30_000);
    assert_eq!(c.max_cooldown, 300_000);
}

#[test]
fn trial_permit_is_marked() {
    let mut cb = CircuitBreaker::new(cfg());
    let p = cb.try_acquire_at(T0).unwrap();
    assert!(!p.is_trial());
    cb.record_failure_at(p, T0);
    for _ in 0..2 {
        let p = cb.try_acquire_at(T0).unwrap();
        cb.record_failure_at(p, T0);
    }
    let p = cb.try_acquire_at(T0 + 100).unwrap();
    assert!(p.is_trial());
    cb.record_success_at(p, T0 + 100);
}
