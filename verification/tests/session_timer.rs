use active_call::clock::unix_time_millis;
use active_call::proxy::session_timer::{
    extract_session_expires, parse_session_expires, SipHeader, SessionRefresher, SessionTimerState, DEFAULT_SESSION_EXPIRES, MIN_MIN_SE,
};

#[test]
fn test_should_refresh_at_half_interval() {
    let mut state = SessionTimerState {
        enabled: true,
        active: true,
        session_interval: 200,
        last_refresh: unix_time_millis(),
        ..Default::default()
    };
    assert!(!state.should_refresh());
    state.last_refresh = unix_time_millis() - 110;
    assert!(state.should_refresh());
}

#[test]
fn test_is_expired_at_full_interval() {
    let mut state = SessionTimerState {
        enabled: true,
        active: true,
        session_interval: 200,
        last_refresh: unix_time_millis(),
        ..Default::default()
    };
    assert!(!state.is_expired());
    state.last_refresh = unix_time_millis() - 210;
    assert!(state.is_expired());
}

#[test]
fn test_not_expired_when_disabled() {
    let mut state = SessionTimerState::default();
    state.last_refresh = unix_time_millis() - 3_600_000;
    assert!(!state.is_expired());
    state.enabled = true;
    assert!(!state.is_expired());
}

#[test]
fn test_parse_session_expires_with_refresher() {
    let (dur, refresher) = parse_session_expires("1800;refresher=uac").unwrap();
    assert_eq!(dur, 1800);
    assert_eq!(refresher, Some(SessionRefresher::Uac));

    let (dur, refresher) = parse_session_expires("900 ; refresher=uas").unwrap();
    assert_eq!(dur, 900);
    assert_eq!(refresher, Some(SessionRefresher::Uas));
}

#[test]
fn test_parse_session_expires_without_refresher() {
    let (dur, refresher) = parse_session_expires("1800").unwrap();
    assert_eq!(dur, 1800);
    assert_eq!(refresher, None);
}

#[test]
fn test_start_complete_refresh_cycle() {
    let mut state = SessionTimerState {
        enabled: true,
        active: true,
        ..Default::default()
    };
    assert!(state.start_refresh());
    assert!(state.refreshing);
    assert!(!state.start_refresh());
    state.complete_refresh();
    assert!(!state.refreshing);
    assert_eq!(state.refresh_count, 1);
    assert!(state.start_refresh());
}

#[test]
fn test_fail_refresh_increments_counter() {
    let mut state = SessionTimerState {
        enabled: true,
        active: true,
        ..Default::default()
    };
    assert!(state.start_refresh());
    state.fail_refresh();
    assert!(!state.refreshing);
    assert_eq!(state.failed_refreshes, 1);
    assert!(state.start_refresh());
    state.fail_refresh();
    assert_eq!(state.failed_refreshes, 2);
}

#[test]
fn test_default_values() {
    let state = SessionTimerState::default();
    assert!(!state.enabled);
    assert!(!state.active);
    assert!(!state.refreshing);
    assert_eq!(state.session_interval, DEFAULT_SESSION_EXPIRES * 1000);
    assert_eq!(state.min_se, MIN_MIN_SE * 1000);
    assert_eq!(state.refresher, SessionRefresher::Uac);
    assert_eq!(state.refresh_count, 0);
    assert_eq!(state.failed_refreshes, 0);
    assert_eq!(state.get_session_expires_value(), "1800;refresher=uac");
    assert_eq!(state.get_min_se_value(), "90");
}

#[test]
fn parse_session_expires_rejects_non_numeric() {
    assert_eq!(parse_session_expires("abc;refresher=uac"), None);
    assert_eq!(parse_session_expires(""), None);
}

#[test]
fn parse_session_expires_refresher_case_and_last_wins() {
    let (d, r) = parse_session_expires("+60;refresher=UAS;foo=bar").unwrap();
    assert_eq!(d, 60);
    assert_eq!(r, Some(SessionRefresher::Uas));
    let (_, r) = parse_session_expires("60;refresher=uac;refresher=xyz").unwrap();
    assert_eq!(r, None);
}

#[test]
fn refresher_text_round_trip() {
    assert_eq!(SessionRefresher::Uac.to_string(), "uac");
    assert_eq!(SessionRefresher::from_str("UAS"), Ok(SessionRefresher::Uas));
    assert!(SessionRefresher::from_str("x").is_err());
}

#[test]
fn timer_deadlines_at_fixed_times() {
    let state = SessionTimerState {
        enabled: true,
        active: true,
        session_interval: 1000,
        last_refresh: 5000,
        ..Default::default()
    };
    assert_eq!(state.next_refresh_time(), Some(5500));
    assert_eq!(state.expiration_time(), Some(6000));
    assert_eq!(state.time_until_refresh_at(5200), Some(300));
    assert_eq!(state.time_until_expiration_at(7000), Some(0));
    assert!(state.should_refresh_at(5500));
    assert!(!state.should_refresh_at(5499));
    assert!(state.is_expired_at(6000));
    assert!(!state.is_expired_at(5999));
}

#[test]
fn session_expires_is_read_from_the_first_untyped_header() {
    let h = |name: &str, value: &str, typed: bool| SipHeader {
        name: name.to_string(),
        value: value.to_string(),
        typed,
    };
    let headers = vec![
        h("Via", "SIP/2.0/UDP a", true),
        h("session-expires", "1800;refresher=uac", false),
        h("Session-Expires", "90", false),
    ];
    assert_eq!(extract_session_expires(&headers), Some("1800;refresher=uac".to_string()));
    assert_eq!(extract_session_expires(&[h("Session-Expires", "90", true)]), None);
    assert_eq!(extract_session_expires(&[h("Session-Expire", "90", false)]), None);
    assert_eq!(extract_session_expires(&[]), None);
}

#[test]
fn session_expires_value_reads_back() {
    for refresher in [SessionRefresher::Uac, SessionRefresher::Uas] {
        let mut state = SessionTimerState::default();
        state.session_interval = 1_234_567;
        state.refresher = refresher;
        let text = state.get_session_expires_value();
        assert_eq!(parse_session_expires(&text), Some((1234, Some(refresher))));
    }
}
