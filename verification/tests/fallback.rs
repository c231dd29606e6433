use active_call::resilience::fallback::{
    classify_error, classify_message, classify_reason, classify_reason_text, FailureKind, FallbackBudget,
};

#[test]
fn classifies_5xx_as_retryable() {
    let e = anyhow::Error::msg("upstream returned HTTP 503 Service Unavailable");
    assert_eq!(classify_error(&e), FailureKind::Retryable);
}

#[test]
fn classifies_4xx_as_terminal() {
    let e = anyhow::Error::msg("HTTP 401 Unauthorized: invalid api key");
    assert_eq!(classify_error(&e), FailureKind::Terminal);
}

#[test]
fn classifies_400_as_terminal() {
    let e = anyhow::Error::msg("400 Bad Request: malformed body");
    assert_eq!(classify_error(&e), FailureKind::Terminal);
}

#[test]
fn classifies_timeout_as_retryable() {
    let e = anyhow::Error::msg("request timed out after 10s");
    assert_eq!(classify_error(&e), FailureKind::Retryable);
}

#[test]
fn classifies_connection_error_as_retryable() {
    let e = anyhow::Error::msg("connection refused: dial tcp 1.2.3.4:443");
    assert_eq!(classify_error(&e), FailureKind::Retryable);
}

#[test]
fn classifies_websocket_drop_as_retryable() {
    let e = anyhow::Error::msg("websocket closed unexpectedly");
    assert_eq!(classify_error(&e), FailureKind::Retryable);
}

#[test]
fn unknown_errors_default_to_retryable() {
    let e = anyhow::Error::msg("some weird thing happened");
    assert_eq!(classify_error(&e), FailureKind::Retryable);
}

#[test]
fn message_classification_is_case_insensitive() {
    assert_eq!(classify_message("FORBIDDEN by policy"), FailureKind::Terminal);
    assert_eq!(classify_message("Invalid Request"), FailureKind::Terminal);
    assert_eq!(classify_message("HTTP 502"), FailureKind::Retryable);
}

#[test]
fn reason_tags() {
    assert_eq!(classify_reason_text("Request TIMED OUT"), "timeout");
    assert_eq!(classify_reason_text("connection refused"), "connection");
    assert_eq!(classify_reason_text("bad status 503"), "5xx");
    assert_eq!(classify_reason_text("status 404"), "4xx");
    assert_eq!(classify_reason_text("nope"), "other");
    assert_eq!(classify_reason(&anyhow::Error::msg("timeout")), "timeout");
    assert_eq!(FallbackBudget::default().total, 8000);
}

#[test]
fn classification_reads_the_error_text() {
    let timeout = anyhow::Error::msg("request Timed Out");
    assert_eq!(
        active_call::resilience::fallback::classify_error(&timeout),
        active_call::resilience::fallback::FailureKind::Retryable
    );
    let denied = anyhow::Error::msg("HTTP 401 Unauthorized");
    assert_eq!(
        active_call::resilience::fallback::classify_error(&denied),
        active_call::resilience::fallback::FailureKind::Terminal
    );
    assert_eq!(active_call::resilience::fallback::classify_reason(&timeout), "timeout");
}
