use active_call::playbook::handler::fallback_provider::{duration_debug, FallbackLlmProvider};
use active_call::resilience::chain::{ChainReport, ChainStep};
use active_call::resilience::circuit_breaker::{CircuitBreaker, CircuitBreakerConfig, CircuitState};
use active_call::resilience::fallback::{classify_error, FallbackBudget};
use active_call::resilience::providers::ProviderEntry;
use active_call::synthesis::fallback::FallbackSynthesisClient;
use active_call::transcription::fallback::FallbackTranscriptionClient;

/// A scripted provider: each call takes the next result.
struct Mock {
    results: Vec<Result<(), String>>,
    calls: usize,
}

impl Mock {
    fn new(results: Vec<Result<(), &str>>) -> Mock {
        Mock { results: results.into_iter().map(|r| r.map_err(|e| e.to_string())).collect(), calls: 0 }
    }

    fn call(&mut self, name: &str) -> Result<(), String> {
        self.calls += 1;
        if self.results.is_empty() {
            return Err(format!("mock {name} exhausted"));
        }
        self.results.remove(0)
    }
}

fn entry(name: &str) -> ProviderEntry {
    ProviderEntry {
        name: name.to_string(),
        breaker: CircuitBreaker::new(CircuitBreakerConfig { failure_threshold: 2, ..CircuitBreakerConfig::default() }),
    }
}

/// One send through the recognition chain, as the client's caller does it.
fn send(client: &mut FallbackTranscriptionClient, mocks: &mut [Mock]) -> Result<(), String> {
    let mut walk = client.begin_send();
    loop {
        match client.next_provider(&mut walk, 1_000) {
            ChainStep::Exhausted => return Err(client.exhausted_error()),
            ChainStep::Attempt(i) => {
                let name = client.names[i].clone();
                let res = mocks[i].call(&name);
                let outcome = match &res {
                    Ok(()) => None,
                    Err(e) => Some(classify_error(&anyhow::Error::msg(e.clone()))),
                };
                match client.report(&mut walk, outcome, 1_000) {
                    ChainReport::Served(_) => return Ok(()),
                    ChainReport::Stopped => return Err(res.unwrap_err()),
                    ChainReport::Next => {}
                }
            }
        }
    }
}

#[test]
fn primary_success_does_not_touch_secondary() {
    let mut mocks = [Mock::new(vec![Ok(())]), Mock::new(vec![])];
    let mut client = FallbackTranscriptionClient::new(vec![entry("primary"), entry("secondary")]).unwrap();
    send(&mut client, &mut mocks).unwrap();
    assert_eq!(mocks[0].calls, 1);
    assert_eq!(mocks[1].calls, 0);
}

#[test]
fn fails_over_on_retryable_error() {
    let mut mocks = [Mock::new(vec![Err("connection reset")]), Mock::new(vec![Ok(())])];
    let mut client = FallbackTranscriptionClient::new(vec![entry("primary"), entry("secondary")]).unwrap();
    send(&mut client, &mut mocks).unwrap();
    assert_eq!(mocks[0].calls, 1);
    assert_eq!(mocks[1].calls, 1);
}

#[test]
fn does_not_fail_over_on_terminal_error() {
    let mut mocks = [Mock::new(vec![Err("HTTP 401 Unauthorized")]), Mock::new(vec![Ok(())])];
    let mut client = FallbackTranscriptionClient::new(vec![entry("primary"), entry("secondary")]).unwrap();
    let res = send(&mut client, &mut mocks);
    assert!(res.is_err());
    assert_eq!(mocks[0].calls, 1);
    assert_eq!(mocks[1].calls, 0);
}

#[test]
fn sticky_active_index_avoids_reprobing_failed_primary() {
    let mut mocks = [Mock::new(vec![Err("connection refused"), Ok(())]), Mock::new(vec![Ok(()), Ok(())])];
    let mut client = FallbackTranscriptionClient::new(vec![entry("primary"), entry("secondary")]).unwrap();

    send(&mut client, &mut mocks).unwrap();
    assert_eq!(mocks[0].calls, 1);
    assert_eq!(mocks[1].calls, 1);

    send(&mut client, &mut mocks).unwrap();
    assert_eq!(mocks[0].calls, 1, "primary should not be re-probed");
    assert_eq!(mocks[1].calls, 2);
}

#[test]
fn errors_when_all_providers_exhausted() {
    let mut mocks = [Mock::new(vec![Err("connection error")]), Mock::new(vec![Err("connection error")])];
    let mut client = FallbackTranscriptionClient::new(vec![entry("primary"), entry("secondary")]).unwrap();
    let res = send(&mut client, &mut mocks);
    assert!(res.is_err());
    assert!(res.unwrap_err().contains("all"));
    assert_eq!(client.exhausted_error(), "all 2 ASR providers failed or are open");
}

#[test]
fn fallback_empty_provider_list_rejected() {
    let res = FallbackTranscriptionClient::new(vec![]);
    assert!(res.is_err());
    assert_eq!(res.unwrap_err(), "FallbackTranscriptionClient requires at least one provider");
}

#[test]
fn open_circuit_skipped_without_attempt() {
    let mut mocks = [Mock::new(vec![]), Mock::new(vec![Ok(())])];
    let mut primary = entry("primary");
    for _ in 0..2 {
        let permit = primary.breaker.try_acquire().unwrap();
        primary.breaker.record_failure(permit);
    }
    assert_eq!(primary.breaker.state(), CircuitState::Open);
    let mut client = FallbackTranscriptionClient::new(vec![primary, entry("secondary")]).unwrap();
    send(&mut client, &mut mocks).unwrap();
    assert_eq!(mocks[0].calls, 0, "primary not called when its breaker is open");
    assert_eq!(mocks[1].calls, 1);
    assert_eq!(client.provider_names(), vec!["primary", "secondary"]);
}

#[test]
fn synthesis_start_walks_in_order_and_fixes_active() {
    let mut client = FallbackSynthesisClient::new(vec![entry("a"), entry("b")]).unwrap();
    assert_eq!(client.active_provider_name(), None);
    let mut walk = client.begin_start();
    assert_eq!(client.next_provider(&mut walk, 0), ChainStep::Attempt(0));
    assert_eq!(
        client.report(&mut walk, Some(active_call::resilience::fallback::FailureKind::Retryable), 0),
        ChainReport::Next
    );
    assert_eq!(client.next_provider(&mut walk, 0), ChainStep::Attempt(1));
    assert_eq!(client.report(&mut walk, None, 0), ChainReport::Served(1));
    assert_eq!(client.active_provider_name(), Some("b"));
    assert_eq!(FallbackSynthesisClient::not_started_error(), "FallbackSynthesisClient not started");
    assert!(FallbackSynthesisClient::new(vec![]).is_err());
}

#[test]
fn synthesis_all_open_reports_count() {
    let mut a = entry("a");
    let mut b = entry("b");
    for e in [&mut a, &mut b] {
        for _ in 0..2 {
            let p = e.breaker.try_acquire().unwrap();
            e.breaker.record_failure(p);
        }
    }
    let mut client = FallbackSynthesisClient::new(vec![a, b]).unwrap();
    let mut walk = client.begin_start();
    assert_eq!(client.next_provider(&mut walk, 1), ChainStep::Exhausted);
    assert_eq!(client.exhausted_error(&walk), Some("all 2 TTS providers failed or are open".to_string()));
}

#[test]
fn llm_terminal_error_stops_chain_and_budget() {
    let mut p = FallbackLlmProvider::new(vec![entry("x"), entry("y")]).unwrap();
    assert_eq!(p.budget.total, 8000);
    let mut walk = p.begin_call();
    assert_eq!(p.next_provider(&mut walk, 0), ChainStep::Attempt(0));
    assert_eq!(
        p.report(&mut walk, Some(active_call::resilience::fallback::FailureKind::Terminal), 0),
        ChainReport::Stopped
    );
    assert_eq!(p.budget_check(1_000, 8_999), None);
    assert_eq!(p.budget_check(1_000, 9_000), Some("LLM fallback budget of 8s exhausted".to_string()));
    let p = p.with_budget(FallbackBudget { total: 1500 });
    assert_eq!(p.budget_check(0, 2_000), Some("LLM fallback budget of 1.5s exhausted".to_string()));
    assert_eq!(p.provider_names(), vec!["x", "y"]);
    assert!(FallbackLlmProvider::new(vec![]).is_err());
}

#[test]
fn duration_debug_texts() {
    let s = |ms: u64| duration_debug(ms).into_iter().collect::<String>();
    assert_eq!(s(8000), "8s");
    assert_eq!(s(1500), "1.5s");
    assert_eq!(s(1050), "1.05s");
    assert_eq!(s(1001), "1.001s");
    assert_eq!(s(500), "500ms");
    assert_eq!(s(0), "0ns");
    assert_eq!(format!("{:?}", std::time::Duration::from_millis(1050)), s(1050));
}
