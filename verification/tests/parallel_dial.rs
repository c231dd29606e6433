use active_call::proxy::failover::WaitStep;
use active_call::proxy::parallel_dial::{
    branch_outcome, no_gateways, BranchEvent, CollectorEvent, ParallelCollector, ParallelDialResult,
};

#[test]
fn test_parallel_dial_result_variants() {
    let _connected = ParallelDialResult::AllFailed {
        last_code: 503,
        last_reason: "Service Unavailable".to_string(),
    };
    let _cancelled = ParallelDialResult::Cancelled;

    let result = ParallelDialResult::AllFailed { last_code: 486, last_reason: "Busy Here".to_string() };
    match result {
        ParallelDialResult::AllFailed { last_code, last_reason } => {
            assert_eq!(last_code, 486);
            assert_eq!(last_reason, "Busy Here");
        }
        _ => panic!("expected AllFailed"),
    }
}

#[test]
fn test_branch_event_variants() {
    let failed = BranchEvent::Failed { idx: 0, code: 408, reason: "Request Timeout".to_string() };
    match failed {
        BranchEvent::Failed { idx, code, reason } => {
            assert_eq!(idx, 0);
            assert_eq!(code, 408);
            assert_eq!(reason, "Request Timeout");
        }
        _ => panic!("expected Failed"),
    }

    let failed_503 = BranchEvent::Failed { idx: 2, code: 503, reason: "Service Unavailable".to_string() };
    match failed_503 {
        BranchEvent::Failed { idx, code, .. } => {
            assert_eq!(idx, 2);
            assert_eq!(code, 503);
        }
        _ => panic!("expected Failed"),
    }
}

#[test]
fn first_answer_wins() {
    let mut c = ParallelCollector::new(3);
    assert_eq!(
        c.on_event(CollectorEvent::Branch(BranchEvent::Failed { idx: 0, code: 486, reason: "Busy".to_string() })),
        None
    );
    assert_eq!(
        c.on_event(CollectorEvent::Branch(BranchEvent::Answered {
            idx: 1,
            gateway_name: "gw-b".to_string(),
            sdp: Some("v=0".to_string())
        })),
        Some(ParallelDialResult::Connected { gateway_name: "gw-b".to_string(), sdp: Some("v=0".to_string()) })
    );
}

#[test]
fn all_branches_failing_reports_last() {
    let mut c = ParallelCollector::new(2);
    assert_eq!(
        c.on_event(CollectorEvent::Branch(BranchEvent::Failed { idx: 0, code: 486, reason: "Busy".to_string() })),
        None
    );
    assert_eq!(
        c.on_event(CollectorEvent::Branch(BranchEvent::Failed { idx: 1, code: 408, reason: "Timeout".to_string() })),
        Some(ParallelDialResult::AllFailed { last_code: 408, last_reason: "Timeout".to_string() })
    );
}

#[test]
fn cancel_and_channel_close() {
    let mut c = ParallelCollector::new(2);
    assert_eq!(c.on_event(CollectorEvent::Cancelled), Some(ParallelDialResult::Cancelled));
    let mut c = ParallelCollector::new(2);
    assert_eq!(
        c.on_event(CollectorEvent::AllDone),
        Some(ParallelDialResult::AllFailed { last_code: 503, last_reason: "Service Unavailable".to_string() })
    );
    assert_eq!(
        no_gateways(),
        ParallelDialResult::AllFailed { last_code: 503, last_reason: "No gateways configured".to_string() }
    );
}

#[test]
fn branch_outcomes_of_wait_steps() {
    assert_eq!(branch_outcome(1, "gw", WaitStep::Continue), None);
    assert_eq!(branch_outcome(1, "gw", WaitStep::RelayRinging), None);
    assert_eq!(
        branch_outcome(1, "gw", WaitStep::Failed { code: 408, reason: "Request Timeout".to_string() }),
        Some(BranchEvent::Failed { idx: 1, code: 408, reason: "Request Timeout".to_string() })
    );
    assert_eq!(
        branch_outcome(2, "gw", WaitStep::Connected { sdp: None }),
        Some(BranchEvent::Answered { idx: 2, gateway_name: "gw".to_string(), sdp: None })
    );
}

#[test]
fn starting_with_no_gateways_ends_at_once() {
    let (c, done) = ParallelCollector::start(0);
    assert_eq!(c.total, 0);
    assert_eq!(done, Some(no_gateways()));
    match done {
        Some(ParallelDialResult::AllFailed { last_code, last_reason }) => {
            assert_eq!(last_code, 503);
            assert_eq!(last_reason, "No gateways configured");
        }
        _ => panic!("expected AllFailed"),
    }
}

#[test]
fn starting_with_gateways_waits_for_branches() {
    let (c, done) = ParallelCollector::start(3);
    assert!(done.is_none());
    assert_eq!(c.total, 3);
    assert_eq!(c.failures, 0);
    assert_eq!(c.last_code, 503);
    assert_eq!(c.last_reason, "Service Unavailable");
}
