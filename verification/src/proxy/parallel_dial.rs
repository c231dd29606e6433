//! Parallel dialing: INVITEs go to every gateway at once and the first
//! answer wins. These are the decisions of the collector.

use vstd::prelude::*;
use crate::proxy::failover::WaitStep;

verus! {

/// Outcome of a parallel dial.
#[derive(Debug, Clone, PartialEq)]
pub enum ParallelDialResult {
    /// One gateway answered, with the answer SDP if any.
    Connected { gateway_name: String, sdp: Option<String> },
    /// Every gateway failed.
    AllFailed { last_code: u16, last_reason: String },
    /// The caller hung up before any gateway answered.
    Cancelled,
}

/// What one branch reported.
#[derive(Debug, Clone, PartialEq)]
pub enum BranchEvent {
    /// The branch's gateway answered.
    Answered { idx: usize, gateway_name: String, sdp: Option<String> },
    /// The branch failed.
    Failed { idx: usize, code: u16, reason: String },
}

/// What the collector observed.
#[derive(Debug, Clone, PartialEq)]
pub enum CollectorEvent {
    /// The caller cancelled.
    Cancelled,
    /// A branch reported.
    Branch(BranchEvent),
    /// Every branch finished (the channel closed).
    AllDone,
}

/// The collector's state: failures so far and the last one.
#[derive(Debug, Clone, PartialEq)]
pub struct ParallelCollector {
    pub total: usize,
    pub failures: usize,
    pub last_code: u16,
    pub last_reason: String,
}

/// The branch event of one gateway's attempt once its wait ended (branches
/// ignore no-failover lists, so a no-failover step counts as a failure);
/// `None` while the attempt goes on.
pub fn branch_outcome(idx: usize, gateway_name: &str, step: WaitStep) -> (r: Option<BranchEvent>)
    ensures
        match step {
            WaitStep::Connected { sdp } => r matches Some(
                BranchEvent::Answered { idx: i, gateway_name: g, sdp: s },
            ) && i == idx && g@ == gateway_name@ && s == sdp,
            WaitStep::Failed { code, reason } => r == Some(BranchEvent::Failed { idx, code, reason }),
            WaitStep::NoFailover { code, reason } => r == Some(BranchEvent::Failed { idx, code, reason }),
            _ => r is None,
        },
{
    match step {
        WaitStep::Connected { sdp } => Some(
            BranchEvent::Answered { idx, gateway_name: gateway_name.to_owned(), sdp },
        ),
        WaitStep::Failed { code, reason } => Some(BranchEvent::Failed { idx, code, reason }),
        WaitStep::NoFailover { code, reason } => Some(BranchEvent::Failed { idx, code, reason }),
        _ => None,
    }
}

/// The result when a trunk has no gateways.
pub fn no_gateways() -> (r: ParallelDialResult)
    ensures
        r matches ParallelDialResult::AllFailed { last_code, last_reason } && last_code == 503
            && last_reason@ == "No gateways configured"@,
{
    ParallelDialResult::AllFailed { last_code: 503, last_reason: "No gateways configured".to_owned() }
}

impl ParallelCollector {
    /// Collecting over `total` branches.
    pub fn new(total: usize) -> (r: Self)
        ensures
            r.total == total,
            r.failures == 0,
            r.last_code == 503,
            r.last_reason@ == "Service Unavailable"@,
    {
        ParallelCollector { total, failures: 0, last_code: 503, last_reason: "Service Unavailable".to_owned() }
    }

    /// Starts a parallel dial over `total` gateways: with none, the dial
    /// ends at once with [`no_gateways`]; otherwise the collector waits for
    /// the branches' events.
    pub fn start(total: usize) -> (r: (Self, Option<ParallelDialResult>))
        ensures
            r.0.total == total,
            r.0.failures == 0,
            r.0.last_code == 503,
            r.0.last_reason@ == "Service Unavailable"@,
            total == 0 ==> (r.1 matches Some(ParallelDialResult::AllFailed { last_code, last_reason })
                && last_code == 503 && last_reason@ == "No gateways configured"@),
            total > 0 ==> r.1 is None,
    {
        let c = ParallelCollector::new(total);
        if total == 0 {
            (c, Some(no_gateways()))
        } else {
            (c, None)
        }
    }

    /// Handles one observation: cancellation and an answer end the dial;
    /// a failure is counted and ends it once every branch has failed; the
    /// closing of the channel ends it with the last failure.
    pub fn on_event(&mut self, event: CollectorEvent) -> (r: Option<ParallelDialResult>)
        requires
            old(self).failures < old(self).total,
        ensures
            match event {
                CollectorEvent::Cancelled => r == Some(ParallelDialResult::Cancelled),
                CollectorEvent::Branch(BranchEvent::Answered { gateway_name, sdp, .. }) => r == Some(
                    ParallelDialResult::Connected { gateway_name, sdp },
                ),
                CollectorEvent::Branch(BranchEvent::Failed { code, reason, .. }) => {
                    &&& final(self).failures == old(self).failures + 1
                    &&& final(self).total == old(self).total
                    &&& final(self).last_code == code
                    &&& final(self).last_reason == reason
                    &&& final(self).failures >= final(self).total ==> (r matches Some(
                        ParallelDialResult::AllFailed { last_code, last_reason },
                    ) && last_code == code && last_reason@ == reason@)
                    &&& final(self).failures < final(self).total ==> r is None
                },
                CollectorEvent::AllDone => (r matches Some(
                    ParallelDialResult::AllFailed { last_code, last_reason },
                ) && last_code == old(self).last_code && last_reason@ == old(self).last_reason@),
            },
    {
        match event {
            CollectorEvent::Cancelled => Some(ParallelDialResult::Cancelled),
            CollectorEvent::Branch(BranchEvent::Answered { gateway_name, sdp, .. }) => Some(
                ParallelDialResult::Connected { gateway_name, sdp },
            ),
            CollectorEvent::Branch(BranchEvent::Failed { code, reason, .. }) => {
                self.failures = self.failures + 1;
                self.last_code = code;
                self.last_reason = reason;
                if self.failures >= self.total {
                    Some(
                        ParallelDialResult::AllFailed {
                            last_code: self.last_code,
                            last_reason: self.last_reason.clone(),
                        },
                    )
                } else {
                    None
                }
            },
            CollectorEvent::AllDone => Some(
                ParallelDialResult::AllFailed {
                    last_code: self.last_code,
                    last_reason: self.last_reason.clone(),
                },
            ),
        }
    }
}

} // verus!
