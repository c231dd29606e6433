//! Per-IP authentication failure tracking with a sliding window and
//! automatic blocking.

use vstd::prelude::*;
use crate::clock::unix_time_millis;
use crate::security::ip::IpKey;
use crate::security::sliding::{millis_of_secs, record_step, secs_to_ms, HitsView, SlidingTracker};

verus! {

/// Result of recording an authentication failure.
#[derive(Debug, Clone, Copy, PartialEq, Eq, Structural)]
pub enum BruteForceResult {
    Allowed,
    Blocked { failures: u32 },
}

/// Authentication failures per IP. Times are Unix milliseconds.
#[derive(Debug)]
pub struct BruteForceTracker {
    pub tracker: SlidingTracker,
}

impl BruteForceTracker {
    /// The tracker is well formed.
    pub open spec fn wf(&self) -> bool {
        self.tracker.wf()
    }

    /// The failures and block of `ip`.
    pub open spec fn state(&self, ip: IpKey) -> Option<HitsView> {
        self.tracker.state(ip)
    }

    /// The state of `ip` and the result after recording one at `now`.
    pub open spec fn failure_step(&self, ip: IpKey, now: u64) -> (Option<HitsView>, BruteForceResult) {
        let step = record_step(
            self.state(ip),
            now,
            self.tracker.threshold,
            self.tracker.window,
            self.tracker.block,
        );
        (
            Some(step.0),
            match step.1 {
                Some(n) => BruteForceResult::Blocked { failures: (n as u64) as u32 },
                None => BruteForceResult::Allowed,
            },
        )
    }

    /// `list` holds exactly the IPs blocked at `now`, with the ends of
    /// their blocks.
    pub open spec fn lists_blocked(&self, list: Seq<(IpKey, u64)>, now: u64) -> bool {
        forall|k: IpKey, u: u64| #[trigger] list.contains((k, u)) <==> (self.state(k) matches Some(v)
            && v.1 == Some(u) && now < u)
    }

    /// `ip` is blocked at `now`: its block ends later.
    pub open spec fn blocked_at(&self, ip: IpKey, now: u64) -> bool {
        self.state(ip) matches Some(v) && v.1 matches Some(u) && now < u
    }

    /// A tracker that blocks an IP for `block_duration_secs` once it has
    /// `threshold` failures within `window_secs`.
    pub fn new(threshold: u32, window_secs: u64, block_duration_secs: u64) -> (r: Self)
        ensures
            r.wf(),
            r.tracker.threshold == threshold,
            r.tracker.window == secs_to_ms(window_secs),
            r.tracker.block == secs_to_ms(block_duration_secs),
            forall|k: IpKey| r.state(k) is None,
    {
        BruteForceTracker {
            tracker: SlidingTracker::new(
                threshold as u64,
                millis_of_secs(window_secs),
                millis_of_secs(block_duration_secs),
            ),
        }
    }

    /// Records a failure of `ip` at `now`: blocked (with the failure count)
    /// while a block lasts or once the threshold is reached.
    pub fn record_failure_at(&mut self, ip: &IpKey, now: u64) -> (r: BruteForceResult)
        requires
            old(self).wf(),
        ensures
            final(self).wf(),
            final(self).tracker.threshold == old(self).tracker.threshold,
            final(self).tracker.window == old(self).tracker.window,
            final(self).tracker.block == old(self).tracker.block,
            old(self).failure_step(*ip, now) == (final(self).state(*ip), r),
            forall|k: IpKey| k != *ip ==> final(self).state(k) == old(self).state(k),
    {
        match self.tracker.record(*ip, now) {
            Some(n) => BruteForceResult::Blocked { failures: n as u32 },
            None => BruteForceResult::Allowed,
        }
    }

    /// Records a failure of `ip` now.
    pub fn record_failure(&mut self, ip: &IpKey) -> (r: BruteForceResult)
        requires
            old(self).wf(),
        ensures
            final(self).wf(),
            exists|now: u64| #[trigger] old(self).failure_step(*ip, now) == (final(self).state(*ip), r),
            forall|k: IpKey| k != *ip ==> final(self).state(k) == old(self).state(k),
    {
        let now = unix_time_millis();
        self.record_failure_at(ip, now)
    }

    /// A successful authentication clears the failures and block of `ip`.
    pub fn record_success(&mut self, ip: &IpKey)
        requires
            old(self).wf(),
        ensures
            final(self).wf(),
            old(self).state(*ip) is Some ==> final(self).state(*ip) == Some(
                (Seq::<u64>::empty(), None::<u64>),
            ),
            old(self).state(*ip) is None ==> final(self).state(*ip) is None,
            forall|k: IpKey| k != *ip ==> final(self).state(k) == old(self).state(k),
    {
        self.tracker.reset(*ip);
    }

    /// Whether `ip` is blocked at `now`.
    pub fn is_blocked_at(&self, ip: &IpKey, now: u64) -> (r: bool)
        requires
            self.wf(),
        ensures
            r == self.blocked_at(*ip, now),
    {
        self.tracker.is_blocked(*ip, now)
    }

    /// Whether `ip` is blocked now.
    pub fn is_blocked(&self, ip: &IpKey) -> (r: bool)
        requires
            self.wf(),
        ensures
            exists|now: u64| r == #[trigger] self.blocked_at(*ip, now),
    {
        let now = unix_time_millis();
        self.is_blocked_at(ip, now)
    }

    /// The IPs blocked now, with the ends of their blocks.
    pub fn get_blocked(&self) -> (r: Vec<(IpKey, u64)>)
        requires
            self.wf(),
        ensures
            exists|now: u64| #[trigger] self.lists_blocked(r@, now),
    {
        let now = unix_time_millis();
        let r = self.get_blocked_at(now);
        assert(self.lists_blocked(r@, now));
        r
    }

    /// The IPs blocked at `now`, with the ends of their blocks.
    pub fn get_blocked_at(&self, now: u64) -> (r: Vec<(IpKey, u64)>)
        requires
            self.wf(),
        ensures
            forall|k: IpKey, u: u64| r@.contains((k, u)) <==> (self.state(k) matches Some(v)
                && v.1 == Some(u) && now < u),
    {
        self.tracker.blocked(now)
    }

    /// The number of IPs with an entry.
    pub fn tracked_count(&self) -> (r: usize)
        ensures
            r == self.tracker.entries@.len(),
    {
        self.tracker.entries.len()
    }

    /// Lifts the block of `ip` and clears its failures; `true` when it had
    /// an entry.
    pub fn unblock(&mut self, ip: &IpKey) -> (r: bool)
        requires
            old(self).wf(),
        ensures
            final(self).wf(),
            r == old(self).state(*ip) is Some,
            r ==> final(self).state(*ip) == Some((Seq::<u64>::empty(), None::<u64>)),
            !r ==> final(self).state(*ip) is None,
            forall|k: IpKey| k != *ip ==> final(self).state(k) == old(self).state(k),
    {
        self.tracker.reset(*ip)
    }
}

} // verus!
