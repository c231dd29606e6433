//! Per-IP request rate tracking with a sliding window and automatic
//! blocking.

use vstd::prelude::*;
use crate::clock::unix_time_millis;
use crate::security::ip::IpKey;
use crate::security::sliding::{millis_of_secs, record_step, secs_to_ms, HitsView, SlidingTracker};

verus! {

/// Result of recording a request.
#[derive(Debug, Clone, Copy, PartialEq, Eq, Structural)]
pub enum FloodResult {
    Allowed,
    Blocked { count: u64 },
}

/// Requests per IP. Times are Unix milliseconds.
#[derive(Debug)]
pub struct FloodTracker {
    pub tracker: SlidingTracker,
}

impl FloodTracker {
    /// The tracker is well formed.
    pub open spec fn wf(&self) -> bool {
        self.tracker.wf()
    }

    /// The requests and block of `ip`.
    pub open spec fn state(&self, ip: IpKey) -> Option<HitsView> {
        self.tracker.state(ip)
    }

    /// The state of `ip` and the result after recording one at `now`.
    pub open spec fn request_step(&self, ip: IpKey, now: u64) -> (Option<HitsView>, FloodResult) {
        let step = record_step(
            self.state(ip),
            now,
            self.tracker.threshold,
            self.tracker.window,
            self.tracker.block,
        );
        (
            Some(step.0),
            match step.1 {
                Some(n) => FloodResult::Blocked { count: n as u64 },
                None => FloodResult::Allowed,
            },
        )
    }

    /// `list` holds exactly the IPs blocked at `now`, with the ends of
    /// their blocks.
    pub open spec fn lists_blocked(&self, list: Seq<(IpKey, u64)>, now: u64) -> bool {
        forall|k: IpKey, u: u64| #[trigger] list.contains((k, u)) <==> (self.state(k) matches Some(v)
            && v.1 == Some(u) && now < u)
    }

    /// `ip` is blocked at `now`: its block ends later.
    pub open spec fn blocked_at(&self, ip: IpKey, now: u64) -> bool {
        self.state(ip) matches Some(v) && v.1 matches Some(u) && now < u
    }

    /// A tracker that blocks an IP for `block_duration_secs` once it has
    /// `threshold` requests within `window_secs`.
    pub fn new(threshold: u64, window_secs: u64, block_duration_secs: u64) -> (r: Self)
        ensures
            r.wf(),
            r.tracker.threshold == threshold,
            r.tracker.window == secs_to_ms(window_secs),
            r.tracker.block == secs_to_ms(block_duration_secs),
            forall|k: IpKey| r.state(k) is None,
    {
        FloodTracker {
            tracker: SlidingTracker::new(
                threshold,
                millis_of_secs(window_secs),
                millis_of_secs(block_duration_secs),
            ),
        }
    }

    /// Records a request of `ip` at `now`: blocked (with the request count)
    /// while a block lasts or once the threshold is reached.
    pub fn record_request_at(&mut self, ip: &IpKey, now: u64) -> (r: FloodResult)
        requires
            old(self).wf(),
        ensures
            final(self).wf(),
            final(self).tracker.threshold == old(self).tracker.threshold,
            final(self).tracker.window == old(self).tracker.window,
            final(self).tracker.block == old(self).tracker.block,
            old(self).request_step(*ip, now) == (final(self).state(*ip), r),
            forall|k: IpKey| k != *ip ==> final(self).state(k) == old(self).state(k),
    {
        match self.tracker.record(*ip, now) {
            Some(n) => FloodResult::Blocked { count: n },
            None => FloodResult::Allowed,
        }
    }

    /// Records a request of `ip` now.
    pub fn record_request(&mut self, ip: &IpKey) -> (r: FloodResult)
        requires
            old(self).wf(),
        ensures
            final(self).wf(),
            final(self).tracker.threshold == old(self).tracker.threshold,
            final(self).tracker.window == old(self).tracker.window,
            final(self).tracker.block == old(self).tracker.block,
            exists|now: u64| #[trigger] old(self).request_step(*ip, now) == (final(self).state(*ip), r),
            forall|k: IpKey| k != *ip ==> final(self).state(k) == old(self).state(k),
    {
        let now = unix_time_millis();
        self.record_request_at(ip, now)
    }

    /// Whether `ip` is blocked at `now`.
    pub fn is_blocked_at(&self, ip: &IpKey, now: u64) -> (r: bool)
        requires
            self.wf(),
        ensures
            r == self.blocked_at(*ip, now),
    {
        self.tracker.is_blocked(*ip, now)
    }

    /// Whether `ip` is blocked now.
    pub fn is_blocked(&self, ip: &IpKey) -> (r: bool)
        requires
            self.wf(),
        ensures
            exists|now: u64| r == #[trigger] self.blocked_at(*ip, now),
    {
        let now = unix_time_millis();
        self.is_blocked_at(ip, now)
    }

    /// The IPs blocked now, with the ends of their blocks.
    pub fn get_blocked(&self) -> (r: Vec<(IpKey, u64)>)
        requires
            self.wf(),
        ensures
            exists|now: u64| #[trigger] self.lists_blocked(r@, now),
    {
        let now = unix_time_millis();
        let r = self.get_blocked_at(now);
        assert(self.lists_blocked(r@, now));
        r
    }

    /// The IPs blocked at `now`, with the ends of their blocks.
    pub fn get_blocked_at(&self, now: u64) -> (r: Vec<(IpKey, u64)>)
        requires
            self.wf(),
        ensures
            forall|k: IpKey, u: u64| r@.contains((k, u)) <==> (self.state(k) matches Some(v)
                && v.1 == Some(u) && now < u),
    {
        self.tracker.blocked(now)
    }

    /// Lifts the block of `ip`, keeping its request history; `true` when it
    /// had an entry.
    pub fn unblock(&mut self, ip: &IpKey) -> (r: bool)
        requires
            old(self).wf(),
        ensures
            final(self).wf(),
            r == old(self).state(*ip) is Some,
            old(self).state(*ip) matches Some(v) ==> final(self).state(*ip) == Some((v.0, None::<u64>)),
            !r ==> final(self).state(*ip) is None,
            forall|k: IpKey| k != *ip ==> final(self).state(k) == old(self).state(k),
    {
        self.tracker.lift_block(*ip)
    }
}

} // verus!
