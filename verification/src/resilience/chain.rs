//! The walk of a provider fallback chain.
//!
//! A walk visits the chain's providers in order from a start position
//! (wrapping around, or not), asking each provider's circuit breaker for a
//! permit. A provider whose breaker refuses is skipped without an attempt.
//! The caller makes the attempt and reports how it went: a success ends
//! the walk; a terminal failure ends it with that error (the breaker is not
//! blamed); a retryable failure is recorded on the breaker and the walk
//! goes on. Times are Unix milliseconds.

use vstd::prelude::*;
use crate::resilience::circuit_breaker::{
    acquire_step, cooldown_bound, failure_step, success_step, BreakerModel, CircuitBreaker,
    Permit,
};
use crate::resilience::fallback::FailureKind;

verus! {

/// The position visited at step `offset` of a walk over `n` providers
/// from `start`.
pub open spec fn walk_pos(start: nat, offset: nat, n: nat, wrap: bool) -> int {
    if wrap && start + offset >= n {
        start + offset - n
    } else {
        (start + offset) as int
    }
}

/// The models of a list of breakers.
pub open spec fn models(bs: Seq<CircuitBreaker>) -> Seq<BreakerModel> {
    bs.map_values(|b: CircuitBreaker| b@)
}

/// Every breaker of the list is well formed.
pub open spec fn all_wf(bs: Seq<CircuitBreaker>) -> bool {
    forall|i: int| 0 <= i < bs.len() ==> (#[trigger] bs[i]).wf()
}

/// The breaker of model `m` refuses a permit at `now`.
pub open spec fn refuses(m: BreakerModel, now: u64) -> bool {
    acquire_step(m, now).1 is None
}

/// What the walk asks for next.
#[derive(Debug, Clone, Copy, PartialEq, Eq, Structural)]
pub enum ChainStep {
    /// Attempt the provider at this position.
    Attempt(usize),
    /// No provider is left.
    Exhausted,
}

/// How an attempt ended, as the walk sees it.
#[derive(Debug, Clone, Copy, PartialEq, Eq, Structural)]
pub enum ChainReport {
    /// The provider at this position served the request.
    Served(usize),
    /// A terminal failure: give up with its error.
    Stopped,
    /// A retryable failure: ask for the next provider.
    Next,
}

/// A walk over a chain.
#[derive(Debug)]
pub struct ChainWalk {
    /// First position visited.
    pub start: usize,
    /// Positions visited so far.
    pub offset: usize,
    /// Number of providers.
    pub n: usize,
    /// Whether the walk wraps around to the positions before `start`.
    pub wrap: bool,
    /// Whether some attempt failed retryably.
    pub failed_any: bool,
    /// The position and permit of the attempt in progress.
    pub pending: Option<(usize, Permit)>,
}

/// One `next` of a walk: from walk `w0` over breakers of models `m0`, at
/// `now`, the walk became `w1`, the models `m1`, and the answer was `r`.
/// The fixed parts of the walk stay; every position passed over refused a
/// permit; an attempt is the first position that granted one (its
/// breaker took the permit and the walk holds it), and exhaustion passes
/// over every remaining position and leaves the breakers as they were.
pub open spec fn walk_next(
    w0: ChainWalk,
    m0: Seq<BreakerModel>,
    now: u64,
    w1: ChainWalk,
    m1: Seq<BreakerModel>,
    r: ChainStep,
) -> bool {
    &&& w1.start == w0.start
    &&& w1.n == w0.n
    &&& w1.wrap == w0.wrap
    &&& w1.failed_any == w0.failed_any
    &&& w0.offset <= w1.offset
    &&& forall|o: nat| w0.offset <= o < w1.offset ==> refuses(m0[w0.pos(o)], now)
    &&& match r {
        ChainStep::Attempt(i) => {
            &&& w1.offset < w1.n
            &&& i == w0.pos(w1.offset as nat)
            &&& w1.pending matches Some(p) && p.0 == i && Some(p.1.trial()) == acquire_step(
                m0[i as int],
                now,
            ).1
            &&& m1 == m0.update(i as int, acquire_step(m0[i as int], now).0)
        },
        ChainStep::Exhausted => {
            &&& w1.offset == w1.n
            &&& w1.pending is None
            &&& m1 == m0
        },
    }
}

impl ChainWalk {
    /// The walk is consistent: a start inside the chain (the first position
    /// when it does not wrap) and an offset within the chain.
    pub open spec fn wf(&self) -> bool {
        &&& self.start < self.n || self.n == 0
        &&& !self.wrap ==> self.start == 0
        &&& self.offset <= self.n
        &&& self.pending matches Some(p) ==> p.0 == walk_pos(
            self.start as nat,
            self.offset as nat,
            self.n as nat,
            self.wrap,
        ) && self.offset < self.n
    }

    /// The position visited at step `offset`.
    pub open spec fn pos(&self, offset: nat) -> int {
        walk_pos(self.start as nat, offset, self.n as nat, self.wrap)
    }

    /// A walk over `n` providers from `start`.
    pub fn new(start: usize, n: usize, wrap: bool) -> (r: Self)
        requires
            start < n || n == 0,
            !wrap ==> start == 0,
        ensures
            r.wf(),
            r.start == start,
            r.n == n,
            r.wrap == wrap,
            r.offset == 0,
            !r.failed_any,
            r.pending is None,
    {
        ChainWalk { start, offset: 0, n, wrap, failed_any: false, pending: None }
    }

    /// The position visited at the current step.
    fn current(&self) -> (r: usize)
        requires
            self.wf(),
            self.offset < self.n,
        ensures
            r == self.pos(self.offset as nat),
            r < self.n,
    {
        if self.wrap && self.start >= self.n - self.offset {
            self.start - (self.n - self.offset)
        } else {
            self.start + self.offset
        }
    }

    /// Asks the next providers' breakers for a permit at `now`, skipping
    /// those that refuse: the first that grants one is to be attempted.
    pub fn next(&mut self, breakers: &mut Vec<CircuitBreaker>, now: u64) -> (r: ChainStep)
        requires
            old(self).wf(),
            old(self).pending is None,
            old(breakers)@.len() == old(self).n,
            all_wf(old(breakers)@),
        ensures
            final(self).wf(),
            all_wf(final(breakers)@),
            final(breakers)@.len() == old(breakers)@.len(),
            walk_next(*old(self), models(old(breakers)@), now, *final(self), models(final(breakers)@), r),
            final(self).start == old(self).start,
            final(self).n == old(self).n,
            final(self).wrap == old(self).wrap,
            final(self).failed_any == old(self).failed_any,
            old(self).offset <= final(self).offset,
            forall|o: nat|
                old(self).offset <= o < final(self).offset ==> refuses(
                    models(old(breakers)@)[old(self).pos(o)],
                    now,
                ),
            match r {
                ChainStep::Attempt(i) => {
                    &&& final(self).offset < final(self).n
                    &&& i == old(self).pos(final(self).offset as nat)
                    &&& final(self).pending matches Some(p) && p.0 == i && Some(p.1.trial())
                        == acquire_step(models(old(breakers)@)[i as int], now).1
                    &&& models(final(breakers)@) == models(old(breakers)@).update(
                        i as int,
                        acquire_step(models(old(breakers)@)[i as int], now).0,
                    )
                },
                ChainStep::Exhausted => {
                    &&& final(self).offset == final(self).n
                    &&& final(self).pending is None
                    &&& models(final(breakers)@) == models(old(breakers)@)
                },
            },
    {
        let ghost start_offset = self.offset;
        while self.offset < self.n
            invariant
                self.wf(),
                self.pending is None,
                breakers@.len() == self.n,
                self.start == old(self).start,
                self.n == old(self).n,
                self.wrap == old(self).wrap,
                self.failed_any == old(self).failed_any,
                start_offset == old(self).offset,
                start_offset <= self.offset,
                all_wf(breakers@),
                models(breakers@) == models(old(breakers)@),
                forall|o: nat|
                    start_offset <= o < self.offset ==> refuses(
                        models(old(breakers)@)[old(self).pos(o)],
                        now,
                    ),
            decreases self.n - self.offset,
        {
            let idx = self.current();
            let ghost before = breakers@;
            assert(before[idx as int].wf());
            let permit = breakers[idx].try_acquire_at(now);
            match permit {
                Some(p) => {
                    proof {
                        assert(models(breakers@) =~= models(before).update(
                            idx as int,
                            breakers@[idx as int]@,
                        ));
                        assert forall|i: int| 0 <= i < breakers@.len() implies (
                        #[trigger] breakers@[i]).wf() by {
                            if i != idx {
                                assert(breakers@[i] == before[i]);
                            }
                        }
                    }
                    self.pending = Some((idx, p));
                    return ChainStep::Attempt(idx);
                },
                None => {
                    proof {
                        assert(models(breakers@) =~= models(before));
                        assert forall|i: int| 0 <= i < breakers@.len() implies (
                        #[trigger] breakers@[i]).wf() by {
                            if i != idx {
                                assert(breakers@[i] == before[i]);
                            }
                        }
                    }
                    self.offset = self.offset + 1;
                },
            }
        }
        ChainStep::Exhausted
    }

    /// Reports how the pending attempt went at `now`. A success or a
    /// terminal failure counts as a success on the breaker; a retryable
    /// failure is recorded as a failure (not when the clock reads so late
    /// that the cooldown deadline would not fit in a `u64`) and the walk
    /// moves past the provider.
    pub fn report(
        &mut self,
        breakers: &mut Vec<CircuitBreaker>,
        outcome: Option<FailureKind>,
        now: u64,
    ) -> (r: ChainReport)
        requires
            old(self).wf(),
            old(self).pending is Some,
            old(breakers)@.len() == old(self).n,
            all_wf(old(breakers)@),
        ensures
            final(self).wf(),
            all_wf(final(breakers)@),
            final(breakers)@.len() == old(breakers)@.len(),
            final(self).pending is None,
            final(self).start == old(self).start,
            final(self).n == old(self).n,
            final(self).wrap == old(self).wrap,
            ({
                let (i, p) = old(self).pending.unwrap();
                let m = models(old(breakers)@)[i as int];
                match outcome {
                    None => r == ChainReport::Served(i) && models(final(breakers)@) == models(
                        old(breakers)@,
                    ).update(i as int, success_step(m)) && final(self).offset == old(self).offset
                        && final(self).failed_any == old(self).failed_any,
                    Some(FailureKind::Terminal) => r == ChainReport::Stopped && models(
                        final(breakers)@,
                    ) == models(old(breakers)@).update(i as int, success_step(m))
                        && final(self).offset == old(self).offset && final(self).failed_any
                        == old(self).failed_any,
                    Some(FailureKind::Retryable) => r == ChainReport::Next && final(self).failed_any
                        && final(self).offset == old(self).offset + 1 && (if now + cooldown_bound(
                        m.config,
                    ) <= u64::MAX {
                        models(final(breakers)@) == models(old(breakers)@).update(
                            i as int,
                            failure_step(m, p.trial(), now),
                        )
                    } else {
                        models(final(breakers)@) == models(old(breakers)@)
                    }),
                }
            }),
    {
        let pending = self.pending.take();
        match pending {
            Some((idx, permit)) => {
                let ghost before = breakers@;
                assert(before[idx as int].wf());
                let r = match outcome {
                    None => {
                        breakers[idx].record_success_at(permit, now);
                        ChainReport::Served(idx)
                    },
                    Some(FailureKind::Terminal) => {
                        breakers[idx].record_success_at(permit, now);
                        ChainReport::Stopped
                    },
                    Some(FailureKind::Retryable) => {
                        let bound = breakers[idx].cooldown_bound_value();
                        if now <= u64::MAX - bound {
                            breakers[idx].record_failure_at(permit, now);
                        }
                        self.failed_any = true;
                        self.offset = self.offset + 1;
                        ChainReport::Next
                    },
                };
                proof {
                    assert(models(breakers@) =~= models(before).update(
                        idx as int,
                        breakers@[idx as int]@,
                    ));
                    assert forall|i: int| 0 <= i < breakers@.len() implies (
                    #[trigger] breakers@[i]).wf() by {
                        if i != idx {
                            assert(breakers@[i] == before[i]);
                        }
                    }
                }
                r
            },
            None => ChainReport::Next,
        }
    }
}

/// A walk never visits a provider twice and stays inside the chain: the
/// positions of its `n` steps are distinct positions of the chain, and a
/// wrapping walk covers the whole chain.
pub proof fn law_walk_visits_each_once(start: nat, n: nat, wrap: bool)
    requires
        start < n,
        !wrap ==> start == 0,
    ensures
        forall|o: nat| o < n ==> 0 <= #[trigger] walk_pos(start, o, n, wrap) < n,
        forall|o1: nat, o2: nat|
            o1 < n && o2 < n && o1 != o2 ==> #[trigger] walk_pos(start, o1, n, wrap)
                != #[trigger] walk_pos(start, o2, n, wrap),
        forall|i: int| 0 <= i < n ==> #[trigger] walk_pos(start, walk_step_to(start, n, i), n, wrap) == i
            && walk_step_to(start, n, i) < n,
{
    assert forall|i: int| 0 <= i < n implies #[trigger] walk_pos(start, walk_step_to(start, n, i), n, wrap) == i
        && walk_step_to(start, n, i) < n by {
        if i >= start {
            assert(walk_step_to(start, n, i) == i - start);
        } else {
            assert(walk_step_to(start, n, i) == i + n - start);
        }
    }
}

/// The step at which a walk from `start` over `n` providers visits
/// position `i` (when it wraps).
pub open spec fn walk_step_to(start: nat, n: nat, i: int) -> nat {
    if i >= start {
        (i - start) as nat
    } else {
        (i + n - start) as nat
    }
}

} // verus!
