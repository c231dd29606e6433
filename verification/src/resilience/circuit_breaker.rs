//! Per-provider circuit breaker.
//!
//! States:
//! - `Closed`: healthy. Failures inside a sliding window are counted;
//!   reaching the threshold opens the breaker.
//! - `Open`: requests are refused until the cooldown deadline passes.
//! - `HalfOpen`: the cooldown elapsed and exactly one trial request is out.
//!   Its success closes the breaker; its failure re-opens it with a doubled
//!   cooldown, capped at `max_cooldown`.
//!
//! All times are milliseconds on one clock; the `*_at` methods take the
//! current time, the others read it with [`crate::clock::unix_time_millis`].

use vstd::prelude::*;
use crate::clock::unix_time_millis;

verus! {

/// The three states of a breaker.
#[derive(Debug, Clone, Copy, PartialEq, Eq, Structural)]
pub enum CircuitState {
    Closed,
    Open,
    HalfOpen,
}

/// Breaker tuning. Durations are in milliseconds.
#[derive(Debug, Clone, Copy, PartialEq, Eq, Structural)]
pub struct CircuitBreakerConfig {
    /// Number of failures within `window` that opens the breaker.
    pub failure_threshold: u32,
    /// Sliding window for counting failures.
    pub window: u64,
    /// Initial cooldown when the breaker first opens.
    pub cooldown: u64,
    /// Largest cooldown after repeated trial failures.
    pub max_cooldown: u64,
}

impl CircuitBreakerConfig {
    /// Threshold 3, window 60 s, cooldown 30 s, cap 300 s.
    pub open spec fn default_spec() -> Self {
        CircuitBreakerConfig {
            failure_threshold: 3,
            window: 60_000,
            cooldown: 30_000,
            max_cooldown: 300_000,
        }
    }
}

impl Default for CircuitBreakerConfig {
    /// Threshold 3, window 60 s, cooldown 30 s, cap 300 s.
    fn default() -> (r: Self)
        ensures
            r == Self::default_spec(),
    {
        CircuitBreakerConfig {
            failure_threshold: 3,
            window: 60_000,
            cooldown: 30_000,
            max_cooldown: 300_000,
        }
    }
}

/// Witness that the breaker let a request through. It is handed back to
/// `record_success` or `record_failure`; it records whether the request was
/// the half-open trial.
#[must_use]
#[derive(Debug)]
pub struct Permit {
    is_trial: bool,
}

impl Permit {
    /// Whether this permit is the half-open trial.
    pub closed spec fn trial(&self) -> bool {
        self.is_trial
    }

    /// Whether this permit is the half-open trial.
    pub fn is_trial(&self) -> (r: bool)
        ensures
            r == self.trial(),
    {
        self.is_trial
    }
}

/// The abstract state of a breaker.
pub struct BreakerModel {
    pub config: CircuitBreakerConfig,
    pub state: CircuitState,
    /// Times of the failures inside the window, oldest first.
    pub recent_failures: Seq<u64>,
    /// End of the current cooldown.
    pub cooldown_until: Option<u64>,
    /// Cooldown to apply at the next opening.
    pub current_cooldown: u64,
}

/// A circuit breaker for one provider.
#[derive(Debug)]
pub struct CircuitBreaker {
    config: CircuitBreakerConfig,
    state: CircuitState,
    recent_failures: Vec<u64>,
    cooldown_until: Option<u64>,
    current_cooldown: u64,
}

impl View for CircuitBreaker {
    type V = BreakerModel;

    closed spec fn view(&self) -> BreakerModel {
        BreakerModel {
            config: self.config,
            state: self.state,
            recent_failures: self.recent_failures@,
            cooldown_until: self.cooldown_until,
            current_cooldown: self.current_cooldown,
        }
    }
}

/// `now - t`, or 0 when `t` is later than `now`.
pub open spec fn elapsed(now: u64, t: u64) -> nat {
    if now >= t {
        (now - t) as nat
    } else {
        0
    }
}

/// The failure times of `s` that are at most `window` old at `now`, in order.
pub open spec fn within_window(s: Seq<u64>, now: u64, window: u64) -> Seq<u64>
    decreases s.len(),
{
    if s.len() == 0 {
        s
    } else {
        let rest = within_window(s.drop_last(), now, window);
        if elapsed(now, s.last()) <= window {
            rest.push(s.last())
        } else {
            rest
        }
    }
}

/// The larger of the two configured cooldowns.
pub open spec fn cooldown_bound(c: CircuitBreakerConfig) -> u64 {
    if c.cooldown >= c.max_cooldown {
        c.cooldown
    } else {
        c.max_cooldown
    }
}

/// The cooldown after a failed trial: doubled, capped at `max_cooldown`.
pub open spec fn backoff(current: u64, max_cooldown: u64) -> u64 {
    if 2 * current <= max_cooldown {
        (2 * current) as u64
    } else {
        max_cooldown
    }
}

/// What every breaker satisfies.
pub open spec fn breaker_wf(m: BreakerModel) -> bool {
    &&& m.current_cooldown <= cooldown_bound(m.config)
    &&& m.state == CircuitState::Open ==> m.cooldown_until is Some
}

/// A fresh breaker.
pub open spec fn initial_model(config: CircuitBreakerConfig) -> BreakerModel {
    BreakerModel {
        config,
        state: CircuitState::Closed,
        recent_failures: seq![],
        cooldown_until: None,
        current_cooldown: config.cooldown,
    }
}

/// The outcome of asking for a permit at `now`: the new state, and
/// `Some(trial)` when a permit is granted.
pub open spec fn acquire_step(m: BreakerModel, now: u64) -> (BreakerModel, Option<bool>) {
    match m.state {
        CircuitState::Closed => (m, Some(false)),
        CircuitState::Open => match m.cooldown_until {
            Some(deadline) => if now >= deadline {
                (BreakerModel { state: CircuitState::HalfOpen, ..m }, Some(true))
            } else {
                (m, None)
            },
            None => (BreakerModel { state: CircuitState::HalfOpen, ..m }, Some(true)),
        },
        CircuitState::HalfOpen => (m, None),
    }
}

/// The state after a success is recorded.
pub open spec fn success_step(m: BreakerModel) -> BreakerModel {
    BreakerModel {
        state: CircuitState::Closed,
        recent_failures: seq![],
        cooldown_until: None,
        current_cooldown: m.config.cooldown,
        ..m
    }
}

/// The state after a failure is recorded at `now` for a permit whose trial
/// flag is `trial`.
pub open spec fn failure_step(m: BreakerModel, trial: bool, now: u64) -> BreakerModel {
    if trial {
        let next = backoff(m.current_cooldown, m.config.max_cooldown);
        BreakerModel {
            current_cooldown: next,
            state: CircuitState::Open,
            cooldown_until: Some((now + next) as u64),
            ..m
        }
    } else {
        let kept = within_window(m.recent_failures.push(now), now, m.config.window);
        if kept.len() >= m.config.failure_threshold {
            BreakerModel {
                recent_failures: kept,
                state: CircuitState::Open,
                cooldown_until: Some((now + m.current_cooldown) as u64),
                ..m
            }
        } else {
            BreakerModel { recent_failures: kept, ..m }
        }
    }
}

impl CircuitBreaker {
    /// What every breaker satisfies.
    pub closed spec fn wf(&self) -> bool {
        breaker_wf(self@)
    }

    /// A closed breaker with no recorded failures.
    pub fn new(config: CircuitBreakerConfig) -> (r: Self)
        ensures
            r@ == initial_model(config),
            r.wf(),
    {
        CircuitBreaker {
            config,
            state: CircuitState::Closed,
            recent_failures: Vec::new(),
            cooldown_until: None,
            current_cooldown: config.cooldown,
        }
    }

    /// The configuration the breaker was made with.
    pub fn config(&self) -> (r: &CircuitBreakerConfig)
        ensures
            *r == self@.config,
    {
        &self.config
    }

    /// The current state.
    pub fn state(&self) -> (r: CircuitState)
        ensures
            r == self@.state,
    {
        self.state
    }

    /// The longest cooldown the breaker can apply: the larger of its
    /// configured cooldown and maximum.
    pub fn cooldown_bound_value(&self) -> (r: u64)
        ensures
            r == cooldown_bound(self@.config),
    {
        cooldown_bound_of(&self.config)
    }

    /// The cooldown that the next opening will apply, in milliseconds.
    pub fn current_cooldown(&self) -> (r: u64)
        ensures
            r == self@.current_cooldown,
    {
        self.current_cooldown
    }

    /// Asks for a permit at the current time; see [`Self::try_acquire_at`].
    pub fn try_acquire(&mut self) -> (r: Option<Permit>)
        requires
            old(self).wf(),
        ensures
            final(self).wf(),
            exists|now: u64|
                acquire_step(old(self)@, now) == (final(self)@, match r {
                    Some(p) => Some(p.trial()),
                    None => None,
                }),
    {
        let now = unix_time_millis();
        self.try_acquire_at(now)
    }

    /// Asks for a permit at time `now`. `None` when the breaker is open and
    /// still cooling down, or half-open with its trial out; a trial permit
    /// (moving to half-open) once the cooldown has elapsed.
    pub fn try_acquire_at(&mut self, now: u64) -> (r: Option<Permit>)
        requires
            old(self).wf(),
        ensures
            final(self).wf(),
            acquire_step(old(self)@, now) == (final(self)@, match r {
                Some(p) => Some(p.trial()),
                None => None,
            }),
    {
        match self.state {
            CircuitState::Closed => Some(Permit { is_trial: false }),
            CircuitState::Open => {
                match self.cooldown_until {
                    Some(deadline) => {
                        if now >= deadline {
                            self.state = CircuitState::HalfOpen;
                            Some(Permit { is_trial: true })
                        } else {
                            None
                        }
                    },
                    None => {
                        self.state = CircuitState::HalfOpen;
                        Some(Permit { is_trial: true })
                    },
                }
            },
            CircuitState::HalfOpen => None,
        }
    }

    /// Records that the permitted request succeeded, at the current time.
    pub fn record_success(&mut self, permit: Permit)
        requires
            old(self).wf(),
        ensures
            final(self).wf(),
            final(self)@ == success_step(old(self)@),
    {
        let now = unix_time_millis();
        self.record_success_at(permit, now)
    }

    /// Records that the permitted request succeeded: the breaker closes,
    /// forgets its failures and returns to the configured cooldown.
    pub fn record_success_at(&mut self, permit: Permit, now: u64)
        requires
            old(self).wf(),
        ensures
            final(self).wf(),
            final(self)@ == success_step(old(self)@),
    {
        self.state = CircuitState::Closed;
        self.recent_failures = Vec::new();
        self.cooldown_until = None;
        self.current_cooldown = self.config.cooldown;
    }

    /// Records that the permitted request failed, at the current time; when
    /// the clock reads so late that the cooldown deadline would not fit in a
    /// `u64`, at the latest time at which it fits.
    pub fn record_failure(&mut self, permit: Permit)
        requires
            old(self).wf(),
        ensures
            final(self).wf(),
            exists|now: u64| now + cooldown_bound(old(self)@.config) <= u64::MAX
                && final(self)@ == #[trigger] failure_step(old(self)@, permit.trial(), now),
    {
        let clock = unix_time_millis();
        let latest = u64::MAX - cooldown_bound_of(&self.config);
        let now = if clock <= latest {
            clock
        } else {
            latest
        };
        self.record_failure_at(permit, now);
    }

    /// Records that the permitted request failed at `now`. A failed trial
    /// re-opens the breaker with the cooldown doubled (capped at
    /// `max_cooldown`); any other failure is added to the window, failures
    /// older than `window` are dropped, and the breaker opens when
    /// `failure_threshold` remain.
    pub fn record_failure_at(&mut self, permit: Permit, now: u64)
        requires
            old(self).wf(),
            now + cooldown_bound(old(self)@.config) <= u64::MAX,
        ensures
            final(self).wf(),
            final(self)@ == failure_step(old(self)@, permit.trial(), now),
    {
        if permit.is_trial {
            let next = if self.current_cooldown <= self.config.max_cooldown / 2 {
                self.current_cooldown * 2
            } else {
                self.config.max_cooldown
            };
            self.current_cooldown = next;
            self.state = CircuitState::Open;
            self.cooldown_until = Some(now + next);
            return;
        }
        let ghost pushed = self.recent_failures@.push(now);
        self.recent_failures.push(now);
        let window = self.config.window;
        let mut kept: Vec<u64> = Vec::new();
        let mut i: usize = 0;
        while i < self.recent_failures.len()
            invariant
                self.recent_failures@ == pushed,
                i <= pushed.len(),
                kept@ == within_window(pushed.subrange(0, i as int), now, window),
            decreases pushed.len() - i,
        {
            let t = self.recent_failures[i];
            let age = if now >= t {
                now - t
            } else {
                0
            };
            assert(pushed.subrange(0, i + 1).drop_last() =~= pushed.subrange(0, i as int));
            if age <= window {
                kept.push(t);
            }
            i = i + 1;
        }
        assert(pushed.subrange(0, i as int) =~= pushed);
        self.recent_failures = kept;
        if self.recent_failures.len() >= self.config.failure_threshold as usize {
            self.state = CircuitState::Open;
            self.cooldown_until = Some(now + self.current_cooldown);
        }
    }
}

/// The larger of the two configured cooldowns.
fn cooldown_bound_of(c: &CircuitBreakerConfig) -> (r: u64)
    ensures
        r == cooldown_bound(*c),
{
    if c.cooldown >= c.max_cooldown {
        c.cooldown
    } else {
        c.max_cooldown
    }
}


/// Every transition keeps a breaker well formed.
pub proof fn law_transitions_keep_wf(m: BreakerModel, now: u64, trial: bool)
    requires
        breaker_wf(m),
        now + cooldown_bound(m.config) <= u64::MAX,
    ensures
        breaker_wf(acquire_step(m, now).0),
        breaker_wf(success_step(m)),
        breaker_wf(failure_step(m, trial, now)),
{
}

/// A closed breaker grants a non-trial permit and stays as it is.
pub proof fn law_closed_admits(m: BreakerModel, now: u64)
    requires
        m.state == CircuitState::Closed,
    ensures
        acquire_step(m, now) == (m, Some(false)),
{
}

/// An open breaker refuses every request before its cooldown deadline, and
/// grants the trial from the deadline on.
pub proof fn law_open_waits_for_deadline(m: BreakerModel, now: u64)
    requires
        m.state == CircuitState::Open,
        m.cooldown_until is Some,
    ensures
        now < m.cooldown_until.unwrap() ==> acquire_step(m, now) == (m, None::<bool>),
        now >= m.cooldown_until.unwrap() ==> acquire_step(m, now).1 == Some(true)
            && acquire_step(m, now).0.state == CircuitState::HalfOpen,
{
}

/// Once the trial permit is out, no other permit is granted at any time
/// until an outcome is recorded.
pub proof fn law_single_trial(m: BreakerModel, t1: u64, t2: u64)
    requires
        acquire_step(m, t1).1 == Some(true),
    ensures
        acquire_step(acquire_step(m, t1).0, t2).1 is None,
{
}

/// A failed trial re-opens the breaker with the cooldown doubled but never
/// above `max_cooldown`, and the deadline that far from the failure.
pub proof fn law_trial_failure_backoff(m: BreakerModel, now: u64)
    ensures
        failure_step(m, true, now).state == CircuitState::Open,
        failure_step(m, true, now).current_cooldown == if 2 * m.current_cooldown
            <= m.config.max_cooldown {
            2 * m.current_cooldown
        } else {
            m.config.max_cooldown as int
        },
        failure_step(m, true, now).current_cooldown <= m.config.max_cooldown,
        failure_step(m, true, now).cooldown_until == Some(
            (now + failure_step(m, true, now).current_cooldown) as u64,
        ),
{
}

/// A success closes the breaker, clears its failures and restores the
/// configured cooldown, so the next opening waits `config.cooldown` again.
pub proof fn law_success_resets(m: BreakerModel, now: u64)
    ensures
        success_step(m).state == CircuitState::Closed,
        success_step(m).recent_failures.len() == 0,
        success_step(m).current_cooldown == m.config.cooldown,
        failure_step(success_step(m), false, now).state == CircuitState::Open ==> failure_step(
            success_step(m),
            false,
            now,
        ).cooldown_until == Some((now + m.config.cooldown) as u64),
{
}


/// Failure times that are all recent are all kept.
pub proof fn lemma_within_window_keeps_recent(s: Seq<u64>, now: u64, window: u64)
    requires
        forall|i: int| 0 <= i < s.len() ==> elapsed(now, #[trigger] s[i]) <= window,
    ensures
        within_window(s, now, window) == s,
    decreases s.len(),
{
    if s.len() > 0 {
        lemma_within_window_keeps_recent(s.drop_last(), now, window);
        assert(s.drop_last().push(s.last()) =~= s);
    }
}

/// The breaker after non-trial failures at each of `times`, in order.
pub open spec fn failures_over(m: BreakerModel, times: Seq<u64>) -> BreakerModel
    decreases times.len(),
{
    if times.len() == 0 {
        m
    } else {
        failure_step(failures_over(m, times.drop_last()), false, times.last())
    }
}

/// From a closed breaker with no recorded failures, failures that all fall
/// within one window keep it closed until `failure_threshold` of them are
/// recorded, and that many open it until the last failure plus the
/// cooldown.
pub proof fn law_threshold_failures_open(m: BreakerModel, times: Seq<u64>)
    requires
        m.state == CircuitState::Closed,
        m.recent_failures.len() == 0,
        1 <= times.len() <= m.config.failure_threshold,
        forall|i: int, j: int| 0 <= i <= j < times.len() ==> times[i] <= times[j],
        times.last() - times[0] <= m.config.window,
    ensures
        failures_over(m, times).config == m.config,
        failures_over(m, times).current_cooldown == m.current_cooldown,
        failures_over(m, times).recent_failures == times,
        times.len() < m.config.failure_threshold ==> failures_over(m, times).state
            == CircuitState::Closed,
        times.len() == m.config.failure_threshold ==> failures_over(m, times).state
            == CircuitState::Open && failures_over(m, times).cooldown_until == Some(
            (times.last() + m.current_cooldown) as u64,
        ),
    decreases times.len(),
{
    let t = times.drop_last();
    let prev = failures_over(m, t);
    if times.len() == 1 {
        assert(t =~= Seq::<u64>::empty());
        assert(prev == m);
    } else {
        law_threshold_failures_open(m, t);
    }
    let pushed = prev.recent_failures.push(times.last());
    assert(pushed =~= times) by {
        if times.len() == 1 {
            assert(prev.recent_failures =~= Seq::<u64>::empty());
        }
    }
    assert forall|i: int| 0 <= i < pushed.len() implies elapsed(times.last(), #[trigger] pushed[i])
        <= m.config.window by {
        assert(pushed[i] == times[i]);
        assert(times[0] <= times[i]);
    }
    lemma_within_window_keeps_recent(pushed, times.last(), m.config.window);
}

/// Dropping old failures at `t1` and then at a later `t2` drops the same
/// ones as dropping them at `t2` alone, when no failure is later than `t1`.
proof fn lemma_window_twice(p: Seq<u64>, t1: u64, t2: u64, window: u64)
    requires
        t1 <= t2,
        forall|i: int| 0 <= i < p.len() ==> #[trigger] p[i] <= t1,
    ensures
        within_window(within_window(p, t1, window), t2, window) == within_window(p, t2, window),
    decreases p.len(),
{
    if p.len() > 0 {
        let d = p.drop_last();
        lemma_window_twice(d, t1, t2, window);
        let x = p.last();
        assert(p.drop_last() == d);
        if elapsed(t1, x) <= window {
            let w1 = within_window(d, t1, window).push(x);
            assert(w1.drop_last() =~= within_window(d, t1, window));
            assert(w1.last() == x);
        }
    }
}

/// A failure recorded at `now` is kept, after the older ones that remain.
proof fn lemma_window_push_now(p: Seq<u64>, now: u64, window: u64)
    ensures
        within_window(p.push(now), now, window) == within_window(p, now, window).push(now),
{
    assert(p.push(now).drop_last() =~= p);
}

/// While a breaker that started closed with no failures stays closed,
/// it keeps exactly the failures that lie within the window of the latest
/// one; it opens at the failure that brings that count to
/// `failure_threshold`, until that failure plus the cooldown.
pub proof fn law_window_failures_open(m: BreakerModel, times: Seq<u64>)
    requires
        m.state == CircuitState::Closed,
        m.recent_failures.len() == 0,
        times.len() >= 1,
        forall|i: int, j: int| 0 <= i <= j < times.len() ==> times[i] <= times[j],
        forall|k: int|
            1 <= k < times.len() ==> (#[trigger] within_window(times.take(k), times[k - 1], m.config.window)).len()
                < m.config.failure_threshold,
    ensures
        failures_over(m, times).config == m.config,
        failures_over(m, times).current_cooldown == m.current_cooldown,
        failures_over(m, times).recent_failures == within_window(times, times.last(), m.config.window),
        failures_over(m, times).state == CircuitState::Closed || failures_over(m, times).state
            == CircuitState::Open,
        failures_over(m, times).state == CircuitState::Open <==> within_window(
            times,
            times.last(),
            m.config.window,
        ).len() >= m.config.failure_threshold,
        failures_over(m, times).state == CircuitState::Open ==> failures_over(m, times).cooldown_until
            == Some((times.last() + m.current_cooldown) as u64),
    decreases times.len(),
{
    let w = m.config.window;
    let n = times.len() as int;
    let d = times.drop_last();
    let t = times.last();
    let prev = failures_over(m, d);
    assert(times == d.push(t));
    if n == 1 {
        assert(d =~= Seq::<u64>::empty());
        assert(prev == m);
        assert(within_window(d, t, w) =~= Seq::<u64>::empty());
        lemma_window_push_now(d, t, w);
        assert(prev.recent_failures.push(t) =~= d.push(t));
    } else {
        assert forall|k: int| 1 <= k < d.len() implies (#[trigger] within_window(d.take(k), d[k - 1], w)).len()
            < m.config.failure_threshold by {
            assert(d.take(k) =~= times.take(k));
            assert(within_window(times.take(k), times[k - 1], w).len() < m.config.failure_threshold);
        }
        law_window_failures_open(m, d);
        assert(d =~= times.take(n - 1));
        assert(within_window(times.take(n - 1), times[n - 2], w).len() < m.config.failure_threshold);
        assert(d.last() == times[n - 2]);
        assert(prev.state == CircuitState::Closed);
        assert forall|i: int| 0 <= i < d.len() implies #[trigger] d[i] <= d.last() by {
            assert(times[i] <= times[n - 2]);
        }
        lemma_window_twice(d, d.last(), t, w);
        lemma_window_push_now(within_window(d, d.last(), w), t, w);
        lemma_window_push_now(d, t, w);
    }
}

} // verus!
