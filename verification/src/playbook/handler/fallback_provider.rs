//! Provider fallback for LLM completions.
//!
//! Each request (plain or streaming) is tried against the providers in
//! order within a total time budget: the budget is checked before each
//! provider. Providers whose breaker is open are skipped; a retryable
//! failure moves on, a terminal one is surfaced at once. The caller makes
//! the requests and reports their outcomes.

use vstd::prelude::*;
use crate::resilience::chain::{all_wf, models, walk_next, ChainReport, ChainStep, ChainWalk};
use crate::resilience::circuit_breaker::CircuitBreaker;
use crate::resilience::fallback::{FailureKind, FallbackBudget};
use crate::resilience::providers::{
    all_failed, all_failed_text, entry_models, entry_names, name_views, names_of, split_entries,
    ProviderEntry,
};
use crate::text::{append, chars_of, decimal, digit_char, string_from_chars, u64_to_decimal};

verus! {

/// An LLM provider of the chain.
pub type LlmEntry = ProviderEntry;

/// The LLM fallback chain.
#[derive(Debug)]
pub struct FallbackLlmProvider {
    pub names: Vec<String>,
    pub breakers: Vec<CircuitBreaker>,
    pub budget: FallbackBudget,
}

/// The fractional digits of `rem` thousandths, without trailing zeros.
pub open spec fn millis_fraction(rem: nat) -> Seq<char> {
    let d1 = digit_char(rem / 100);
    let d2 = digit_char((rem / 10) % 10);
    let d3 = digit_char(rem % 10);
    if rem % 100 == 0 {
        seq![d1]
    } else if rem % 10 == 0 {
        seq![d1, d2]
    } else {
        seq![d1, d2, d3]
    }
}

/// The `Debug` text of a duration of `ms` milliseconds: seconds with the
/// fraction when at least one second, else milliseconds, `0ns` for zero.
pub open spec fn duration_text(ms: nat) -> Seq<char> {
    if ms >= 1000 {
        if ms % 1000 == 0 {
            decimal(ms / 1000) + "s"@
        } else {
            decimal(ms / 1000) + "."@ + millis_fraction(ms % 1000) + "s"@
        }
    } else if ms > 0 {
        decimal(ms) + "ms"@
    } else {
        "0ns"@
    }
}

/// Renders a duration of `ms` milliseconds as `Debug` does.
pub fn duration_debug(ms: u64) -> (r: Vec<char>)
    ensures
        r@ == duration_text(ms as nat),
{
    if ms >= 1000 {
        let mut v = u64_to_decimal(ms / 1000);
        let rem = ms % 1000;
        if rem != 0 {
            append(&mut v, &chars_of("."));
            let d1 = ((rem / 100) as u8 + 48u8) as char;
            let d2 = (((rem / 10) % 10) as u8 + 48u8) as char;
            let d3 = ((rem % 10) as u8 + 48u8) as char;
            v.push(d1);
            if rem % 100 != 0 {
                v.push(d2);
                if rem % 10 != 0 {
                    v.push(d3);
                }
            }
            proof {
                reveal_strlit(".");
            }
        }
        append(&mut v, &chars_of("s"));
        v
    } else if ms > 0 {
        let mut v = u64_to_decimal(ms);
        append(&mut v, &chars_of("ms"));
        v
    } else {
        chars_of("0ns")
    }
}

/// `LLM fallback budget of <budget> exhausted`.
pub open spec fn budget_exhausted_text(total: u64) -> Seq<char> {
    "LLM fallback budget of "@ + duration_text(total as nat) + " exhausted"@
}

impl FallbackLlmProvider {
    /// One breaker per provider, at least one provider.
    pub open spec fn wf(&self) -> bool {
        &&& self.names@.len() == self.breakers@.len()
        &&& self.breakers@.len() > 0
        &&& all_wf(self.breakers@)
    }

    /// The chain over `entries` with the default budget; an error when
    /// there are none.
    pub fn new(entries: Vec<LlmEntry>) -> (r: Result<Self, String>)
        requires
            forall|i: int| 0 <= i < entries@.len() ==> (#[trigger] entries@[i]).breaker.wf(),
        ensures
            entries@.len() == 0 <==> r is Err,
            r matches Err(e) ==> e@ == "FallbackLlmProvider requires at least one entry"@,
            r matches Ok(c) ==> c.wf() && c.budget.total == 8000 && name_views(c.names@)
                == entry_names(entries@) && models(c.breakers@) == entry_models(entries@),
    {
        if entries.len() == 0 {
            return Err("FallbackLlmProvider requires at least one entry".to_owned());
        }
        let (names, breakers) = split_entries(entries);
        Ok(FallbackLlmProvider { names, breakers, budget: FallbackBudget::default() })
    }

    /// The same chain with another budget.
    pub fn with_budget(self, budget: FallbackBudget) -> (r: Self)
        ensures
            r.budget == budget,
            r.names == self.names,
            r.breakers == self.breakers,
    {
        let mut s = self;
        s.budget = budget;
        s
    }

    /// The providers' names, in chain order.
    pub fn provider_names(&self) -> (r: Vec<&str>)
        ensures
            r@.len() == self.names@.len(),
            forall|i: int| 0 <= i < r@.len() ==> (#[trigger] r@[i])@ == self.names@[i]@,
    {
        names_of(&self.names)
    }

    /// Starts the walk of one request: from the first provider, without
    /// wrapping.
    pub fn begin_call(&self) -> (r: ChainWalk)
        requires
            self.wf(),
        ensures
            r.wf(),
            r.start == 0,
            r.n == self.breakers@.len(),
            !r.wrap,
            r.offset == 0,
            !r.failed_any,
            r.pending is None,
    {
        ChainWalk::new(0, self.breakers.len(), false)
    }

    /// The budget check before a provider: the error when the time since
    /// the request began (`started`, both Unix milliseconds) reached the
    /// budget.
    pub fn budget_check(&self, started: u64, now: u64) -> (r: Option<String>)
        ensures
            (now >= started && now - started >= self.budget.total) <==> r is Some,
            r matches Some(e) ==> e@ == budget_exhausted_text(self.budget.total),
    {
        if now >= started && now - started >= self.budget.total {
            let mut v = chars_of("LLM fallback budget of ");
            append(&mut v, &duration_debug(self.budget.total));
            append(&mut v, &chars_of(" exhausted"));
            Some(string_from_chars(&v))
        } else {
            None
        }
    }

    /// The next provider to ask at `now`; see [`ChainWalk::next`].
    pub fn next_provider(&mut self, walk: &mut ChainWalk, now: u64) -> (r: ChainStep)
        requires
            old(self).wf(),
            old(walk).wf(),
            old(walk).pending is None,
            old(walk).n == old(self).breakers@.len(),
        ensures
            final(self).wf(),
            final(self).names == old(self).names,
            final(self).budget == old(self).budget,
            final(walk).wf(),
            final(walk).n == old(walk).n,
            final(self).breakers@.len() == old(self).breakers@.len(),
            walk_next(
                *old(walk),
                models(old(self).breakers@),
                now,
                *final(walk),
                models(final(self).breakers@),
                r,
            ),
    {
        walk.next(&mut self.breakers, now)
    }

    /// Reports the pending request at `now`.
    pub fn report(&mut self, walk: &mut ChainWalk, outcome: Option<FailureKind>, now: u64) -> (r: ChainReport)
        requires
            old(self).wf(),
            old(walk).wf(),
            old(walk).pending is Some,
            old(walk).n == old(self).breakers@.len(),
        ensures
            final(self).wf(),
            final(self).names == old(self).names,
            final(self).budget == old(self).budget,
            final(walk).wf(),
            final(walk).pending is None,
            final(walk).n == old(walk).n,
            r matches ChainReport::Served(i) ==> i == old(walk).pending.unwrap().0,
            outcome is None <==> r is Served,
            outcome == Some(FailureKind::Terminal) <==> r is Stopped,
    {
        walk.report(&mut self.breakers, outcome, now)
    }

    /// The error of a request that found no provider: `None` when some
    /// provider failed (its error is the one to return), else `all <n> LLM
    /// providers failed or are open`.
    pub fn exhausted_error(&self, walk: &ChainWalk) -> (r: Option<String>)
        ensures
            walk.failed_any ==> r is None,
            !walk.failed_any ==> (r matches Some(e) && e@ == all_failed_text(self.names@.len() as nat, "LLM"@)),
    {
        if walk.failed_any {
            None
        } else {
            Some(all_failed(self.names.len(), "LLM"))
        }
    }
}

} // verus!
