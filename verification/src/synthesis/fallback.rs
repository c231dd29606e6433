//! Provider fallback for speech synthesis.
//!
//! Synthesis streams are stateful, so the fallback happens when a stream is
//! started: the walk goes through the providers in order and the first
//! whose stream opens becomes the active provider for the session. The
//! caller builds the clients and starts their streams, and reports the
//! outcomes.

use vstd::prelude::*;
use crate::resilience::chain::{all_wf, models, walk_next, ChainReport, ChainStep, ChainWalk};
use crate::resilience::circuit_breaker::CircuitBreaker;
use crate::resilience::fallback::FailureKind;
use crate::resilience::providers::{
    all_failed, all_failed_text, entry_models, entry_names, name_views, names_of, split_entries,
    ProviderEntry,
};

verus! {

/// A speech synthesis provider of the chain.
pub type TtsProviderEntry = ProviderEntry;

/// The synthesis fallback chain.
#[derive(Debug)]
pub struct FallbackSynthesisClient {
    pub names: Vec<String>,
    pub breakers: Vec<CircuitBreaker>,
    /// The provider whose stream was started, if any.
    pub active_idx: Option<usize>,
}

impl FallbackSynthesisClient {
    /// One breaker per provider, at least one provider, the active one among them.
    pub open spec fn wf(&self) -> bool {
        &&& self.names@.len() == self.breakers@.len()
        &&& self.breakers@.len() > 0
        &&& self.active_idx matches Some(i) ==> i < self.breakers@.len()
        &&& all_wf(self.breakers@)
    }

    /// The chain over `entries`, not started; an error when there are none.
    pub fn new(entries: Vec<TtsProviderEntry>) -> (r: Result<Self, String>)
        requires
            forall|i: int| 0 <= i < entries@.len() ==> (#[trigger] entries@[i]).breaker.wf(),
        ensures
            entries@.len() == 0 <==> r is Err,
            r matches Err(e) ==> e@ == "FallbackSynthesisClient requires at least one provider"@,
            r matches Ok(c) ==> c.wf() && c.active_idx is None && name_views(c.names@)
                == entry_names(entries@) && models(c.breakers@) == entry_models(entries@),
    {
        if entries.len() == 0 {
            return Err("FallbackSynthesisClient requires at least one provider".to_owned());
        }
        let (names, breakers) = split_entries(entries);
        Ok(FallbackSynthesisClient { names, breakers, active_idx: None })
    }

    /// The providers' names, in chain order.
    pub fn provider_names(&self) -> (r: Vec<&str>)
        ensures
            r@.len() == self.names@.len(),
            forall|i: int| 0 <= i < r@.len() ==> (#[trigger] r@[i])@ == self.names@[i]@,
    {
        names_of(&self.names)
    }

    /// The name of the started provider, if any.
    pub fn active_provider_name(&self) -> (r: Option<&str>)
        requires
            self.wf(),
        ensures
            match self.active_idx {
                Some(i) => r matches Some(n) && n@ == self.names@[i as int]@,
                None => r is None,
            },
    {
        match self.active_idx {
            Some(i) => Some(self.names[i].as_str()),
            None => None,
        }
    }

    /// Starts the walk of `start`: from the first provider, without wrapping.
    pub fn begin_start(&self) -> (r: ChainWalk)
        requires
            self.wf(),
        ensures
            r.wf(),
            r.start == 0,
            r.n == self.breakers@.len(),
            !r.wrap,
            r.offset == 0,
            !r.failed_any,
            r.pending is None,
    {
        ChainWalk::new(0, self.breakers.len(), false)
    }

    /// The next provider to start at `now`; see [`ChainWalk::next`].
    pub fn next_provider(&mut self, walk: &mut ChainWalk, now: u64) -> (r: ChainStep)
        requires
            old(self).wf(),
            old(walk).wf(),
            old(walk).pending is None,
            old(walk).n == old(self).breakers@.len(),
        ensures
            final(self).wf(),
            final(self).names == old(self).names,
            final(self).active_idx == old(self).active_idx,
            final(walk).wf(),
            final(walk).n == old(walk).n,
            final(self).breakers@.len() == old(self).breakers@.len(),
            walk_next(
                *old(walk),
                models(old(self).breakers@),
                now,
                *final(walk),
                models(final(self).breakers@),
                r,
            ),
    {
        walk.next(&mut self.breakers, now)
    }

    /// Reports how building the pending provider's client and starting its
    /// stream went at `now`; the provider that served becomes active.
    pub fn report(&mut self, walk: &mut ChainWalk, outcome: Option<FailureKind>, now: u64) -> (r: ChainReport)
        requires
            old(self).wf(),
            old(walk).wf(),
            old(walk).pending is Some,
            old(walk).n == old(self).breakers@.len(),
        ensures
            final(self).wf(),
            final(self).names == old(self).names,
            final(walk).wf(),
            final(walk).pending is None,
            final(walk).n == old(walk).n,
            r matches ChainReport::Served(i) ==> final(self).active_idx == Some(i) && i == old(walk).pending.unwrap().0,
            !(r is Served) ==> final(self).active_idx == old(self).active_idx,
            outcome is None <==> r is Served,
            outcome == Some(FailureKind::Terminal) <==> r is Stopped,
    {
        let r = walk.report(&mut self.breakers, outcome, now);
        match r {
            ChainReport::Served(i) => {
                self.active_idx = Some(i);
            },
            _ => {},
        }
        r
    }

    /// The error of a start that found no provider: `None` when some
    /// provider failed (its error is the one to return), else `all <n> TTS
    /// providers failed or are open`.
    pub fn exhausted_error(&self, walk: &ChainWalk) -> (r: Option<String>)
        ensures
            walk.failed_any ==> r is None,
            !walk.failed_any ==> (r matches Some(e) && e@ == all_failed_text(self.names@.len() as nat, "TTS"@)),
    {
        if walk.failed_any {
            None
        } else {
            Some(all_failed(self.names.len(), "TTS"))
        }
    }

    /// The error of a synthesis request before any stream was started.
    pub fn not_started_error() -> (r: String)
        ensures
            r@ == "FallbackSynthesisClient not started"@,
    {
        "FallbackSynthesisClient not started".to_owned()
    }
}

} // verus!
