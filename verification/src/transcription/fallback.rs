//! Provider fallback for speech recognition.
//!
//! Each send of audio goes to the active provider. On a retryable failure
//! the walk advances to the next provider, wrapping around the chain; the
//! provider that served becomes the active one, so a failed primary is not
//! probed again on every frame. Providers whose breaker is open are skipped
//! without an attempt; terminal failures are surfaced at once. The caller
//! makes the sends and reports their outcomes.

use vstd::prelude::*;
use crate::resilience::chain::{all_wf, models, walk_next, ChainReport, ChainStep, ChainWalk};
use crate::resilience::circuit_breaker::CircuitBreaker;
use crate::resilience::fallback::FailureKind;
use crate::resilience::providers::{
    all_failed, all_failed_text, entry_models, entry_names, name_views, names_of, split_entries,
    ProviderEntry,
};

verus! {

/// A speech recognition provider of the chain.
pub type AsrProviderEntry = ProviderEntry;

/// The recognition fallback chain.
#[derive(Debug)]
pub struct FallbackTranscriptionClient {
    pub names: Vec<String>,
    pub breakers: Vec<CircuitBreaker>,
    /// The provider tried first.
    pub active_idx: usize,
}

impl FallbackTranscriptionClient {
    /// One breaker per provider, at least one provider, the active one among them.
    pub open spec fn wf(&self) -> bool {
        &&& self.names@.len() == self.breakers@.len()
        &&& self.breakers@.len() > 0
        &&& self.active_idx < self.breakers@.len()
        &&& all_wf(self.breakers@)
    }

    /// The chain over `providers`, the first active; an error when there
    /// are none.
    pub fn new(providers: Vec<AsrProviderEntry>) -> (r: Result<Self, String>)
        requires
            forall|i: int| 0 <= i < providers@.len() ==> (#[trigger] providers@[i]).breaker.wf(),
        ensures
            providers@.len() == 0 <==> r is Err,
            r matches Err(e) ==> e@ == "FallbackTranscriptionClient requires at least one provider"@,
            r matches Ok(c) ==> c.wf() && c.active_idx == 0 && name_views(c.names@) == entry_names(
                providers@,
            ) && models(c.breakers@) == entry_models(providers@),
    {
        if providers.len() == 0 {
            return Err("FallbackTranscriptionClient requires at least one provider".to_owned());
        }
        let (names, breakers) = split_entries(providers);
        Ok(FallbackTranscriptionClient { names, breakers, active_idx: 0 })
    }

    /// The providers' names, in chain order.
    pub fn provider_names(&self) -> (r: Vec<&str>)
        ensures
            r@.len() == self.names@.len(),
            forall|i: int| 0 <= i < r@.len() ==> (#[trigger] r@[i])@ == self.names@[i]@,
    {
        names_of(&self.names)
    }

    /// Starts the walk of one send: from the active provider, wrapping.
    pub fn begin_send(&self) -> (r: ChainWalk)
        requires
            self.wf(),
        ensures
            r.wf(),
            r.start == self.active_idx,
            r.n == self.breakers@.len(),
            r.wrap,
            r.offset == 0,
            !r.failed_any,
            r.pending is None,
    {
        ChainWalk::new(self.active_idx, self.breakers.len(), true)
    }

    /// The next provider to send to at `now`; see [`ChainWalk::next`].
    pub fn next_provider(&mut self, walk: &mut ChainWalk, now: u64) -> (r: ChainStep)
        requires
            old(self).wf(),
            old(walk).wf(),
            old(walk).pending is None,
            old(walk).n == old(self).breakers@.len(),
        ensures
            final(self).wf(),
            final(self).names == old(self).names,
            final(self).active_idx == old(self).active_idx,
            final(walk).wf(),
            final(walk).n == old(walk).n,
            final(self).breakers@.len() == old(self).breakers@.len(),
            walk_next(
                *old(walk),
                models(old(self).breakers@),
                now,
                *final(walk),
                models(final(self).breakers@),
                r,
            ),
    {
        walk.next(&mut self.breakers, now)
    }

    /// Reports the pending send at `now` (`None` for success, else the
    /// failure's class). The provider that served becomes the active one.
    pub fn report(&mut self, walk: &mut ChainWalk, outcome: Option<FailureKind>, now: u64) -> (r: ChainReport)
        requires
            old(self).wf(),
            old(walk).wf(),
            old(walk).pending is Some,
            old(walk).n == old(self).breakers@.len(),
        ensures
            final(self).wf(),
            final(self).names == old(self).names,
            final(walk).wf(),
            final(walk).pending is None,
            final(walk).n == old(walk).n,
            r matches ChainReport::Served(i) ==> final(self).active_idx == i && i == old(walk).pending.unwrap().0,
            !(r is Served) ==> final(self).active_idx == old(self).active_idx,
            outcome is None <==> r is Served,
            outcome == Some(FailureKind::Terminal) <==> r is Stopped,
    {
        let r = walk.report(&mut self.breakers, outcome, now);
        match r {
            ChainReport::Served(i) => {
                self.active_idx = i;
            },
            _ => {},
        }
        r
    }

    /// The error of a send that found no provider: `all <n> ASR providers
    /// failed or are open`.
    pub fn exhausted_error(&self) -> (r: String)
        ensures
            r@ == all_failed_text(self.names@.len() as nat, "ASR"@),
    {
        all_failed(self.names.len(), "ASR")
    }
}

} // verus!
