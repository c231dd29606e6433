//! Registry of circuit breakers keyed by `(tier, provider)`.
//!
//! A breaker is shared by every call that looks up its key, so a provider
//! whose breaker opened stays skipped until its cooldown ends, whichever
//! call observed the failures. Tiers in use: `asr`, `tts`, `llm`.
//! Breakers are addressed by the handle `get_or_create` returns.

use vstd::prelude::*;
use crate::resilience::circuit_breaker::{CircuitBreaker, CircuitBreakerConfig, initial_model, breaker_wf};
use crate::text::{chars_of, eq_chars};

verus! {

/// Breakers by key; handles are positions.
pub struct BreakerRegistry {
    keys: Vec<(String, String)>,
    breakers: Vec<CircuitBreaker>,
}

/// The keys of a registry as character sequences.
pub open spec fn key_views(k: Seq<(String, String)>) -> Seq<(Seq<char>, Seq<char>)> {
    k.map_values(|p: (String, String)| (p.0@, p.1@))
}

impl BreakerRegistry {
    /// The registered keys, in creation order.
    pub closed spec fn keys(&self) -> Seq<(Seq<char>, Seq<char>)> {
        key_views(self.keys@)
    }

    /// The breaker behind each handle.
    pub closed spec fn breakers(&self) -> Seq<CircuitBreaker> {
        self.breakers@
    }

    /// Keys are distinct, one breaker per key, all breakers well formed.
    pub closed spec fn wf(&self) -> bool {
        &&& self.keys@.len() == self.breakers@.len()
        &&& forall|i: int, j: int|
            0 <= i < j < self.keys@.len() ==> key_views(self.keys@)[i] != key_views(self.keys@)[j]
        &&& forall|i: int| 0 <= i < self.breakers@.len() ==> (#[trigger] self.breakers@[i]).wf()
    }

    /// An empty registry.
    pub fn new() -> (r: Self)
        ensures
            r.wf(),
            r.keys().len() == 0,
            r.breakers().len() == 0,
    {
        let r = BreakerRegistry { keys: Vec::new(), breakers: Vec::new() };
        assert(key_views(r.keys@) =~= Seq::<(Seq<char>, Seq<char>)>::empty());
        r
    }

    /// The handle of `(tier, provider)` if registered.
    fn find(&self, tier: &str, provider: &str) -> (r: Option<usize>)
        ensures
            match r {
                Some(i) => i < self.keys().len() && self.keys()[i as int] == (tier@, provider@),
                None => forall|i: int|
                    0 <= i < self.keys().len() ==> self.keys()[i] != (tier@, provider@),
            },
    {
        let t = chars_of(tier);
        let p = chars_of(provider);
        let mut i: usize = 0;
        while i < self.keys.len()
            invariant
                i <= self.keys@.len(),
                t@ == tier@,
                p@ == provider@,
                forall|j: int| 0 <= j < i ==> key_views(self.keys@)[j] != (tier@, provider@),
            decreases self.keys@.len() - i,
        {
            let kt = chars_of(self.keys[i].0.as_str());
            let kp = chars_of(self.keys[i].1.as_str());
            assert(key_views(self.keys@)[i as int] == (kt@, kp@));
            if eq_chars(&kt, &t) && eq_chars(&kp, &p) {
                return Some(i);
            }
            i = i + 1;
        }
        None
    }

    /// No key is registered twice: a key has one handle.
    pub proof fn lemma_keys_distinct(&self)
        requires
            self.wf(),
        ensures
            forall|i: int, j: int|
                0 <= i < self.keys().len() && 0 <= j < self.keys().len() && i != j ==> self.keys()[i]
                    != self.keys()[j],
    {
        assert forall|i: int, j: int|
            0 <= i < self.keys().len() && 0 <= j < self.keys().len() && i != j implies self.keys()[i]
                != self.keys()[j] by {
            if i > j {
                assert(key_views(self.keys@)[j] != key_views(self.keys@)[i]);
            }
        }
    }

    /// The handle of the breaker for `(tier, provider)`, created with the
    /// default configuration on first use.
    pub fn get_or_create(&mut self, tier: &str, provider: &str) -> (r: usize)
        requires
            old(self).wf(),
        ensures
            final(self).wf(),
            r < final(self).keys().len(),
            final(self).keys()[r as int] == (tier@, provider@),
            forall|i: int|
                0 <= i < final(self).keys().len() && final(self).keys()[i] == (tier@, provider@)
                    ==> i == r,
            old(self).keys().contains((tier@, provider@)) ==> final(self).keys() == old(self).keys()
                && final(self).breakers() == old(self).breakers(),
            !old(self).keys().contains((tier@, provider@)) ==> final(self).keys() == old(
                self,
            ).keys().push((tier@, provider@)) && final(self).breakers().len() == r + 1
                && final(self).breakers()[r as int]@ == initial_model(CircuitBreakerConfig::default_spec())
                && final(self).breakers().subrange(0, r as int) == old(self).breakers(),
    {
        self.get_or_create_with(tier, provider, CircuitBreakerConfig::default())
    }

    /// The handle of the breaker for `(tier, provider)`, created with
    /// `config` on first use; an existing breaker is returned unchanged.
    pub fn get_or_create_with(&mut self, tier: &str, provider: &str, config: CircuitBreakerConfig) -> (r: usize)
        requires
            old(self).wf(),
        ensures
            final(self).wf(),
            r < final(self).keys().len(),
            final(self).keys()[r as int] == (tier@, provider@),
            forall|i: int|
                0 <= i < final(self).keys().len() && final(self).keys()[i] == (tier@, provider@)
                    ==> i == r,
            old(self).keys().contains((tier@, provider@)) ==> final(self).keys() == old(self).keys()
                && final(self).breakers() == old(self).breakers(),
            !old(self).keys().contains((tier@, provider@)) ==> final(self).keys() == old(
                self,
            ).keys().push((tier@, provider@)) && final(self).breakers().len() == r + 1
                && final(self).breakers()[r as int]@ == initial_model(config)
                && final(self).breakers().subrange(0, r as int) == old(self).breakers(),
    {
        match self.find(tier, provider) {
            Some(i) => {
                assert(self.keys().contains((tier@, provider@)));
                i
            },
            None => {
                assert(!self.keys().contains((tier@, provider@)));
                let ghost old_keys = self.keys@;
                let ghost old_breakers = self.breakers@;
                let n = self.keys.len();
                self.keys.push((tier.to_owned(), provider.to_owned()));
                self.breakers.push(CircuitBreaker::new(config));
                assert(key_views(self.keys@) =~= key_views(old_keys).push((tier@, provider@)));
                assert(self.breakers@.subrange(0, n as int) =~= old_breakers);
                n
            },
        }
    }

    /// The breaker behind handle `h`.
    pub fn breaker(&mut self, h: usize) -> (r: &mut CircuitBreaker)
        requires
            old(self).wf(),
            h < old(self).keys().len(),
        ensures
            *r == old(self).breakers()[h as int],
            r.wf(),
            final(r).wf() ==> final(self).wf(),
            final(self).keys() == old(self).keys(),
            final(self).breakers() == old(self).breakers().update(h as int, *final(r)),
    {
        &mut self.breakers[h]
    }

    /// Drops every registered breaker.
    pub fn reset_for_tests(&mut self)
        ensures
            final(self).wf(),
            final(self).keys().len() == 0,
    {
        self.keys = Vec::new();
        self.breakers = Vec::new();
        assert(key_views(self.keys@) =~= Seq::<(Seq<char>, Seq<char>)>::empty());
    }
}

} // verus!
