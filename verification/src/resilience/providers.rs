//! Named providers with their circuit breakers, as the fallback clients
//! hold them.

use vstd::prelude::*;
use crate::resilience::chain::{all_wf, models};
use crate::resilience::circuit_breaker::{BreakerModel, CircuitBreaker};
use crate::text::{append, chars_of, decimal, string_from_chars, u64_to_decimal};

verus! {

/// One provider of a fallback chain: its name and its breaker.
#[derive(Debug)]
pub struct ProviderEntry {
    pub name: String,
    pub breaker: CircuitBreaker,
}

/// The names of a list of entries.
pub open spec fn entry_names(es: Seq<ProviderEntry>) -> Seq<Seq<char>> {
    es.map_values(|e: ProviderEntry| e.name@)
}

/// The breaker models of a list of entries.
pub open spec fn entry_models(es: Seq<ProviderEntry>) -> Seq<BreakerModel> {
    es.map_values(|e: ProviderEntry| e.breaker@)
}

/// The names of a list of strings.
pub open spec fn name_views(v: Seq<String>) -> Seq<Seq<char>> {
    v.map_values(|s: String| s@)
}

/// Splits entries into their names and their breakers, in order.
pub fn split_entries(entries: Vec<ProviderEntry>) -> (r: (Vec<String>, Vec<CircuitBreaker>))
    requires
        forall|i: int| 0 <= i < entries@.len() ==> (#[trigger] entries@[i]).breaker.wf(),
    ensures
        r.0@.len() == entries@.len(),
        r.1@.len() == entries@.len(),
        name_views(r.0@) == entry_names(entries@),
        models(r.1@) == entry_models(entries@),
        all_wf(r.1@),
{
    let ghost orig = entries@;
    let mut rest = entries;
    let mut names: Vec<String> = Vec::new();
    let mut breakers: Vec<CircuitBreaker> = Vec::new();
    while rest.len() > 0
        invariant
            names@.len() == breakers@.len(),
            names@.len() + rest@.len() == orig.len(),
            rest@ == orig.subrange(names@.len() as int, orig.len() as int),
            name_views(names@) == entry_names(orig.subrange(0, names@.len() as int)),
            models(breakers@) == entry_models(orig.subrange(0, names@.len() as int)),
            all_wf(breakers@),
            forall|i: int| 0 <= i < orig.len() ==> (#[trigger] orig[i]).breaker.wf(),
        decreases rest@.len(),
    {
        let ghost k = names@.len() as int;
        let ghost prev_names = names@;
        let ghost prev_breakers = breakers@;
        assert(rest@[0] == orig[k]);
        let e = rest.remove(0);
        assert(e == orig[k]);
        let ProviderEntry { name, breaker } = e;
        names.push(name);
        breakers.push(breaker);
        assert(names@ == prev_names.push(orig[k].name));
        assert(breakers@ == prev_breakers.push(orig[k].breaker));
        assert forall|j: int| 0 <= j < k + 1 implies #[trigger] name_views(names@)[j] == entry_names(
            orig.subrange(0, k + 1),
        )[j] by {
            if j < k {
                assert(name_views(prev_names)[j] == entry_names(orig.subrange(0, k))[j]);
            }
        }
        assert(name_views(names@) =~= entry_names(orig.subrange(0, k + 1)));
        assert forall|j: int| 0 <= j < k + 1 implies #[trigger] models(breakers@)[j] == entry_models(
            orig.subrange(0, k + 1),
        )[j] by {
            if j < k {
                assert(models(prev_breakers)[j] == entry_models(orig.subrange(0, k))[j]);
            }
        }
        assert(models(breakers@) =~= entry_models(orig.subrange(0, k + 1)));
        assert(rest@ =~= orig.subrange(k + 1, orig.len() as int));
        assert forall|i: int| 0 <= i < breakers@.len() implies (#[trigger] breakers@[i]).wf() by {
            if i < k {
                assert(breakers@[i] == prev_breakers[i]);
            }
        }
    }
    assert(orig.subrange(0, orig.len() as int) =~= orig);
    (names, breakers)
}

/// The names as string slices.
pub fn names_of(names: &Vec<String>) -> (r: Vec<&str>)
    ensures
        r@.len() == names@.len(),
        forall|i: int| 0 <= i < r@.len() ==> (#[trigger] r@[i])@ == names@[i]@,
{
    let mut r: Vec<&str> = Vec::new();
    let mut i: usize = 0;
    while i < names.len()
        invariant
            i <= names@.len(),
            r@.len() == i,
            forall|j: int| 0 <= j < i ==> (#[trigger] r@[j])@ == names@[j]@,
        decreases names@.len() - i,
    {
        r.push(names[i].as_str());
        i = i + 1;
    }
    r
}

/// `all <n> <tier> providers failed or are open`.
pub open spec fn all_failed_text(n: nat, tier: Seq<char>) -> Seq<char> {
    "all "@ + decimal(n) + " "@ + tier + " providers failed or are open"@
}

/// Builds the error of a chain that ran out of providers.
pub fn all_failed(n: usize, tier: &str) -> (r: String)
    ensures
        r@ == all_failed_text(n as nat, tier@),
{
    let mut v = chars_of("all ");
    append(&mut v, &u64_to_decimal(n as u64));
    append(&mut v, &chars_of(" "));
    append(&mut v, &chars_of(tier));
    append(&mut v, &chars_of(" providers failed or are open"));
    string_from_chars(&v)
}

} // verus!
