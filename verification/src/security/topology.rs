//! Topology hiding: strip internal hops from outgoing SIP headers.

use vstd::prelude::*;
use crate::text::{chars_of, contains, contains_seq, is_text, lowercase, to_lowercase};

verus! {

/// SIP headers as name-value pairs, in order.
#[derive(Debug, Clone, Default, PartialEq)]
pub struct SipHeaders {
    pub headers: Vec<(String, String)>,
}

impl SipHeaders {
    /// Headers holding the given pairs.
    pub fn new(headers: Vec<(String, String)>) -> (r: Self)
        ensures
            r.headers == headers,
    {
        SipHeaders { headers }
    }
}

/// The header pairs as character sequences.
pub open spec fn pair_views(hs: Seq<(String, String)>) -> Seq<(Seq<char>, Seq<char>)> {
    hs.map_values(|p: (String, String)| (p.0@, p.1@))
}

/// `value` contains one of the internal domain substrings.
pub open spec fn internal_value(value: Seq<char>, domains: Seq<&str>) -> bool {
    exists|k: int| 0 <= k < domains.len() && contains_seq(value, (#[trigger] domains[k])@)
}

/// A header name is `Via`, in any case.
pub open spec fn is_via(name: Seq<char>) -> bool {
    lowercase(name) == "via"@
}

/// A header name is `Record-Route`, in any case.
pub open spec fn is_record_route(name: Seq<char>) -> bool {
    lowercase(name) == "record-route"@
}

/// Header `i` survives topology hiding: only the first `Via` can survive,
/// and only when it names no internal domain; a `Record-Route` survives
/// unless it names an internal domain; every other header survives.
pub open spec fn header_kept(hs: Seq<(Seq<char>, Seq<char>)>, domains: Seq<&str>, i: int) -> bool {
    if is_via(hs[i].0) {
        (forall|j: int| 0 <= j < i ==> !is_via(#[trigger] hs[j].0)) && !internal_value(hs[i].1, domains)
    } else if is_record_route(hs[i].0) {
        !internal_value(hs[i].1, domains)
    } else {
        true
    }
}

/// The surviving headers among the first `n`, in order.
pub open spec fn kept_headers(hs: Seq<(Seq<char>, Seq<char>)>, domains: Seq<&str>, n: int) -> Seq<
    (Seq<char>, Seq<char>),
>
    decreases n,
{
    if n <= 0 || n > hs.len() {
        seq![]
    } else if header_kept(hs, domains, n - 1) {
        kept_headers(hs, domains, n - 1).push(hs[n - 1])
    } else {
        kept_headers(hs, domains, n - 1)
    }
}

/// Whether `value` contains one of `internal_domains`.
pub fn is_internal_value(value: &str, internal_domains: &[&str]) -> (r: bool)
    ensures
        r == internal_value(value@, internal_domains@),
{
    let v = chars_of(value);
    let mut k: usize = 0;
    while k < internal_domains.len()
        invariant
            k <= internal_domains@.len(),
            v@ == value@,
            forall|j: int| 0 <= j < k ==> !contains_seq(value@, (#[trigger] internal_domains@[j])@),
        decreases internal_domains@.len() - k,
    {
        let d = chars_of(internal_domains[k]);
        if contains(&v, &d) {
            return true;
        }
        k = k + 1;
    }
    false
}

/// Keeps at most the first (outermost) `Via` header, and drops any `Via`
/// that names an internal domain, the first one included; drops
/// `Record-Route` headers that name an internal domain; all other headers
/// keep their order.
pub fn hide_topology(headers: &mut SipHeaders, internal_domains: &[&str])
    ensures
        pair_views(final(headers).headers@) == kept_headers(
            pair_views(old(headers).headers@),
            internal_domains@,
            old(headers).headers@.len() as int,
        ),
{
    let ghost hs = pair_views(headers.headers@);
    let mut out: Vec<(String, String)> = Vec::new();
    let mut first_via_kept = false;
    let mut i: usize = 0;
    while i < headers.headers.len()
        invariant
            i <= headers.headers@.len(),
            hs == pair_views(headers.headers@),
            hs.len() == headers.headers@.len(),
            pair_views(out@) == kept_headers(hs, internal_domains@, i as int),
            first_via_kept == exists|j: int| 0 <= j < i && is_via(#[trigger] hs[j].0),
        decreases headers.headers@.len() - i,
    {
        let name = &headers.headers[i].0;
        let value = &headers.headers[i].1;
        let lower = to_lowercase(&chars_of(name.as_str()));
        let is_v = is_text(&lower, "via");
        let is_rr = is_text(&lower, "record-route");
        let keep = if is_v {
            !first_via_kept && !is_internal_value(value.as_str(), internal_domains)
        } else if is_rr {
            !is_internal_value(value.as_str(), internal_domains)
        } else {
            true
        };
        assert(hs[i as int] == (name@, value@));
        assert(keep == header_kept(hs, internal_domains@, i as int));
        let ghost before = out@;
        if keep {
            out.push((name.clone(), value.clone()));
            assert(pair_views(out@) =~= pair_views(before).push(hs[i as int]));
        }
        if is_v {
            first_via_kept = true;
        }
        i = i + 1;
    }
    headers.headers = out;
}

} // verus!
