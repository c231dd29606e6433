//! User parts of SIP URIs.

use vstd::prelude::*;
use crate::text::{
    append, chars_of, find_from, first_from, has_prefix, lemma_first_from, slice_of, starts_with,
    string_from_chars,
};

verus! {

/// `uri` without a leading `sips:` or `sip:` scheme.
pub open spec fn strip_scheme(uri: Seq<char>) -> Seq<char> {
    if has_prefix(uri, "sips:"@) {
        uri.subrange(5, uri.len() as int)
    } else if has_prefix(uri, "sip:"@) {
        uri.subrange(4, uri.len() as int)
    } else {
        uri
    }
}

/// The user part of a SIP URI: after the scheme, up to the first `@`
/// (the whole rest when there is no `@`).
pub open spec fn user_part(uri: Seq<char>) -> Seq<char> {
    let s = strip_scheme(uri);
    s.subrange(0, first_from(s, '@', 0))
}

/// `uri` with its user part replaced by `user`: the scheme (`sips:` when the
/// URI has it, `sip:` otherwise), `user`, then the URI from its first `@`
/// on, or `@unknown` when it has none.
pub open spec fn with_user(uri: Seq<char>, user: Seq<char>) -> Seq<char> {
    let scheme = if has_prefix(uri, "sips:"@) {
        "sips:"@
    } else {
        "sip:"@
    };
    let s = strip_scheme(uri);
    let at = first_from(s, '@', 0);
    if at < s.len() {
        scheme + user + s.subrange(at, s.len() as int)
    } else {
        scheme + user + "@unknown"@
    }
}

/// The characters of `uri` after its scheme.
pub fn scheme_stripped(uri: &Vec<char>) -> (r: Vec<char>)
    ensures
        r@ == strip_scheme(uri@),
{
    let sips = chars_of("sips:");
    let sip = chars_of("sip:");
    proof {
        reveal_strlit("sips:");
        reveal_strlit("sip:");
    }
    if starts_with(uri, &sips) {
        slice_of(uri, 5, uri.len())
    } else if starts_with(uri, &sip) {
        slice_of(uri, 4, uri.len())
    } else {
        slice_of(uri, 0, uri.len())
    }
}

/// The user part of a SIP URI (`sip:user@host` gives `user`).
pub fn extract_user(uri: &str) -> (r: String)
    ensures
        r@ == user_part(uri@),
{
    let u = chars_of(uri);
    let s = scheme_stripped(&u);
    let at = find_from(&s, '@', 0);
    proof {
        lemma_first_from(s@, '@', 0);
    }
    string_from_chars(&slice_of(&s, 0, at))
}

/// The URI with its user part replaced (`sip:alice@example.com` and `bob`
/// give `sip:bob@example.com`).
pub fn rebuild_uri(uri: &str, new_user: &str) -> (r: String)
    ensures
        r@ == with_user(uri@, new_user@),
{
    let u = chars_of(uri);
    let sips = chars_of("sips:");
    let mut out = if starts_with(&u, &sips) {
        sips
    } else {
        chars_of("sip:")
    };
    let s = scheme_stripped(&u);
    let at = find_from(&s, '@', 0);
    proof {
        lemma_first_from(s@, '@', 0);
    }
    append(&mut out, &chars_of(new_user));
    if at < s.len() {
        append(&mut out, &slice_of(&s, at, s.len()));
    } else {
        append(&mut out, &chars_of("@unknown"));
    }
    string_from_chars(&out)
}

} // verus!
