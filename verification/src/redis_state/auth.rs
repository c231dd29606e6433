//! API keys and the bearer check of the HTTP API.
//!
//! A key is `sv_` followed by 64 lowercase hex digits (32 random bytes).
//! The key set keeps only entries `{name}:{hash}`, where the hash is the
//! lowercase hex SHA-256 of the key without its `sv_` prefix, so the
//! plaintext key is never stored. Reading and writing the set is the
//! caller's: these functions take the set's members and say what to add,
//! remove or answer.

use vstd::prelude::*;
use sha2::Digest;
use crate::proxy::failover::opt_view;
use crate::security::string_views;
use crate::text::{
    chars_of, find_from, first_from, has_prefix, has_suffix, lemma_first_from, matches_at,
    slice_of, starts_with, string_from_chars,
};

verus! {

/// What SHA-256 gives for `data`.
pub uninterp spec fn sha256_of(data: Seq<u8>) -> Seq<u8>;

/// The SHA-256 digest of `data`.
///
/// Calls `sha2::Sha256::digest`. The result is named `sha256_of` of the
/// input; it is 32 bytes long, the output size the sha2 crate gives SHA-256.
#[verifier::external_body]
fn sha256_digest(data: &[u8]) -> (r: Vec<u8>)
    ensures
        r@ == sha256_of(data@),
        r@.len() == 32,
{
    sha2::Sha256::digest(data).to_vec()
}

/// 32 random bytes.
///
/// Calls `rand::random::<[u8; 32]>()` (the thread-local generator, seeded
/// from the operating system). Nothing is claimed of the bytes but their
/// number.
#[verifier::external_body]
fn random_key_bytes() -> (r: Vec<u8>)
    ensures
        r@.len() == 32,
{
    rand::random::<[u8; 32]>().to_vec()
}

/// The lowercase hex digits.
pub open spec fn hex_alphabet() -> Seq<char> {
    seq!['0', '1', '2', '3', '4', '5', '6', '7', '8', '9', 'a', 'b', 'c', 'd', 'e', 'f']
}

/// The lowercase hex text of `bytes`: two digits per byte, high first.
pub open spec fn hex_of(bytes: Seq<u8>) -> Seq<char>
    decreases bytes.len(),
{
    if bytes.len() == 0 {
        Seq::empty()
    } else {
        let b = bytes.last();
        hex_of(bytes.drop_last()) + seq![hex_alphabet()[(b / 16) as int], hex_alphabet()[(b % 16) as int]]
    }
}

/// The hex text of `n` bytes has `2 n` digits.
pub proof fn lemma_hex_len(bytes: Seq<u8>)
    ensures
        hex_of(bytes).len() == 2 * bytes.len(),
    decreases bytes.len(),
{
    if bytes.len() > 0 {
        lemma_hex_len(bytes.drop_last());
    }
}

/// Lowercase hex encoding (the `hex` crate's `encode`).
pub fn hex_encode(bytes: &[u8]) -> (r: String)
    ensures
        r@ == hex_of(bytes@),
{
    let alphabet: Vec<char> = vec![
        '0', '1', '2', '3', '4', '5', '6', '7', '8', '9', 'a', 'b', 'c', 'd', 'e', 'f',
    ];
    assert(alphabet@ =~= hex_alphabet());
    let mut out: Vec<char> = Vec::new();
    let mut i: usize = 0;
    while i < bytes.len()
        invariant
            i <= bytes@.len(),
            out@ == hex_of(bytes@.subrange(0, i as int)),
            alphabet@ == hex_alphabet(),
        decreases bytes@.len() - i,
    {
        let b = bytes[i];
        out.push(alphabet[(b / 16) as usize]);
        out.push(alphabet[(b % 16) as usize]);
        assert(bytes@.subrange(0, i + 1).drop_last() =~= bytes@.subrange(0, i as int));
        assert(out@ =~= hex_of(bytes@.subrange(0, i + 1)));
        i = i + 1;
    }
    assert(bytes@.subrange(0, i as int) =~= bytes@);
    string_from_chars(&out)
}

/// The lowercase hex SHA-256 of the UTF-8 bytes of `input`.
pub fn sha256_hex(input: &str) -> (r: String)
    ensures
        r@ == hex_of(sha256_of(vstd::utf8::encode_utf8(input@))),
{
    let d = sha256_digest(input.as_bytes());
    hex_encode(d.as_slice())
}

/// The prefix of every key.
pub open spec fn key_prefix() -> Seq<char> {
    seq!['s', 'v', '_']
}

/// A key without its `sv_` prefix, when it has one.
pub open spec fn stripped_key(k: Seq<char>) -> Seq<char> {
    if has_prefix(k, key_prefix()) {
        k.subrange(3, k.len() as int)
    } else {
        k
    }
}

/// The stored hash of a key.
pub open spec fn key_hash_of(k: Seq<char>) -> Seq<char> {
    hex_of(sha256_of(vstd::utf8::encode_utf8(stripped_key(k))))
}

/// The set entry of a key named `name` with hash `hash`.
pub open spec fn key_entry(name: Seq<char>, hash: Seq<char>) -> Seq<char> {
    name + seq![':'] + hash
}

/// A key without its `sv_` prefix, when it has one.
pub fn strip_key_prefix(key: &str) -> (r: String)
    ensures
        r@ == stripped_key(key@),
{
    let k = chars_of(key);
    let p: Vec<char> = vec!['s', 'v', '_'];
    assert(p@ =~= key_prefix());
    if starts_with(&k, &p) {
        string_from_chars(&slice_of(&k, 3, k.len()))
    } else {
        string_from_chars(&k)
    }
}

/// The stored hash of `key`.
pub fn key_hash(key: &str) -> (r: String)
    ensures
        r@ == key_hash_of(key@),
{
    let s = strip_key_prefix(key);
    sha256_hex(s.as_str())
}

/// A new key: the plaintext handed out once, and the entry stored.
#[derive(Debug)]
pub struct NewApiKey {
    pub plaintext: String,
    pub entry: String,
}

/// The key made of `raw` for `name`: `sv_` and the hex of `raw`, and the
/// entry `{name}:{hash of that key}`.
pub fn api_key_from_bytes(name: &str, raw: &[u8]) -> (r: NewApiKey)
    ensures
        r.plaintext@ == key_prefix() + hex_of(raw@),
        r.entry@ == key_entry(name@, key_hash_of(r.plaintext@)),
{
    let hex = hex_encode(raw);
    let mut text: Vec<char> = vec!['s', 'v', '_'];
    let h = chars_of(hex.as_str());
    crate::text::append(&mut text, &h);
    let plaintext = string_from_chars(&text);
    let hash = key_hash(plaintext.as_str());
    let mut entry = chars_of(name);
    entry.push(':');
    let hc = chars_of(hash.as_str());
    crate::text::append(&mut entry, &hc);
    assert(entry@ =~= key_entry(name@, key_hash_of(plaintext@)));
    assert(text@ =~= key_prefix() + hex_of(raw@));
    NewApiKey { plaintext, entry: string_from_chars(&entry) }
}

/// A new random key for `name`; the caller adds the entry to the key set
/// and hands out the plaintext.
pub fn create_key(name: &str) -> (r: NewApiKey)
    ensures
        exists|raw: Seq<u8>| raw.len() == 32 && r.plaintext@ == key_prefix() + #[trigger] hex_of(raw),
        r.plaintext@.len() == 67,
        r.entry@ == key_entry(name@, key_hash_of(r.plaintext@)),
{
    let raw = random_key_bytes();
    let r = api_key_from_bytes(name, raw.as_slice());
    proof {
        lemma_hex_len(raw@);
    }
    r
}

/// A key handed out for some bytes validates against its own entry: the
/// hash in the entry is the hash of the key.
pub proof fn law_created_key_matches_entry(name: Seq<char>, raw: Seq<u8>)
    ensures
        stripped_key(key_prefix() + hex_of(raw)) == hex_of(raw),
        has_suffix(
            key_entry(name, key_hash_of(key_prefix() + hex_of(raw))),
            seq![':'] + key_hash_of(key_prefix() + hex_of(raw)),
        ),
{
    let k = key_prefix() + hex_of(raw);
    assert(k.subrange(0, 3) =~= key_prefix());
    assert(k.subrange(3, k.len() as int) =~= hex_of(raw));
    let e = key_entry(name, key_hash_of(k));
    let n = seq![':'] + key_hash_of(k);
    assert(e.subrange(e.len() - n.len(), e.len() as int) =~= n);
}

/// Some member ends with `:` and the hash of `key`.
pub open spec fn key_listed(key: Seq<char>, members: Seq<Seq<char>>) -> bool {
    exists|i: int| 0 <= i < members.len() && has_suffix(#[trigger] members[i], seq![':'] + key_hash_of(key))
}

/// Whether `key` is valid: some member of the set ends with `:{hash}`.
pub fn validate_key(key: &str, members: &[String]) -> (r: bool)
    ensures
        r == key_listed(key@, string_views(members@)),
{
    let hash = key_hash(key);
    let mut needle: Vec<char> = vec![':'];
    let hc = chars_of(hash.as_str());
    crate::text::append(&mut needle, &hc);
    assert(needle@ =~= seq![':'] + key_hash_of(key@));
    let ghost ms = string_views(members@);
    let mut i: usize = 0;
    while i < members.len()
        invariant
            i <= members@.len(),
            ms == string_views(members@),
            needle@ == seq![':'] + key_hash_of(key@),
            forall|j: int| 0 <= j < i ==> !has_suffix(#[trigger] ms[j], needle@),
        decreases members@.len() - i,
    {
        let m = chars_of(members[i].as_str());
        if m.len() >= needle.len() && matches_at(&m, &needle, m.len() - needle.len()) {
            assert(has_suffix(ms[i as int], needle@));
            return true;
        }
        assert(!has_suffix(ms[i as int], needle@));
        i = i + 1;
    }
    false
}

/// The members that start with `prefix`, in order.
pub open spec fn entries_with_prefix(ms: Seq<Seq<char>>, prefix: Seq<char>) -> Seq<Seq<char>>
    decreases ms.len(),
{
    if ms.len() == 0 {
        Seq::empty()
    } else {
        let rest = entries_with_prefix(ms.drop_last(), prefix);
        if has_prefix(ms.last(), prefix) {
            rest.push(ms.last())
        } else {
            rest
        }
    }
}

/// The entries of the key named `name`: the members starting with
/// `{name}:`, to be removed from the set (the key existed when there is
/// one).
pub fn entries_named(name: &str, members: &[String]) -> (r: Vec<String>)
    ensures
        string_views(r@) == entries_with_prefix(string_views(members@), name@ + seq![':']),
{
    let mut prefix = chars_of(name);
    prefix.push(':');
    let mut r: Vec<String> = Vec::new();
    let mut i: usize = 0;
    while i < members.len()
        invariant
            i <= members@.len(),
            prefix@ == name@ + seq![':'],
            string_views(r@) == entries_with_prefix(string_views(members@.subrange(0, i as int)), prefix@),
        decreases members@.len() - i,
    {
        let m = chars_of(members[i].as_str());
        let ghost before = string_views(r@);
        assert(string_views(members@.subrange(0, i + 1)).drop_last() =~= string_views(
            members@.subrange(0, i as int),
        ));
        if starts_with(&m, &prefix) {
            r.push(members[i].clone());
            assert(string_views(r@) =~= before.push(members@[i as int]@));
        }
        i = i + 1;
    }
    assert(members@.subrange(0, i as int) =~= members@);
    r
}

/// The names of the members that hold a `:`: the text before the first.
pub open spec fn names_of_entries(ms: Seq<Seq<char>>) -> Seq<Seq<char>>
    decreases ms.len(),
{
    if ms.len() == 0 {
        Seq::empty()
    } else {
        let rest = names_of_entries(ms.drop_last());
        let m = ms.last();
        let k = first_from(m, ':', 0);
        if k < m.len() {
            rest.push(m.subrange(0, k))
        } else {
            rest
        }
    }
}

/// The key names of the set's members, in order (members without a `:`
/// are left out).
pub fn key_names(members: &[String]) -> (r: Vec<String>)
    ensures
        string_views(r@) == names_of_entries(string_views(members@)),
{
    let mut r: Vec<String> = Vec::new();
    let mut i: usize = 0;
    while i < members.len()
        invariant
            i <= members@.len(),
            string_views(r@) == names_of_entries(string_views(members@.subrange(0, i as int))),
        decreases members@.len() - i,
    {
        let m = chars_of(members[i].as_str());
        let ghost before = string_views(r@);
        assert(string_views(members@.subrange(0, i + 1)).drop_last() =~= string_views(
            members@.subrange(0, i as int),
        ));
        let k = find_from(&m, ':', 0);
        proof {
            lemma_first_from(m@, ':', 0);
        }
        if k < m.len() {
            let name = string_from_chars(&slice_of(&m, 0, k));
            r.push(name);
            assert(string_views(r@) =~= before.push(m@.subrange(0, k as int)));
        }
        i = i + 1;
    }
    assert(members@.subrange(0, i as int) =~= members@);
    r
}

/// The prefix of a bearer authorization.
pub open spec fn bearer_prefix() -> Seq<char> {
    seq!['B', 'e', 'a', 'r', 'e', 'r', ' ']
}

/// The token of an authorization header value: what follows `Bearer `.
pub open spec fn bearer_of(authorization: Option<Seq<char>>) -> Option<Seq<char>> {
    match authorization {
        Some(v) => if has_prefix(v, bearer_prefix()) {
            Some(v.subrange(7, v.len() as int))
        } else {
            None
        },
        None => None,
    }
}

/// The view of an optional text.
pub open spec fn opt_str_view(o: Option<&str>) -> Option<Seq<char>> {
    match o {
        Some(s) => Some(s@),
        None => None,
    }
}

/// The bearer token of an `Authorization` header value, if it is one.
pub fn bearer_token(authorization: Option<&str>) -> (r: Option<String>)
    ensures
        opt_view(r) == bearer_of(opt_str_view(authorization)),
{
    match authorization {
        Some(v) => {
            let c = chars_of(v);
            let p: Vec<char> = vec!['B', 'e', 'a', 'r', 'e', 'r', ' '];
            assert(p@ =~= bearer_prefix());
            if starts_with(&c, &p) {
                Some(string_from_chars(&slice_of(&c, 7, c.len())))
            } else {
                None
            }
        },
        None => None,
    }
}

/// `path` starts with one of `skips`.
pub open spec fn path_skipped(path: Seq<char>, skips: Seq<Seq<char>>) -> bool {
    exists|i: int| 0 <= i < skips.len() && has_prefix(path, #[trigger] skips[i])
}

/// Whether requests to `path` bypass authentication.
pub fn auth_skipped(path: &str, skip_paths: &[String]) -> (r: bool)
    ensures
        r == path_skipped(path@, string_views(skip_paths@)),
{
    let p = chars_of(path);
    let ghost ss = string_views(skip_paths@);
    let mut i: usize = 0;
    while i < skip_paths.len()
        invariant
            i <= skip_paths@.len(),
            p@ == path@,
            ss == string_views(skip_paths@),
            forall|j: int| 0 <= j < i ==> !has_prefix(path@, #[trigger] ss[j]),
        decreases skip_paths@.len() - i,
    {
        let s = chars_of(skip_paths[i].as_str());
        if starts_with(&p, &s) {
            assert(has_prefix(path@, ss[i as int]));
            return true;
        }
        i = i + 1;
    }
    false
}

/// What to do with a request before any key lookup.
#[derive(Debug, Clone, PartialEq, Eq)]
pub enum AuthGate {
    /// Let it through without a check.
    Pass,
    /// Answer 401.
    Reject,
    /// Look this bearer token up in the key set: valid lets it through,
    /// anything else (invalid, or the lookup failed) answers 401.
    Check(String),
}

/// What to do with a request to `path` carrying this `Authorization`
/// value: skipped paths pass; without a key store, or without a bearer
/// token, 401; otherwise check the token.
pub fn auth_gate(path: &str, skip_paths: &[String], has_store: bool, authorization: Option<&str>) -> (r: AuthGate)
    ensures
        path_skipped(path@, string_views(skip_paths@)) ==> r == AuthGate::Pass,
        !path_skipped(path@, string_views(skip_paths@)) && !has_store ==> r == AuthGate::Reject,
        !path_skipped(path@, string_views(skip_paths@)) && has_store ==> match bearer_of(
            opt_str_view(authorization),
        ) {
            Some(t) => r matches AuthGate::Check(s) && s@ == t,
            None => r == AuthGate::Reject,
        },
{
    if auth_skipped(path, skip_paths) {
        return AuthGate::Pass;
    }
    if !has_store {
        return AuthGate::Reject;
    }
    match bearer_token(authorization) {
        Some(t) => AuthGate::Check(t),
        None => AuthGate::Reject,
    }
}

} // verus!
