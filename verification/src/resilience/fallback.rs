//! Error classification shared by the provider fallback chains.
//!
//! Retryable errors (connection, 5xx, timeouts, open circuits) move a chain
//! to its next provider; terminal errors (auth and other 4xx) stop it.

use vstd::prelude::*;
use crate::text::{
    ascii_lower_seq, chars_of, contains, contains_seq, lowercase, to_ascii_lowercase, to_lowercase,
};

verus! {

/// `anyhow::Error`, carried through opaquely.
#[verifier::external_type_specification]
#[verifier::external_body]
pub struct ExAnyhowError(anyhow::Error);

/// Whether an error should move a fallback chain to its next provider.
#[derive(Debug, Clone, Copy, PartialEq, Eq, Structural)]
pub enum FailureKind {
    /// Try the next provider.
    Retryable,
    /// Fail immediately.
    Terminal,
}

/// Markers of errors that stop the chain.
pub open spec fn terminal_marker(l: Seq<char>) -> bool {
    ||| contains_seq(l, "401"@)
    ||| contains_seq(l, "403"@)
    ||| contains_seq(l, "unauthorized"@)
    ||| contains_seq(l, "forbidden"@)
    ||| contains_seq(l, "400"@)
    ||| contains_seq(l, "404"@)
    ||| contains_seq(l, "422"@)
    ||| contains_seq(l, "invalid request"@)
}

/// The class of an error message: terminal when its lowercase form holds a
/// terminal marker, retryable otherwise (network, 5xx and timeout markers,
/// and anything ambiguous).
pub open spec fn failure_kind_of(msg: Seq<char>) -> FailureKind {
    if terminal_marker(lowercase(msg)) {
        FailureKind::Terminal
    } else {
        FailureKind::Retryable
    }
}

/// An error is terminal exactly when its lowercase message mentions an
/// authentication or client error: `401`, `403`, `unauthorized`,
/// `forbidden`, `400`, `404`, `422` or `invalid request`. Every other
/// message, server errors, timeouts and unknown text included, is
/// retryable.
pub proof fn law_terminal_iff_client_error_marker(msg: Seq<char>)
    ensures
        failure_kind_of(msg) == FailureKind::Terminal <==> ({
            let l = lowercase(msg);
            contains_seq(l, "401"@) || contains_seq(l, "403"@) || contains_seq(l, "unauthorized"@)
                || contains_seq(l, "forbidden"@) || contains_seq(l, "400"@) || contains_seq(l, "404"@)
                || contains_seq(l, "422"@) || contains_seq(l, "invalid request"@)
        }),
{
}

/// Whether `l` holds any of `markers`.
fn holds_any(l: &Vec<char>, markers: &Vec<&str>) -> (r: bool)
    ensures
        r == exists|k: int| 0 <= k < markers@.len() && contains_seq(l@, (#[trigger] markers@[k])@),
{
    let mut k: usize = 0;
    while k < markers.len()
        invariant
            k <= markers@.len(),
            forall|j: int| 0 <= j < k ==> !contains_seq(l@, (#[trigger] markers@[j])@),
        decreases markers@.len() - k,
    {
        if contains(l, &chars_of(markers[k])) {
            return true;
        }
        k = k + 1;
    }
    false
}

/// Classifies an error message.
pub fn classify_message(msg: &str) -> (r: FailureKind)
    ensures
        r == failure_kind_of(msg@),
{
    let l = to_lowercase(&chars_of(msg));
    let terminal: Vec<&str> = vec![
        "401",
        "403",
        "unauthorized",
        "forbidden",
        "400",
        "404",
        "422",
        "invalid request",
    ];
    if holds_any(&l, &terminal) {
        return FailureKind::Terminal;
    }
    proof {
        if terminal_marker(l@) {
            assert(contains_seq(l@, terminal@[0]@) || contains_seq(l@, terminal@[1]@)
                || contains_seq(l@, terminal@[2]@) || contains_seq(l@, terminal@[3]@)
                || contains_seq(l@, terminal@[4]@) || contains_seq(l@, terminal@[5]@)
                || contains_seq(l@, terminal@[6]@) || contains_seq(l@, terminal@[7]@));
        }
    }
    let retryable: Vec<&str> = vec![
        "500",
        "502",
        "503",
        "504",
        "timeout",
        "timed out",
        "connection",
        "connect error",
        "connection refused",
        "reset",
        "websocket",
        "broken pipe",
        "eof",
    ];
    if holds_any(&l, &retryable) {
        return FailureKind::Retryable;
    }
    FailureKind::Retryable
}

/// The `Debug` rendering of an error.
///
/// Calls `<anyhow::Error as Debug>::fmt` through `format!`. That writes the
/// wrapped error's own `Display` text and its chain of causes, which any
/// implementation, or the operating system, may word as it likes; nothing is
/// claimed of the text.
#[verifier::external_body]
fn error_debug_text(err: &anyhow::Error) -> (r: String) {
    format!("{err:?}")
}

/// The `Display` rendering of an error.
///
/// Calls `<anyhow::Error as Display>::fmt` through `to_string`. That writes
/// the wrapped error's own `Display` text, which any implementation, or the
/// operating system, may word as it likes; nothing is claimed of the text.
#[verifier::external_body]
pub fn error_display_text(err: &anyhow::Error) -> (r: String) {
    err.to_string()
}

/// Classifies a provider error by its `Debug` text; see [`classify_message`],
/// which decides on the text that came back.
pub fn classify_error(err: &anyhow::Error) -> (r: FailureKind)
    ensures
        exists|text: Seq<char>| r == failure_kind_of(text),
{
    let text = error_debug_text(err);
    let r = classify_message(text.as_str());
    assert(r == failure_kind_of(text@));
    r
}

/// The reason tag of a failure message for fallback metrics, matched on its
/// ASCII-lowercase form: `timeout`, `connection`, `5xx` (a `5` and
/// `status`), `4xx` (a `4` and `status`), or `other`.
pub open spec fn reason_tag_of(msg: Seq<char>) -> Seq<char> {
    let s = ascii_lower_seq(msg);
    if contains_seq(s, "timeout"@) || contains_seq(s, "timed out"@) {
        "timeout"@
    } else if contains_seq(s, "connect"@) || contains_seq(s, "connection"@) || contains_seq(
        s,
        "refused"@,
    ) {
        "connection"@
    } else if contains_seq(s, "5"@) && contains_seq(s, "status"@) {
        "5xx"@
    } else if contains_seq(s, "4"@) && contains_seq(s, "status"@) {
        "4xx"@
    } else {
        "other"@
    }
}

/// The reason tag of a failure reads its ASCII-lowercase message in this
/// order: a timeout (`timeout`, `timed out`), then a connection failure
/// (`connect`, `connection`, `refused`), then a status with a `5` (`5xx`),
/// then a status with a `4` (`4xx`), and `other` for anything else.
pub proof fn law_reason_tag_order(msg: Seq<char>)
    ensures
        ({
            let s = ascii_lower_seq(msg);
            let timeout = contains_seq(s, "timeout"@) || contains_seq(s, "timed out"@);
            let connection = contains_seq(s, "connect"@) || contains_seq(s, "connection"@)
                || contains_seq(s, "refused"@);
            let status = contains_seq(s, "status"@);
            &&& timeout ==> reason_tag_of(msg) == "timeout"@
            &&& !timeout && connection ==> reason_tag_of(msg) == "connection"@
            &&& !timeout && !connection && status && contains_seq(s, "5"@) ==> reason_tag_of(msg)
                == "5xx"@
            &&& !timeout && !connection && status && !contains_seq(s, "5"@) && contains_seq(s, "4"@)
                ==> reason_tag_of(msg) == "4xx"@
            &&& !timeout && !connection && !(status && (contains_seq(s, "5"@) || contains_seq(
                s,
                "4"@,
            ))) ==> reason_tag_of(msg) == "other"@
        }),
{
}

/// Whether `s` contains the text `lit`.
fn has_text(s: &Vec<char>, lit: &str) -> (r: bool)
    ensures
        r == contains_seq(s@, lit@),
{
    contains(s, &chars_of(lit))
}

/// The reason tag of a failure message.
pub fn classify_reason_text(msg: &str) -> (r: &'static str)
    ensures
        r@ == reason_tag_of(msg@),
{
    let s = to_ascii_lowercase(&chars_of(msg));
    if has_text(&s, "timeout") || has_text(&s, "timed out") {
        "timeout"
    } else if has_text(&s, "connect") || has_text(&s, "connection") || has_text(&s, "refused") {
        "connection"
    } else if has_text(&s, "5") && has_text(&s, "status") {
        "5xx"
    } else if has_text(&s, "4") && has_text(&s, "status") {
        "4xx"
    } else {
        "other"
    }
}

/// The reason tag of a provider error, by its `Display` text; see
/// [`classify_reason_text`], which decides on the text that came back.
pub fn classify_reason(err: &anyhow::Error) -> (r: &'static str)
    ensures
        exists|text: Seq<char>| r@ == reason_tag_of(text),
{
    let text = error_display_text(err);
    let r = classify_reason_text(text.as_str());
    assert(r@ == reason_tag_of(text@));
    r
}

/// Total time budget of one fallback chain.
#[derive(Debug, Clone, Copy, PartialEq, Eq, Structural)]
pub struct FallbackBudget {
    /// Milliseconds across all attempts.
    pub total: u64,
}

impl Default for FallbackBudget {
    /// Eight seconds.
    fn default() -> (r: Self)
        ensures
            r.total == 8000,
    {
        FallbackBudget { total: 8000 }
    }
}

} // verus!
