//! Session timers (RFC 4028).
//!
//! Sessions are refreshed at half the negotiated interval and expire after
//! the full interval without a refresh. Times and intervals are in
//! milliseconds on the clock of [`crate::clock::unix_time_millis`].

use vstd::prelude::*;
use crate::clock::unix_time_millis;
use crate::text::{
    append, chars_of, decimal, lower_text, has_prefix, lemma_first_from, lowercase, parse_uint, parse_uint_spec,
    split_char, split_from, split_on, starts_with, string_from_chars, strip_all_prefix, to_lowercase,
    trim, trim_start_matches, trimmed, u64_to_decimal, views,
};

verus! {

/// Header name for Session-Expires (RFC 4028).
pub const HEADER_SESSION_EXPIRES: &'static str = "Session-Expires";

/// Header name for Min-SE (RFC 4028).
pub const HEADER_MIN_SE: &'static str = "Min-SE";

/// Header name for Supported.
pub const HEADER_SUPPORTED: &'static str = "Supported";

/// Header name for Require.
pub const HEADER_REQUIRE: &'static str = "Require";

/// Feature tag indicating timer support.
pub const TIMER_TAG: &'static str = "timer";

/// Default session expiration interval in seconds (30 min per RFC 4028).
pub const DEFAULT_SESSION_EXPIRES: u64 = 1800;

/// Minimum acceptable session expiration interval in seconds (RFC 4028).
pub const MIN_MIN_SE: u64 = 90;

/// Which party refreshes the session.
#[derive(Debug, Clone, Copy, PartialEq, Eq, Structural)]
pub enum SessionRefresher {
    /// The caller refreshes.
    Uac,
    /// The callee refreshes.
    Uas,
}

/// The header token of a refresher: `uac` or `uas`.
pub open spec fn refresher_token(r: SessionRefresher) -> Seq<char> {
    match r {
        SessionRefresher::Uac => seq!['u', 'a', 'c'],
        SessionRefresher::Uas => seq!['u', 'a', 's'],
    }
}

/// The refresher named by `s`, compared after Unicode lowercasing.
pub open spec fn refresher_of(s: Seq<char>) -> Option<SessionRefresher> {
    if lower_text(s) == refresher_token(SessionRefresher::Uac) {
        Some(SessionRefresher::Uac)
    } else if lower_text(s) == refresher_token(SessionRefresher::Uas) {
        Some(SessionRefresher::Uas)
    } else {
        None
    }
}

impl SessionRefresher {
    /// The header token, `uac` or `uas`.
    pub fn to_string(&self) -> (r: String)
        ensures
            r@ == refresher_token(*self),
    {
        let mut v: Vec<char> = Vec::new();
        v.push('u');
        v.push('a');
        match self {
            SessionRefresher::Uac => v.push('c'),
            SessionRefresher::Uas => v.push('s'),
        }
        assert(v@ =~= refresher_token(*self));
        string_from_chars(&v)
    }

    /// Parses `uac` or `uas`, in any letter case.
    pub fn from_str(s: &str) -> (r: Result<SessionRefresher, ()>)
        ensures
            match refresher_of(s@) {
                Some(x) => r == Ok::<SessionRefresher, ()>(x),
                None => r is Err,
            },
    {
        let cs = chars_of(s);
        match refresher_from_chars(&cs) {
            Some(x) => Ok(x),
            None => Err(()),
        }
    }
}

/// The refresher named by `s`.
fn refresher_from_chars(s: &Vec<char>) -> (r: Option<SessionRefresher>)
    ensures
        r == refresher_of(s@),
{
    let l = to_lowercase(s);
    if l.len() == 3 && l[0] == 'u' && l[1] == 'a' {
        if l[2] == 'c' {
            assert(l@ =~= refresher_token(SessionRefresher::Uac));
            return Some(SessionRefresher::Uac);
        }
        if l[2] == 's' {
            assert(l@ =~= refresher_token(SessionRefresher::Uas));
            return Some(SessionRefresher::Uas);
        }
    }
    assert(l@ != refresher_token(SessionRefresher::Uac));
    assert(l@ != refresher_token(SessionRefresher::Uas));
    None
}

/// State of a session timer.
#[derive(Debug, Clone, Copy)]
pub struct SessionTimerState {
    /// Timer negotiated via Session-Expires.
    pub enabled: bool,
    /// Negotiated session interval, in milliseconds.
    pub session_interval: u64,
    /// Minimum session interval from Min-SE, in milliseconds.
    pub min_se: u64,
    /// Which party sends refreshes.
    pub refresher: SessionRefresher,
    /// Timer running (session established).
    pub active: bool,
    /// A refresh is in flight.
    pub refreshing: bool,
    /// Time of the last successful refresh (or session start).
    pub last_refresh: u64,
    /// Number of successful refreshes.
    pub refresh_count: u32,
    /// Number of failed refresh attempts.
    pub failed_refreshes: u32,
}

impl Default for SessionTimerState {
    /// Disabled and inactive, 1800 s interval, 90 s Min-SE, refreshed by the
    /// caller, last refreshed now.
    fn default() -> (r: Self)
        ensures
            !r.enabled,
            !r.active,
            !r.refreshing,
            r.session_interval == DEFAULT_SESSION_EXPIRES * 1000,
            r.min_se == MIN_MIN_SE * 1000,
            r.refresher == SessionRefresher::Uac,
            r.refresh_count == 0,
            r.failed_refreshes == 0,
    {
        SessionTimerState {
            enabled: false,
            session_interval: DEFAULT_SESSION_EXPIRES * 1000,
            min_se: MIN_MIN_SE * 1000,
            refresher: SessionRefresher::Uac,
            active: false,
            refreshing: false,
            last_refresh: unix_time_millis(),
            refresh_count: 0,
            failed_refreshes: 0,
        }
    }
}

/// Milliseconds from `from` to `to`, or 0 when `to` is not later.
pub open spec fn span(from: u64, to: u64) -> nat {
    if to >= from {
        (to - from) as nat
    } else {
        0
    }
}

/// The timer is running: negotiated and the session established.
pub open spec fn timer_running(s: SessionTimerState) -> bool {
    s.active && s.enabled
}

/// A refresh is due at `now`: the timer runs, none is in flight, and half
/// the interval has passed since the last refresh.
pub open spec fn refresh_due(s: SessionTimerState, now: u64) -> bool {
    timer_running(s) && !s.refreshing && 2 * span(s.last_refresh, now) >= s.session_interval
}

/// The session has expired at `now`: the timer runs and the full interval
/// has passed since the last refresh.
pub open spec fn expired(s: SessionTimerState, now: u64) -> bool {
    timer_running(s) && span(s.last_refresh, now) >= s.session_interval
}

/// The `Session-Expires` value: whole seconds, then `;refresher=` and the token.
pub open spec fn session_expires_value(s: SessionTimerState) -> Seq<char> {
    decimal((s.session_interval / 1000) as nat) + seq![
        ';',
        'r',
        'e',
        'f',
        'r',
        'e',
        's',
        'h',
        'e',
        'r',
        '=',
    ] + refresher_token(s.refresher)
}

impl SessionTimerState {
    /// Whether a refresh should be sent now.
    pub fn should_refresh(&self) -> (r: bool)
        ensures
            exists|now: u64| r == #[trigger] refresh_due(*self, now),
            r ==> timer_running(*self) && !self.refreshing,
    {
        self.should_refresh_at(unix_time_millis())
    }

    /// Whether a refresh should be sent at `now` (half the interval elapsed).
    pub fn should_refresh_at(&self, now: u64) -> (r: bool)
        ensures
            r == refresh_due(*self, now),
    {
        if !self.active || !self.enabled || self.refreshing {
            return false;
        }
        let elapsed: u64 = if now >= self.last_refresh {
            now - self.last_refresh
        } else {
            0
        };
        elapsed as u128 * 2 >= self.session_interval as u128
    }

    /// Whether the session has expired now.
    pub fn is_expired(&self) -> (r: bool)
        ensures
            exists|now: u64| r == #[trigger] expired(*self, now),
            r ==> timer_running(*self),
    {
        self.is_expired_at(unix_time_millis())
    }

    /// Whether the session has expired at `now` (full interval elapsed).
    pub fn is_expired_at(&self, now: u64) -> (r: bool)
        ensures
            r == expired(*self, now),
    {
        if !self.active || !self.enabled {
            return false;
        }
        let elapsed: u64 = if now >= self.last_refresh {
            now - self.last_refresh
        } else {
            0
        };
        elapsed >= self.session_interval
    }

    /// When the next refresh is due, if the timer runs.
    pub fn next_refresh_time(&self) -> (r: Option<u64>)
        requires
            self.last_refresh + self.session_interval / 2 <= u64::MAX,
        ensures
            r == if timer_running(*self) {
                Some((self.last_refresh + self.session_interval / 2) as u64)
            } else {
                None
            },
    {
        if !self.active || !self.enabled {
            return None;
        }
        Some(self.last_refresh + self.session_interval / 2)
    }

    /// When the session expires, if the timer runs.
    pub fn expiration_time(&self) -> (r: Option<u64>)
        requires
            self.last_refresh + self.session_interval <= u64::MAX,
        ensures
            r == if timer_running(*self) {
                Some((self.last_refresh + self.session_interval) as u64)
            } else {
                None
            },
    {
        if !self.active || !self.enabled {
            return None;
        }
        Some(self.last_refresh + self.session_interval)
    }

    /// Time left until expiry at `now` (0 once passed), if the timer runs.
    pub fn time_until_expiration_at(&self, now: u64) -> (r: Option<u64>)
        requires
            self.last_refresh + self.session_interval <= u64::MAX,
        ensures
            r == if timer_running(*self) {
                Some(span(now, (self.last_refresh + self.session_interval) as u64) as u64)
            } else {
                None
            },
    {
        match self.expiration_time() {
            Some(exp) => Some(
                if exp > now {
                    exp - now
                } else {
                    0
                },
            ),
            None => None,
        }
    }

    /// Time left until expiry now, if the timer runs.
    pub fn time_until_expiration(&self) -> (r: Option<u64>)
        requires
            self.last_refresh + self.session_interval <= u64::MAX,
        ensures
            r is Some <==> timer_running(*self),
    {
        self.time_until_expiration_at(unix_time_millis())
    }

    /// Time left until the next refresh at `now` (0 once due), if the timer runs.
    pub fn time_until_refresh_at(&self, now: u64) -> (r: Option<u64>)
        requires
            self.last_refresh + self.session_interval / 2 <= u64::MAX,
        ensures
            r == if timer_running(*self) {
                Some(span(now, (self.last_refresh + self.session_interval / 2) as u64) as u64)
            } else {
                None
            },
    {
        match self.next_refresh_time() {
            Some(next) => Some(
                if next > now {
                    next - now
                } else {
                    0
                },
            ),
            None => None,
        }
    }

    /// Time left until the next refresh now, if the timer runs.
    pub fn time_until_refresh(&self) -> (r: Option<u64>)
        requires
            self.last_refresh + self.session_interval / 2 <= u64::MAX,
        ensures
            r is Some <==> timer_running(*self),
    {
        self.time_until_refresh_at(unix_time_millis())
    }

    /// Begins a refresh; `false` when one is already in flight.
    pub fn start_refresh(&mut self) -> (r: bool)
        ensures
            r == !old(self).refreshing,
            final(self).refreshing,
            *final(self) == (SessionTimerState { refreshing: true, ..*old(self) }),
    {
        if self.refreshing {
            return false;
        }
        self.refreshing = true;
        true
    }

    /// Marks the refresh in flight as done at `now`.
    pub fn complete_refresh_at(&mut self, now: u64)
        requires
            old(self).refresh_count < u32::MAX,
        ensures
            *final(self) == (SessionTimerState {
                last_refresh: now,
                refreshing: false,
                refresh_count: (old(self).refresh_count + 1) as u32,
                ..*old(self)
            }),
    {
        self.last_refresh = now;
        self.refreshing = false;
        self.refresh_count = self.refresh_count + 1;
    }

    /// Marks the refresh in flight as done now.
    pub fn complete_refresh(&mut self)
        requires
            old(self).refresh_count < u32::MAX,
        ensures
                *final(self) == (SessionTimerState {
                    last_refresh: final(self).last_refresh,
                    refreshing: false,
                    refresh_count: (old(self).refresh_count + 1) as u32,
                    ..*old(self)
                }),
    {
        self.complete_refresh_at(unix_time_millis())
    }

    /// Marks the refresh in flight as failed.
    pub fn fail_refresh(&mut self)
        requires
            old(self).failed_refreshes < u32::MAX,
        ensures
            *final(self) == (SessionTimerState {
                refreshing: false,
                failed_refreshes: (old(self).failed_refreshes + 1) as u32,
                ..*old(self)
            }),
    {
        self.refreshing = false;
        self.failed_refreshes = self.failed_refreshes + 1;
    }

    /// Records a refresh received from the other party at `now`.
    pub fn update_refresh_at(&mut self, now: u64)
        requires
            old(self).refresh_count < u32::MAX,
        ensures
            *final(self) == (SessionTimerState {
                last_refresh: now,
                refresh_count: (old(self).refresh_count + 1) as u32,
                ..*old(self)
            }),
    {
        self.last_refresh = now;
        self.refresh_count = self.refresh_count + 1;
    }

    /// Records a refresh received from the other party now.
    pub fn update_refresh(&mut self)
        requires
            old(self).refresh_count < u32::MAX,
        ensures
                *final(self) == (SessionTimerState {
                    last_refresh: final(self).last_refresh,
                    refresh_count: (old(self).refresh_count + 1) as u32,
                    ..*old(self)
                }),
    {
        self.update_refresh_at(unix_time_millis())
    }

    /// The `Session-Expires` header value, e.g. `1800;refresher=uac`.
    pub fn get_session_expires_value(&self) -> (r: String)
        ensures
            r@ == session_expires_value(*self),
    {
        let mut v = u64_to_decimal(self.session_interval / 1000);
        let tail: Vec<char> = vec![';', 'r', 'e', 'f', 'r', 'e', 's', 'h', 'e', 'r', '='];
        append(&mut v, &tail);
        let tok = chars_of(&self.refresher.to_string());
        append(&mut v, &tok);
        string_from_chars(&v)
    }

    /// The `Min-SE` header value: whole seconds.
    pub fn get_min_se_value(&self) -> (r: String)
        ensures
            r@ == decimal((self.min_se / 1000) as nat),
    {
        string_from_chars(&u64_to_decimal(self.min_se / 1000))
    }
}

/// The refresher chosen by the parameters of a Session-Expires value: each
/// trimmed `refresher=` parameter sets it (to `None` when its value names
/// no refresher); the last one wins.
pub open spec fn refresher_param(params: Seq<Seq<char>>) -> Option<SessionRefresher>
    decreases params.len(),
{
    if params.len() == 0 {
        None
    } else {
        let p = trim(params.last());
        let key = seq!['r', 'e', 'f', 'r', 'e', 's', 'h', 'e', 'r', '='];
        if has_prefix(p, key) {
            refresher_of(strip_all_prefix(p, key))
        } else {
            refresher_param(params.drop_last())
        }
    }
}

/// Parse of a `Session-Expires` value `<seconds>[;refresher=uac|uas]`: the
/// interval in seconds and the refresher, or `None` when the part before the
/// first `;` is not a number.
pub open spec fn session_expires_of(value: Seq<char>) -> Option<(u64, Option<SessionRefresher>)> {
    let parts = split_on(value, ';');
    match parse_uint_spec(trim(parts[0]), u64::MAX as nat) {
        Some(secs) => Some((secs as u64, refresher_param(parts.drop_first()))),
        None => None,
    }
}

/// Parses a `Session-Expires` header value into the interval in seconds and
/// the optional refresher.
pub fn parse_session_expires(value: &str) -> (r: Option<(u64, Option<SessionRefresher>)>)
    ensures
        r == session_expires_of(value@),
{
    let v = chars_of(value);
    let parts = split_char(&v, ';');
    proof {
        lemma_split_nonempty(v@, ';', 0);
    }
    let first = trimmed(&parts[0]);
    let secs = match parse_uint(&first, u64::MAX) {
        Some(x) => x,
        None => {
            return None;
        },
    };
    let key: Vec<char> = vec!['r', 'e', 'f', 'r', 'e', 's', 'h', 'e', 'r', '='];
    let mut refresher: Option<SessionRefresher> = None;
    let ghost all = views(parts@);
    let mut i: usize = 1;
    while i < parts.len()
        invariant
            1 <= i <= parts@.len(),
            all == views(parts@),
            all.len() == parts@.len(),
            key@ == seq!['r', 'e', 'f', 'r', 'e', 's', 'h', 'e', 'r', '='],
            refresher == refresher_param(all.subrange(1, i as int)),
        decreases parts@.len() - i,
    {
        let part = trimmed(&parts[i]);
        assert(all.subrange(1, i + 1).drop_last() =~= all.subrange(1, i as int));
        assert(all.subrange(1, i + 1).last() == parts@[i as int]@);
        if starts_with(&part, &key) {
            let val = trim_start_matches(&part, &key);
            refresher = refresher_from_chars(&val);
        }
        i = i + 1;
    }
    assert(all.subrange(1, i as int) =~= all.drop_first());
    Some((secs, refresher))
}

/// Splitting never yields zero pieces.
pub proof fn lemma_split_nonempty(s: Seq<char>, c: char, i: int)
    requires
        0 <= i <= s.len(),
    ensures
        split_from(s, c, i).len() >= 1,
{
    lemma_first_from(s, c, i);
}

/// A header of a SIP message as the stack hands it over: its name, its
/// value, and whether the stack parsed it into one of its typed headers
/// (`Via`, `To`, ...) rather than keeping it as a name and a text.
#[derive(Debug, Clone, PartialEq)]
pub struct SipHeader {
    pub name: String,
    pub value: String,
    pub typed: bool,
}

/// Two header names are the same, ignoring ASCII case.
pub open spec fn same_name(a: Seq<char>, b: Seq<char>) -> bool {
    crate::text::ascii_lower_seq(a) == crate::text::ascii_lower_seq(b)
}

/// The value of the first untyped header named `Session-Expires` (in any
/// ASCII case) from position `i` on.
pub open spec fn session_expires_from(hs: Seq<SipHeader>, i: int) -> Option<Seq<char>>
    decreases hs.len() - i,
{
    if i < 0 || i >= hs.len() {
        None
    } else if !hs[i].typed && same_name(hs[i].name@, HEADER_SESSION_EXPIRES@) {
        Some(hs[i].value@)
    } else {
        session_expires_from(hs, i + 1)
    }
}

/// The value of the first untyped `Session-Expires` header (name compared
/// ignoring ASCII case), if any.
pub fn extract_session_expires(headers: &[SipHeader]) -> (r: Option<String>)
    ensures
        crate::proxy::failover::opt_view(r) == session_expires_from(headers@, 0),
{
    let target = crate::text::to_ascii_lowercase(&chars_of(HEADER_SESSION_EXPIRES));
    let mut i: usize = 0;
    while i < headers.len()
        invariant
            i <= headers@.len(),
            target@ == crate::text::ascii_lower_seq(HEADER_SESSION_EXPIRES@),
            session_expires_from(headers@, 0) == session_expires_from(headers@, i as int),
        decreases headers@.len() - i,
    {
        let h = &headers[i];
        if !h.typed {
            let n = crate::text::to_ascii_lowercase(&chars_of(h.name.as_str()));
            if crate::text::eq_chars(&n, &target) {
                return Some(string_from_chars(&chars_of(h.value.as_str())));
            }
        }
        i = i + 1;
    }
    None
}

/// Refreshing comes before expiry: whenever a running session with no
/// refresh in flight has expired, a refresh was already due; and before
/// half the interval has passed the session has not expired.
pub proof fn law_refresh_before_expiry(s: SessionTimerState, now: u64)
    ensures
        !s.refreshing && expired(s, now) ==> refresh_due(s, now),
        s.session_interval > 0 && timer_running(s) && 2 * span(s.last_refresh, now) < s.session_interval
            ==> !expired(s, now),
{
}

/// The character of digit `x` is a digit of value `x`.
proof fn lemma_digit_char(x: nat)
    requires
        x < 10,
    ensures
        crate::text::is_digit(crate::text::digit_char(x)),
        crate::text::digit_val(crate::text::digit_char(x)) == x,
{
    let c = crate::text::digit_char(x);
    assert(c as u32 == 48 + x);
}

/// The decimal text of `n`: at least one digit, all digits, of value `n`.
proof fn lemma_decimal_digits(n: nat)
    ensures
        decimal(n).len() >= 1,
        crate::text::all_digits(decimal(n)),
        crate::text::digits_value(decimal(n)) == n,
    decreases n,
{
    let d = decimal(n);
    if n < 10 {
        lemma_digit_char(n);
        assert(d =~= seq![crate::text::digit_char(n)]);
        assert(d.drop_last() =~= Seq::<char>::empty());
        assert(crate::text::digits_value(d.drop_last()) == 0);
        assert(crate::text::digits_value(d) == crate::text::digits_value(d.drop_last()) * 10
            + crate::text::digit_val(d.last()));
    } else {
        lemma_decimal_digits(n / 10);
        assert(d.drop_last() =~= decimal(n / 10));
        vstd::arithmetic::div_mod::lemma_fundamental_div_mod(n as int, 10);
        lemma_digit_char(n % 10);
        assert(d.last() == crate::text::digit_char(n % 10));
        assert(crate::text::digits_value(d) == crate::text::digits_value(d.drop_last()) * 10
            + crate::text::digit_val(d.last()));
        assert(crate::text::digits_value(d) == (n / 10) * 10 + n % 10);
    }
}

/// A refresher token reads back as its refresher.
proof fn lemma_refresher_token(r: SessionRefresher)
    ensures
        refresher_of(refresher_token(r)) == Some(r),
{
    let t = refresher_token(r);
    assert(crate::text::all_ascii(t));
    assert(crate::text::ascii_lower_seq(t) =~= t);
    assert(refresher_token(SessionRefresher::Uac)[2] != refresher_token(SessionRefresher::Uas)[2]);
}

/// The `Session-Expires` value of a timer reads back as its interval in
/// whole seconds and its refresher.
pub proof fn law_session_expires_round_trip(s: SessionTimerState)
    ensures
        session_expires_of(session_expires_value(s)) == Some(
            (((s.session_interval / 1000) as nat) as u64, Some(s.refresher)),
        ),
{
    let k = (s.session_interval / 1000) as nat;
    let d = decimal(k);
    let key = seq!['r', 'e', 'f', 'r', 'e', 's', 'h', 'e', 'r', '='];
    let tok = refresher_token(s.refresher);
    let rest = key + tok;
    let v = session_expires_value(s);
    lemma_decimal_digits(k);
    assert(v =~= d + seq![';'] + rest);
    let l = d.len() as int;
    assert(v[l] == ';');
    assert forall|i: int| 0 <= i < l implies v[i] != ';' by {
        assert(v[i] == d[i]);
        assert(crate::text::is_digit(d[i]));
    }
    assert forall|i: int| l < i < v.len() implies v[i] != ';' by {
        assert(v[i] == rest[i - l - 1]);
    }
    lemma_first_from(v, ';', 0);
    let f0 = crate::text::first_from(v, ';', 0);
    if f0 < l {
        assert(v[f0] == ';');
    }
    assert(f0 == l);
    lemma_first_from(v, ';', l + 1);
    let f1 = crate::text::first_from(v, ';', l + 1);
    if f1 < v.len() {
        assert(v[f1] == ';');
    }
    assert(f1 == v.len());
    let tail = split_from(v, ';', l + 1);
    assert(tail == seq![v.subrange(l + 1, v.len() as int)]);
    let parts = split_on(v, ';');
    assert(parts == seq![v.subrange(0, l)].add(tail));
    assert(v.subrange(0, l) =~= d);
    assert(v.subrange(l + 1, v.len() as int) =~= rest);
    assert(parts[0] == d);
    assert(parts.drop_first() =~= seq![rest]);
    assert(!crate::text::is_ws(d[0]) && !crate::text::is_ws(d.last())) by {
        assert(crate::text::is_digit(d[0]));
        assert(crate::text::is_digit(d.last()));
    }
    assert(crate::text::trim_start(d) == d);
    assert(crate::text::trim_end(d) == d);
    assert(crate::text::unsigned_digits(d) == d) by {
        assert(crate::text::is_digit(d[0]));
    }
    assert(parse_uint_spec(trim(d), u64::MAX as nat) == Some(k));
    assert(rest[0] == 'r' && (rest.last() == 'c' || rest.last() == 's'));
    assert(crate::text::trim_start(rest) == rest);
    assert(crate::text::trim_end(rest) == rest);
    assert(trim(rest) == rest);
    assert(rest.subrange(0, 10) =~= key);
    assert(has_prefix(rest, key));
    assert(rest.subrange(10, rest.len() as int) =~= tok);
    assert(!has_prefix(tok, key));
    assert(strip_all_prefix(tok, key) == tok);
    assert(strip_all_prefix(rest, key) == tok);
    lemma_refresher_token(s.refresher);
    assert(seq![rest].drop_last() =~= Seq::<Seq<char>>::empty());
    assert(refresher_param(seq![rest]) == Some(s.refresher));
}

} // verus!
