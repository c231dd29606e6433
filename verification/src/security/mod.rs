//! SIP security checks: IP firewall, user-agent blacklist, flood and
//! brute-force tracking, message validation and topology hiding.

pub mod message_validator;
pub mod topology;
pub mod ip;
pub mod sliding;
pub mod firewall;
pub mod brute_force;
pub mod flood_tracker;

use vstd::prelude::*;
use crate::clock::unix_time_millis;
use crate::pattern::{compile, is_match, regex_compiles, regex_is_match, CompiledPattern};
use crate::text::{append, chars_of, string_from_chars};
use brute_force::BruteForceTracker;
use firewall::{covered, FirewallResult, IpFirewall};
use flood_tracker::{FloodResult, FloodTracker};
use ip::IpKey;
use message_validator::{validate_sip_message, validation_of, SipMessageInfo, ValidationResult};
use topology::{kept_headers, pair_views, SipHeaders};

verus! {

/// Settings of the security module.
#[derive(Debug, Clone)]
pub struct SecurityConfig {
    pub whitelist: Vec<String>,
    pub blacklist: Vec<String>,
    pub ua_blacklist: Vec<String>,
    pub flood_threshold: u64,
    pub flood_window_secs: u64,
    pub flood_block_duration_secs: u64,
    pub auth_failure_threshold: u32,
    pub auth_failure_window_secs: u64,
    pub auth_block_duration_secs: u64,
}

/// The views of a list of strings.
pub open spec fn string_views(v: Seq<String>) -> Seq<Seq<char>> {
    v.map_values(|s: String| s@)
}

impl Default for SecurityConfig {
    /// No firewall lists; the common SIP scanners blacklisted by user
    /// agent; floods of 100 requests a second blocked for 5 minutes; 5
    /// authentication failures a minute blocked for an hour.
    fn default() -> (r: Self)
        ensures
            r.whitelist@.len() == 0,
            r.blacklist@.len() == 0,
            string_views(r.ua_blacklist@) == seq![
                "(?i)sipvicious"@,
                "(?i)friendly-scanner"@,
                "(?i)sipsak"@,
                "(?i)sipcli"@,
            ],
            r.flood_threshold == 100,
            r.flood_window_secs == 1,
            r.flood_block_duration_secs == 300,
            r.auth_failure_threshold == 5,
            r.auth_failure_window_secs == 60,
            r.auth_block_duration_secs == 3600,
    {
        let ua = vec![
            "(?i)sipvicious".to_owned(),
            "(?i)friendly-scanner".to_owned(),
            "(?i)sipsak".to_owned(),
            "(?i)sipcli".to_owned(),
        ];
        assert(string_views(ua@) =~= seq![
            "(?i)sipvicious"@,
            "(?i)friendly-scanner"@,
            "(?i)sipsak"@,
            "(?i)sipcli"@,
        ]);
        SecurityConfig {
            whitelist: Vec::new(),
            blacklist: Vec::new(),
            ua_blacklist: ua,
            flood_threshold: 100,
            flood_window_secs: 1,
            flood_block_duration_secs: 300,
            auth_failure_threshold: 5,
            auth_failure_window_secs: 60,
            auth_block_duration_secs: 3600,
        }
    }
}

/// Result of a security check on a SIP request.
#[derive(Debug, Clone, PartialEq)]
pub enum SecurityCheckResult {
    Allowed,
    Blacklisted,
    Whitelisted,
    FloodBlocked { count: u64 },
    BruteForceBlocked { failures: u32 },
    UaBlocked { ua: String },
    InvalidMessage { reason: String },
}

/// A blocked IP, why, and until when (Unix milliseconds).
#[derive(Debug, Clone, PartialEq)]
pub struct BlockedIpEntry {
    pub ip: IpKey,
    pub reason: String,
    pub blocked_until: u64,
}

/// The patterns of `ps` that compile, in order.
pub open spec fn compiling(ps: Seq<Seq<char>>) -> Seq<Seq<char>>
    decreases ps.len(),
{
    if ps.len() == 0 {
        ps
    } else if regex_compiles(ps.last()) {
        compiling(ps.drop_last()).push(ps.last())
    } else {
        compiling(ps.drop_last())
    }
}

/// Some pattern of `ps` matches the user agent.
pub open spec fn ua_hit(ps: Seq<Seq<char>>, ua: Seq<char>) -> bool {
    exists|i: int| 0 <= i < ps.len() && regex_is_match(#[trigger] ps[i], ua)
}

/// The view of an optional user agent.
pub open spec fn agent_view(ua: Option<&str>) -> Option<Seq<char>> {
    match ua {
        Some(u) => Some(u@),
        None => None,
    }
}

/// A user agent is present and some pattern of `ps` matches it.
pub open spec fn ua_flagged(ps: Seq<Seq<char>>, ua: Option<Seq<char>>) -> bool {
    match ua {
        Some(u) => ua_hit(ps, u),
        None => false,
    }
}

/// `r` lists `k` as blocked until `u` for `reason`.
pub open spec fn listed(r: Seq<BlockedIpEntry>, reason: Seq<char>, k: IpKey, u: u64) -> bool {
    exists|i: int|
        0 <= i < r.len() && (#[trigger] r[i]).ip == k && r[i].blocked_until == u && r[i].reason@
            == reason
}

/// The security checks of the proxy.
pub struct SipSecurityModule {
    pub firewall: IpFirewall,
    pub flood_tracker: FloodTracker,
    pub brute_force: BruteForceTracker,
    pub ua_patterns: Vec<CompiledPattern>,
}

impl SipSecurityModule {
    /// The user-agent patterns in use.
    pub open spec fn ua_sources(&self) -> Seq<Seq<char>> {
        self.ua_patterns@.map_values(|c: CompiledPattern| c.pattern())
    }

    /// The trackers are well formed.
    pub open spec fn wf(&self) -> bool {
        self.flood_tracker.wf() && self.brute_force.wf()
    }

    /// The module for `config`, with the firewall built from its lists.
    /// User-agent patterns that do not compile are left out.
    pub fn with_firewall(config: &SecurityConfig, firewall: IpFirewall) -> (r: Self)
        ensures
            r.wf(),
            r.firewall == firewall,
            r.ua_sources() == compiling(string_views(config.ua_blacklist@)),
            r.flood_tracker.tracker.threshold == config.flood_threshold,
            r.flood_tracker.tracker.window == sliding::secs_to_ms(config.flood_window_secs),
            r.flood_tracker.tracker.block == sliding::secs_to_ms(config.flood_block_duration_secs),
            r.brute_force.tracker.threshold == config.auth_failure_threshold,
            r.brute_force.tracker.window == sliding::secs_to_ms(config.auth_failure_window_secs),
            r.brute_force.tracker.block == sliding::secs_to_ms(config.auth_block_duration_secs),
            forall|k: IpKey| r.flood_tracker.state(k) is None && r.brute_force.state(k) is None,
    {
        let ghost src = string_views(config.ua_blacklist@);
        let mut patterns: Vec<CompiledPattern> = Vec::new();
        let mut i: usize = 0;
        while i < config.ua_blacklist.len()
            invariant
                i <= config.ua_blacklist@.len(),
                src == string_views(config.ua_blacklist@),
                patterns@.map_values(|c: CompiledPattern| c.pattern()) == compiling(
                    src.subrange(0, i as int),
                ),
            decreases config.ua_blacklist@.len() - i,
        {
            let ghost before = patterns@;
            assert(src.subrange(0, i + 1).drop_last() =~= src.subrange(0, i as int));
            assert(src.subrange(0, i + 1).last() == config.ua_blacklist@[i as int]@);
            match compile(config.ua_blacklist[i].as_str()) {
                Some(c) => {
                    patterns.push(c);
                    assert(patterns@.map_values(|c: CompiledPattern| c.pattern()) =~= before.map_values(
                        |c: CompiledPattern| c.pattern(),
                    ).push(config.ua_blacklist@[i as int]@));
                },
                None => {},
            }
            i = i + 1;
        }
        assert(src.subrange(0, i as int) =~= src);
        SipSecurityModule {
            firewall,
            flood_tracker: FloodTracker::new(
                config.flood_threshold,
                config.flood_window_secs,
                config.flood_block_duration_secs,
            ),
            brute_force: BruteForceTracker::new(
                config.auth_failure_threshold,
                config.auth_failure_window_secs,
                config.auth_block_duration_secs,
            ),
            ua_patterns: patterns,
        }
    }

    /// Whether some user-agent pattern matches `ua`.
    fn ua_blocked(&self, ua: &str) -> (r: bool)
        ensures
            r == ua_hit(self.ua_sources(), ua@),
    {
        let mut i: usize = 0;
        while i < self.ua_patterns.len()
            invariant
                i <= self.ua_patterns@.len(),
                forall|j: int| 0 <= j < i ==> !regex_is_match(#[trigger] self.ua_sources()[j], ua@),
            decreases self.ua_patterns@.len() - i,
        {
            if is_match(&self.ua_patterns[i], ua) {
                assert(self.ua_sources()[i as int] == self.ua_patterns@[i as int].pattern());
                return true;
            }
            i = i + 1;
        }
        false
    }

    /// Checks a request from `ip` with this user agent at `now`: the
    /// firewall first (whitelisted, then blacklisted), then the user-agent
    /// blacklist, then the flood tracker (which counts the request), then
    /// an existing brute-force block.
    pub fn check_ip_at(&mut self, ip: &IpKey, user_agent: Option<&str>, now: u64) -> (r: SecurityCheckResult)
        requires
            old(self).wf(),
        ensures
            final(self).wf(),
            final(self).firewall == old(self).firewall,
            final(self).brute_force == old(self).brute_force,
            final(self).ua_sources() == old(self).ua_sources(),
            ({
                let pre_flood = covered(old(self).firewall.whitelist@, *ip) || covered(
                    old(self).firewall.blacklist@,
                    *ip,
                ) || ua_flagged(old(self).ua_sources(), agent_view(user_agent));
                &&& covered(old(self).firewall.whitelist@, *ip) ==> r == SecurityCheckResult::Whitelisted
                &&& !covered(old(self).firewall.whitelist@, *ip) && covered(
                    old(self).firewall.blacklist@,
                    *ip,
                ) ==> r == SecurityCheckResult::Blacklisted
                &&& !covered(old(self).firewall.whitelist@, *ip) && !covered(
                    old(self).firewall.blacklist@,
                    *ip,
                ) && ua_flagged(old(self).ua_sources(), agent_view(user_agent)) ==> (r matches SecurityCheckResult::UaBlocked { ua } && agent_view(user_agent) == Some(ua@))
                &&& pre_flood ==> final(self).flood_tracker == old(self).flood_tracker
                &&& !pre_flood ==> {
                    let (st, fr) = old(self).flood_tracker.request_step(*ip, now);
                    &&& final(self).flood_tracker.state(*ip) == st
                    &&& forall|k: IpKey|
                        k != *ip ==> final(self).flood_tracker.state(k) == old(self).flood_tracker.state(k)
                    &&& r == match fr {
                        FloodResult::Blocked { count } => SecurityCheckResult::FloodBlocked { count },
                        FloodResult::Allowed => if old(self).brute_force.blocked_at(*ip, now) {
                            SecurityCheckResult::BruteForceBlocked { failures: 0 }
                        } else {
                            SecurityCheckResult::Allowed
                        },
                    }
                }
            }),
    {
        match self.firewall.check(ip) {
            FirewallResult::Whitelisted => return SecurityCheckResult::Whitelisted,
            FirewallResult::Blacklisted => return SecurityCheckResult::Blacklisted,
            FirewallResult::Allowed => {},
        }
        if let Some(ua) = user_agent {
            if self.ua_blocked(ua) {
                return SecurityCheckResult::UaBlocked { ua: ua.to_owned() };
            }
        }
        match self.flood_tracker.record_request_at(ip, now) {
            FloodResult::Blocked { count } => return SecurityCheckResult::FloodBlocked { count },
            FloodResult::Allowed => {},
        }
        if self.brute_force.is_blocked_at(ip, now) {
            return SecurityCheckResult::BruteForceBlocked { failures: 0 };
        }
        SecurityCheckResult::Allowed
    }

    /// Checks a request whose source address text is `source_ip`, parsed as
    /// `ip` (`None` when it is no IP address, which rejects the request).
    pub fn check_request_at(
        &mut self,
        source_ip: &str,
        ip: Option<IpKey>,
        user_agent: Option<&str>,
        now: u64,
    ) -> (r: SecurityCheckResult)
        requires
            old(self).wf(),
        ensures
            final(self).wf(),
            ip is None ==> (r matches SecurityCheckResult::InvalidMessage { reason } && reason@
                == "unparseable source IP: "@ + source_ip@) && *final(self) == *old(self),
    {
        match ip {
            Some(addr) => self.check_ip_at(&addr, user_agent, now),
            None => {
                let mut v = chars_of("unparseable source IP: ");
                append(&mut v, &chars_of(source_ip));
                SecurityCheckResult::InvalidMessage { reason: string_from_chars(&v) }
            },
        }
    }

    /// Checks a request now; see [`Self::check_request_at`].
    pub fn check_request(&mut self, source_ip: &str, ip: Option<IpKey>, user_agent: Option<&str>) -> (r: SecurityCheckResult)
        requires
            old(self).wf(),
        ensures
            final(self).wf(),
            ip is None ==> (r matches SecurityCheckResult::InvalidMessage { reason } && reason@
                == "unparseable source IP: "@ + source_ip@),
    {
        let now = unix_time_millis();
        self.check_request_at(source_ip, ip, user_agent, now)
    }

    /// Records an authentication failure of the source address at `now`
    /// (nothing when it is no IP address).
    pub fn record_auth_failure_at(&mut self, ip: Option<IpKey>, now: u64)
        requires
            old(self).wf(),
        ensures
            final(self).wf(),
            final(self).flood_tracker == old(self).flood_tracker,
            ip is None ==> final(self).brute_force == old(self).brute_force,
            ip matches Some(a) ==> final(self).brute_force.state(a) == old(self).brute_force.failure_step(a, now).0,
            ip matches Some(a) ==> forall|k: IpKey| k != a ==> final(self).brute_force.state(k) == old(self).brute_force.state(k),
    {
        if let Some(a) = ip {
            self.brute_force.record_failure_at(&a, now);
        }
    }

    /// Records an authentication failure of the source address now.
    pub fn record_auth_failure(&mut self, ip: Option<IpKey>)
        requires
            old(self).wf(),
        ensures
            final(self).wf(),
            final(self).flood_tracker == old(self).flood_tracker,
            ip is None ==> final(self).brute_force == old(self).brute_force,
            ip matches Some(a) ==> exists|now: u64| final(self).brute_force.state(a)
                == #[trigger] old(self).brute_force.failure_step(a, now).0,
            ip matches Some(a) ==> forall|k: IpKey| k != a ==> final(self).brute_force.state(k) == old(self).brute_force.state(k),
    {
        let now = unix_time_millis();
        self.record_auth_failure_at(ip, now);
    }

    /// Records an authentication success of the source address: its
    /// failures and block are cleared.
    pub fn record_auth_success(&mut self, ip: Option<IpKey>)
        requires
            old(self).wf(),
        ensures
            final(self).wf(),
            final(self).flood_tracker == old(self).flood_tracker,
            ip is None ==> final(self).brute_force == old(self).brute_force,
            ip matches Some(a) ==> (old(self).brute_force.state(a) is Some ==> final(self).brute_force.state(a) == Some((Seq::<u64>::empty(), None::<u64>))),
            ip matches Some(a) ==> (old(self).brute_force.state(a) is None ==> final(self).brute_force.state(a) is None),
            ip matches Some(a) ==> forall|k: IpKey| k != a ==> final(self).brute_force.state(k) == old(self).brute_force.state(k),
    {
        if let Some(a) = ip {
            self.brute_force.record_success(&a);
        }
    }

    /// `r` lists exactly the flood blocks and the brute-force blocks in
    /// force at `now`.
    pub open spec fn reports_blocked(&self, r: Seq<BlockedIpEntry>, now: u64) -> bool {
        &&& forall|k: IpKey, u: u64| #[trigger] listed(r, "flood"@, k, u) <==> (self.flood_tracker.state(k) matches Some(v) && v.1 == Some(u) && now < u)
        &&& forall|k: IpKey, u: u64| #[trigger] listed(r, "brute_force"@, k, u) <==> (self.brute_force.state(k) matches Some(v) && v.1 == Some(u) && now < u)
    }

    /// The IPs blocked at `now`: flood blocks first, then brute-force blocks.
    pub fn get_blocked_ips_at(&self, now: u64) -> (r: Vec<BlockedIpEntry>)
        requires
            self.wf(),
        ensures
            forall|k: IpKey, u: u64| #[trigger] listed(r@, "flood"@, k, u) <==> (self.flood_tracker.state(k) matches Some(v) && v.1 == Some(u) && now < u),
            forall|k: IpKey, u: u64| #[trigger] listed(r@, "brute_force"@, k, u) <==> (self.brute_force.state(k) matches Some(v) && v.1 == Some(u) && now < u),
    {
        let flood = self.flood_tracker.get_blocked_at(now);
        let brute = self.brute_force.get_blocked_at(now);
        let mut r: Vec<BlockedIpEntry> = Vec::new();
        let mut i: usize = 0;
        while i < flood.len()
            invariant
                i <= flood@.len(),
                r@.len() == i,
                forall|j: int| 0 <= j < i ==> (#[trigger] r@[j]).ip == flood@[j].0 && r@[j].blocked_until == flood@[j].1 && r@[j].reason@ == "flood"@,
            decreases flood@.len() - i,
        {
            r.push(BlockedIpEntry { ip: flood[i].0, reason: "flood".to_owned(), blocked_until: flood[i].1 });
            i = i + 1;
        }
        let mut j: usize = 0;
        while j < brute.len()
            invariant
                j <= brute@.len(),
                r@.len() == flood@.len() + j,
                forall|m: int| 0 <= m < flood@.len() ==> (#[trigger] r@[m]).ip == flood@[m].0 && r@[m].blocked_until == flood@[m].1 && r@[m].reason@ == "flood"@,
                forall|m: int| flood@.len() <= m < r@.len() ==> (#[trigger] r@[m]).ip == brute@[m - flood@.len()].0 && r@[m].blocked_until == brute@[m - flood@.len()].1 && r@[m].reason@ == "brute_force"@,
            decreases brute@.len() - j,
        {
            r.push(BlockedIpEntry { ip: brute[j].0, reason: "brute_force".to_owned(), blocked_until: brute[j].1 });
            j = j + 1;
        }
        proof {
            reveal_strlit("flood");
            reveal_strlit("brute_force");
            assert forall|k: IpKey, u: u64| #[trigger] listed(r@, "flood"@, k, u) <==> flood@.contains((k, u)) by {
                if listed(r@, "flood"@, k, u) {
                    let i = choose|i: int| 0 <= i < r@.len() && (#[trigger] r@[i]).ip == k && r@[i].blocked_until == u && r@[i].reason@ == "flood"@;
                    if i >= flood@.len() {
                        assert(r@[i].reason@ == "brute_force"@);
                        assert(r@[i].reason@[0] == 'b');
                    } else {
                        assert(flood@[i] == (k, u));
                    }
                }
                if flood@.contains((k, u)) {
                    let i = choose|i: int| 0 <= i < flood@.len() && flood@[i] == (k, u);
                    assert(r@[i].reason@ == "flood"@);
                }
            }
            assert forall|k: IpKey, u: u64| #[trigger] listed(r@, "brute_force"@, k, u) <==> brute@.contains((k, u)) by {
                if listed(r@, "brute_force"@, k, u) {
                    let i = choose|i: int| 0 <= i < r@.len() && (#[trigger] r@[i]).ip == k && r@[i].blocked_until == u && r@[i].reason@ == "brute_force"@;
                    if i < flood@.len() {
                        assert(r@[i].reason@ == "flood"@);
                        assert(r@[i].reason@[0] == 'f');
                    } else {
                        assert(brute@[i - flood@.len()] == (k, u));
                    }
                }
                if brute@.contains((k, u)) {
                    let m = choose|m: int| 0 <= m < brute@.len() && brute@[m] == (k, u);
                    assert(r@[m + flood@.len()].reason@ == "brute_force"@);
                }
            }
        }
        r
    }

    /// The IPs blocked now: flood blocks first, then brute-force blocks.
    pub fn get_blocked_ips(&self) -> (r: Vec<BlockedIpEntry>)
        requires
            self.wf(),
        ensures
            exists|now: u64| #[trigger] self.reports_blocked(r@, now),
    {
        let now = unix_time_millis();
        let r = self.get_blocked_ips_at(now);
        assert(self.reports_blocked(r@, now));
        r
    }

    /// Lifts the flood and brute-force blocks of the address; `true` when
    /// either tracker had an entry for it (`false` when it is no IP address).
    pub fn unblock_ip(&mut self, ip: Option<IpKey>) -> (r: bool)
        requires
            old(self).wf(),
        ensures
            final(self).wf(),
            ip is None ==> !r && *final(self) == *old(self),
            ip matches Some(a) ==> r == (old(self).flood_tracker.state(a) is Some || old(self).brute_force.state(a) is Some),
            ip matches Some(a) ==> (final(self).flood_tracker.state(a) matches Some(v) ==> v.1 is None),
            ip matches Some(a) ==> (final(self).brute_force.state(a) matches Some(v) ==> v == (Seq::<u64>::empty(), None::<u64>)),
    {
        match ip {
            Some(a) => {
                let f = self.flood_tracker.unblock(&a);
                let b = self.brute_force.unblock(&a);
                f || b
            },
            None => false,
        }
    }

    /// Validates a SIP message's structure.
    pub fn validate_message(&self, msg: &SipMessageInfo) -> (r: ValidationResult)
        ensures
            r == validation_of(*msg),
    {
        validate_sip_message(msg)
    }

    /// Strips internal topology headers from a SIP message.
    pub fn hide_topology(&self, headers: &mut SipHeaders, internal_domains: &[&str])
        ensures
            pair_views(final(headers).headers@) == kept_headers(
                pair_views(old(headers).headers@),
                internal_domains@,
                old(headers).headers@.len() as int,
            ),
    {
        topology::hide_topology(headers, internal_domains)
    }
}

} // verus!
