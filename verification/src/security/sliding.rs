//! Per-IP sliding-window counters with automatic blocking, shared by the
//! flood and brute-force trackers. Times are milliseconds.
//!
//! Recording a hit for an IP that is blocked (the block not yet over)
//! leaves everything as it is and reports the block. Otherwise an expired
//! block is lifted, hits no longer inside the window are dropped from the
//! front, the new hit is added, and the IP is blocked for the block
//! duration once its hits reach the threshold.

use vstd::prelude::*;
use crate::security::ip::IpKey;

verus! {

/// The hits and block of one IP.
#[derive(Debug)]
pub struct Hits {
    pub ip: IpKey,
    /// Times of the hits inside the window, oldest first.
    pub times: Vec<u64>,
    /// End of the current block, if any.
    pub blocked_until: Option<u64>,
}

/// What is known of one IP: its hit times and block end.
pub type HitsView = (Seq<u64>, Option<u64>);

/// `a + b`, or the largest `u64` when that overflows.
pub open spec fn sat_add(a: u64, b: u64) -> u64 {
    if a + b <= u64::MAX {
        (a + b) as u64
    } else {
        u64::MAX
    }
}

/// A hit at `t` is out of the window at `now`: `t <= now - window`.
pub open spec fn expired(t: u64, now: u64, window: u64) -> bool {
    t + window <= now
}

/// The hits left after dropping expired ones from the front.
pub open spec fn drop_expired(ts: Seq<u64>, now: u64, window: u64) -> Seq<u64>
    decreases ts.len(),
{
    if ts.len() > 0 && expired(ts[0], now, window) {
        drop_expired(ts.drop_first(), now, window)
    } else {
        ts
    }
}

/// The result of recording a hit at `now` for an IP whose state was
/// `before`: its new state, and the hit count when it is (or stays) blocked.
pub open spec fn record_step(
    before: Option<HitsView>,
    now: u64,
    threshold: u64,
    window: u64,
    block: u64,
) -> (HitsView, Option<nat>) {
    let (times, until) = match before {
        Some(v) => v,
        None => (Seq::<u64>::empty(), None),
    };
    if until matches Some(u) && now < u {
        ((times, until), Some(times.len()))
    } else {
        let kept = drop_expired(times, now, window).push(now);
        if kept.len() >= threshold {
            ((kept, Some(sat_add(now, block))), Some(kept.len()))
        } else {
            ((kept, None), None)
        }
    }
}

/// The IP at position `i` is `ip`.
pub open spec fn at(es: Seq<Hits>, ip: IpKey, i: int) -> bool {
    0 <= i < es.len() && es[i].ip == ip
}

/// The view of one entry.
pub open spec fn hits_view(h: Hits) -> HitsView {
    (h.times@, h.blocked_until)
}

/// The state of `ip` in the entries, if it has one.
pub open spec fn entry_of(es: Seq<Hits>, ip: IpKey) -> Option<HitsView> {
    if exists|i: int| at(es, ip, i) {
        Some(hits_view(es[choose|i: int| at(es, ip, i)]))
    } else {
        None
    }
}

/// No IP has two entries.
pub open spec fn distinct_ips(es: Seq<Hits>) -> bool {
    forall|i: int, j: int| 0 <= i < es.len() && 0 <= j < es.len() && i != j ==> es[i].ip != es[j].ip
}

/// The entry of `ip` is the one at position `i`.
proof fn lemma_entry_at(es: Seq<Hits>, ip: IpKey, i: int)
    requires
        distinct_ips(es),
        at(es, ip, i),
    ensures
        entry_of(es, ip) == Some(hits_view(es[i])),
{
    let c = choose|k: int| at(es, ip, k);
    assert(at(es, ip, c));
}

/// Replacing the entry at `i` by one of the same IP changes the state of
/// that IP only.
proof fn lemma_update_keeps_others(old_es: Seq<Hits>, new_es: Seq<Hits>, i: int)
    requires
        distinct_ips(old_es),
        0 <= i < old_es.len(),
        new_es.len() == old_es.len(),
        new_es[i].ip == old_es[i].ip,
        forall|j: int| 0 <= j < old_es.len() && j != i ==> new_es[j] == old_es[j],
    ensures
        distinct_ips(new_es),
        entry_of(new_es, old_es[i].ip) == Some(hits_view(new_es[i])),
        forall|k: IpKey| k != old_es[i].ip ==> entry_of(new_es, k) == entry_of(old_es, k),
{
    assert(distinct_ips(new_es)) by {
        assert forall|a: int, b: int|
            0 <= a < new_es.len() && 0 <= b < new_es.len() && a != b implies new_es[a].ip
            != new_es[b].ip by {
            assert(old_es[a].ip != old_es[b].ip);
        }
    }
    lemma_entry_at(new_es, old_es[i].ip, i);
    assert forall|k: IpKey| k != old_es[i].ip implies entry_of(new_es, k) == entry_of(old_es, k) by {
        if exists|j: int| at(old_es, k, j) {
            let j = choose|j: int| at(old_es, k, j);
            lemma_entry_at(old_es, k, j);
            assert(at(new_es, k, j));
            lemma_entry_at(new_es, k, j);
        } else {
            assert forall|j: int| !at(new_es, k, j) by {
                if at(new_es, k, j) {
                    assert(at(old_es, k, j));
                }
            }
        }
    }
}

/// Adding an entry for a new IP gives it that state and changes no other.
proof fn lemma_push_keeps_others(old_es: Seq<Hits>, h: Hits)
    requires
        distinct_ips(old_es),
        forall|j: int| !at(old_es, h.ip, j),
    ensures
        distinct_ips(old_es.push(h)),
        entry_of(old_es.push(h), h.ip) == Some(hits_view(h)),
        forall|k: IpKey| k != h.ip ==> entry_of(old_es.push(h), k) == entry_of(old_es, k),
{
    let new_es = old_es.push(h);
    assert(distinct_ips(new_es)) by {
        assert forall|a: int, b: int|
            0 <= a < new_es.len() && 0 <= b < new_es.len() && a != b implies new_es[a].ip
            != new_es[b].ip by {
            if a == old_es.len() {
                assert(!at(old_es, h.ip, b));
            } else if b == old_es.len() {
                assert(!at(old_es, h.ip, a));
            }
        }
    }
    assert(at(new_es, h.ip, old_es.len() as int));
    lemma_entry_at(new_es, h.ip, old_es.len() as int);
    assert forall|k: IpKey| k != h.ip implies entry_of(new_es, k) == entry_of(old_es, k) by {
        if exists|j: int| at(old_es, k, j) {
            let j = choose|j: int| at(old_es, k, j);
            lemma_entry_at(old_es, k, j);
            assert(at(new_es, k, j));
            lemma_entry_at(new_es, k, j);
        } else {
            assert forall|j: int| !at(new_es, k, j) by {
                if at(new_es, k, j) && j < old_es.len() {
                    assert(at(old_es, k, j));
                }
            }
        }
    }
}

/// Dropping expired hits from the front of `ts` gives `ts[k..]` when the
/// first `k` hits are expired and the next is not (or there is none).
proof fn lemma_drop_expired(ts: Seq<u64>, now: u64, window: u64, k: int)
    requires
        0 <= k <= ts.len(),
        forall|j: int| 0 <= j < k ==> expired(ts[j], now, window),
        k < ts.len() ==> !expired(ts[k], now, window),
    ensures
        drop_expired(ts, now, window) == ts.subrange(k, ts.len() as int),
    decreases k,
{
    if k == 0 {
        assert(ts.subrange(0, ts.len() as int) =~= ts);
    } else {
        lemma_drop_expired(ts.drop_first(), now, window, k - 1);
        assert(ts.drop_first().subrange(k - 1, ts.len() - 1) =~= ts.subrange(k, ts.len() as int));
    }
}

/// A copy of a list of times.
fn copy_times(v: &Vec<u64>) -> (r: Vec<u64>)
    ensures
        r@ == v@,
{
    let mut r: Vec<u64> = Vec::new();
    let mut i: usize = 0;
    while i < v.len()
        invariant
            i <= v@.len(),
            r@ == v@.subrange(0, i as int),
        decreases v@.len() - i,
    {
        r.push(v[i]);
        i = i + 1;
    }
    assert(v@.subrange(0, v@.len() as int) =~= v@);
    r
}

/// Per-IP sliding-window counters.
#[derive(Debug)]
pub struct SlidingTracker {
    pub entries: Vec<Hits>,
    /// Hits within the window that cause a block.
    pub threshold: u64,
    /// Window length.
    pub window: u64,
    /// Block duration.
    pub block: u64,
}

/// `secs` seconds in milliseconds, or the largest `u64` when that overflows.
pub open spec fn secs_to_ms(secs: u64) -> u64 {
    if secs * 1000 <= u64::MAX {
        (secs * 1000) as u64
    } else {
        u64::MAX
    }
}

/// Converts seconds to milliseconds, saturating.
pub fn millis_of_secs(secs: u64) -> (r: u64)
    ensures
        r == secs_to_ms(secs),
{
    match secs.checked_mul(1000) {
        Some(v) => v,
        None => u64::MAX,
    }
}

impl SlidingTracker {
    /// The entries are well formed: one per IP.
    pub open spec fn wf(&self) -> bool {
        distinct_ips(self.entries@)
    }

    /// The state of `ip`.
    pub open spec fn state(&self, ip: IpKey) -> Option<HitsView> {
        entry_of(self.entries@, ip)
    }

    /// A tracker with no entries.
    pub fn new(threshold: u64, window: u64, block: u64) -> (r: Self)
        ensures
            r.wf(),
            r.entries@.len() == 0,
            r.threshold == threshold,
            r.window == window,
            r.block == block,
            forall|k: IpKey| r.state(k) is None,
    {
        SlidingTracker { entries: Vec::new(), threshold, window, block }
    }

    /// The position of the entry of `ip`.
    pub fn find(&self, ip: IpKey) -> (r: Option<usize>)
        requires
            self.wf(),
        ensures
            r matches Some(i) ==> at(self.entries@, ip, i as int) && self.state(ip) == Some(
                hits_view(self.entries@[i as int]),
            ),
            r is None ==> (forall|j: int| !at(self.entries@, ip, j)) && self.state(ip) is None,
    {
        let mut i: usize = 0;
        while i < self.entries.len()
            invariant
                i <= self.entries@.len(),
                distinct_ips(self.entries@),
                forall|j: int| 0 <= j < i ==> !at(self.entries@, ip, j),
            decreases self.entries@.len() - i,
        {
            if self.entries[i].ip == ip {
                proof {
                    lemma_entry_at(self.entries@, ip, i as int);
                }
                return Some(i);
            }
            i = i + 1;
        }
        None
    }

    /// Records a hit of `ip` at `now`; the hit count when the IP is blocked.
    pub fn record(&mut self, ip: IpKey, now: u64) -> (r: Option<u64>)
        requires
            old(self).wf(),
        ensures
            final(self).wf(),
            final(self).threshold == old(self).threshold,
            final(self).window == old(self).window,
            final(self).block == old(self).block,
            ({
                let step = record_step(
                    old(self).state(ip),
                    now,
                    old(self).threshold,
                    old(self).window,
                    old(self).block,
                );
                &&& final(self).state(ip) == Some(step.0)
                &&& match step.1 {
                    Some(n) => r == Some(n as u64),
                    None => r is None,
                }
            }),
            forall|k: IpKey| k != ip ==> final(self).state(k) == old(self).state(k),
    {
        let found = self.find(ip);
        let idx: usize = match found {
            Some(i) => i,
            None => {
                let h = Hits { ip, times: Vec::new(), blocked_until: None };
                proof {
                    lemma_push_keeps_others(self.entries@, h);
                }
                self.entries.push(h);
                let n = self.entries.len() - 1;
                proof {
                    lemma_entry_at(self.entries@, ip, n as int);
                }
                n
            },
        };
        let ghost before = self.entries@;
        let ghost old_times = self.entries@[idx as int].times@;
        let ghost old_until = self.entries@[idx as int].blocked_until;
        let mut times = copy_times(&self.entries[idx].times);
        let mut until: Option<u64> = self.entries[idx].blocked_until;
        let result: Option<u64>;
        let blocked_now = match until {
            Some(u) => now < u,
            None => false,
        };
        if blocked_now {
            result = Some(times.len() as u64);
        } else {
            until = None;
            let mut k: usize = 0;
            let mut done = false;
            while !done && k < times.len()
                invariant
                    k <= times@.len(),
                    forall|j: int| 0 <= j < k ==> expired(times@[j], now, self.window),
                    done ==> k < times@.len() && !expired(times@[k as int], now, self.window),
                decreases times@.len() - k + (if done {
                    0int
                } else {
                    1int
                }),
            {
                let t = times[k];
                if t <= now && now - t >= self.window {
                    k = k + 1;
                } else {
                    done = true;
                }
            }
            proof {
                lemma_drop_expired(times@, now, self.window, k as int);
            }
            let mut kept: Vec<u64> = Vec::new();
            let mut m: usize = k;
            while m < times.len()
                invariant
                    k <= m <= times@.len(),
                    kept@ == times@.subrange(k as int, m as int),
                decreases times@.len() - m,
            {
                kept.push(times[m]);
                m = m + 1;
            }
            kept.push(now);
            times = kept;
            if times.len() as u64 >= self.threshold {
                until = Some(
                    match now.checked_add(self.block) {
                        Some(v) => v,
                        None => u64::MAX,
                    },
                );
                result = Some(times.len() as u64);
            } else {
                result = None;
            }
        }
        self.entries.set(idx, Hits { ip, times, blocked_until: until });
        proof {
            lemma_update_keeps_others(before, self.entries@, idx as int);
        }
        result
    }

    /// Clears the hits and the block of `ip`; `true` when it had an entry.
    pub fn reset(&mut self, ip: IpKey) -> (r: bool)
        requires
            old(self).wf(),
        ensures
            final(self).wf(),
            final(self).threshold == old(self).threshold,
            final(self).window == old(self).window,
            final(self).block == old(self).block,
            r == old(self).state(ip) is Some,
            r ==> final(self).state(ip) == Some((Seq::<u64>::empty(), None::<u64>)),
            !r ==> final(self).state(ip) is None,
            forall|k: IpKey| k != ip ==> final(self).state(k) == old(self).state(k),
    {
        match self.find(ip) {
            Some(i) => {
                let ghost before = self.entries@;
                self.entries.set(i, Hits { ip, times: Vec::new(), blocked_until: None });
                proof {
                    lemma_update_keeps_others(before, self.entries@, i as int);
                }
                true
            },
            None => false,
        }
    }

    /// Lifts the block of `ip`, keeping its hits; `true` when it had an entry.
    pub fn lift_block(&mut self, ip: IpKey) -> (r: bool)
        requires
            old(self).wf(),
        ensures
            final(self).wf(),
            final(self).threshold == old(self).threshold,
            final(self).window == old(self).window,
            final(self).block == old(self).block,
            r == old(self).state(ip) is Some,
            old(self).state(ip) matches Some(v) ==> final(self).state(ip) == Some((v.0, None::<u64>)),
            !r ==> final(self).state(ip) is None,
            forall|k: IpKey| k != ip ==> final(self).state(k) == old(self).state(k),
    {
        match self.find(ip) {
            Some(i) => {
                let ghost before = self.entries@;
                let times = copy_times(&self.entries[i].times);
                self.entries.set(i, Hits { ip, times, blocked_until: None });
                proof {
                    lemma_update_keeps_others(before, self.entries@, i as int);
                }
                true
            },
            None => false,
        }
    }

    /// Whether `ip` is blocked at `now`.
    pub fn is_blocked(&self, ip: IpKey, now: u64) -> (r: bool)
        requires
            self.wf(),
        ensures
            r == (self.state(ip) matches Some(v) && v.1 matches Some(u) && now < u),
    {
        match self.find(ip) {
            Some(i) => match self.entries[i].blocked_until {
                Some(u) => now < u,
                None => false,
            },
            None => false,
        }
    }

    /// The IPs blocked at `now` with the ends of their blocks, in entry order.
    pub fn blocked(&self, now: u64) -> (r: Vec<(IpKey, u64)>)
        requires
            self.wf(),
        ensures
            forall|k: IpKey, u: u64| r@.contains((k, u)) <==> (self.state(k) matches Some(v)
                && v.1 == Some(u) && now < u),
    {
        let mut r: Vec<(IpKey, u64)> = Vec::new();
        let mut i: usize = 0;
        while i < self.entries.len()
            invariant
                i <= self.entries@.len(),
                distinct_ips(self.entries@),
                forall|k: IpKey, u: u64| r@.contains((k, u)) <==> exists|j: int|
                    0 <= j < i && #[trigger] self.entries@[j].ip == k && self.entries@[j].blocked_until
                        == Some(u) && now < u,
            decreases self.entries@.len() - i,
        {
            let e = &self.entries[i];
            match e.blocked_until {
                Some(u) => {
                    if now < u {
                        let ghost prev = r@;
                        r.push((e.ip, u));
                        assert forall|k: IpKey, w: u64| r@.contains((k, w)) <==> exists|j: int|
                            0 <= j < i + 1 && #[trigger] self.entries@[j].ip == k
                                && self.entries@[j].blocked_until == Some(w) && now < w by {
                            if r@.contains((k, w)) {
                                let n = choose|n: int| 0 <= n < r@.len() && r@[n] == (k, w);
                                if n < prev.len() {
                                    assert(prev.contains((k, w)));
                                } else {
                                    assert(self.entries@[i as int].ip == k);
                                }
                            }
                            if exists|j: int|
                                0 <= j < i + 1 && #[trigger] self.entries@[j].ip == k
                                    && self.entries@[j].blocked_until == Some(w) && now < w {
                                let j = choose|j: int|
                                    0 <= j < i + 1 && #[trigger] self.entries@[j].ip == k
                                        && self.entries@[j].blocked_until == Some(w) && now < w;
                                if j < i {
                                    assert(prev.contains((k, w)));
                                    let n = choose|n: int| 0 <= n < prev.len() && prev[n] == (k, w);
                                    assert(r@[n] == (k, w));
                                } else {
                                    assert(r@[prev.len() as int] == (k, w));
                                }
                            }
                        }
                    }
                },
                None => {},
            }
            i = i + 1;
        }
        proof {
            assert forall|k: IpKey, u: u64| r@.contains((k, u)) <==> (self.state(k) matches Some(v)
                && v.1 == Some(u) && now < u) by {
                if exists|j: int| at(self.entries@, k, j) {
                    let j = choose|j: int| at(self.entries@, k, j);
                    lemma_entry_at(self.entries@, k, j);
                    if r@.contains((k, u)) {
                        let jj = choose|jj: int|
                            0 <= jj < i && #[trigger] self.entries@[jj].ip == k
                                && self.entries@[jj].blocked_until == Some(u) && now < u;
                        assert(jj == j);
                    }
                    if self.entries@[j].blocked_until == Some(u) && now < u {
                        assert(self.entries@[j].ip == k);
                    }
                } else {
                    if r@.contains((k, u)) {
                        let jj = choose|jj: int|
                            0 <= jj < i && #[trigger] self.entries@[jj].ip == k
                                && self.entries@[jj].blocked_until == Some(u) && now < u;
                        assert(at(self.entries@, k, jj));
                    }
                }
            }
        }
        r
    }
}


/// The state of an IP after hits at each of `times`, in order, starting
/// from `before`.
pub open spec fn run_hits(
    before: Option<HitsView>,
    times: Seq<u64>,
    threshold: u64,
    window: u64,
    block: u64,
) -> Option<HitsView>
    decreases times.len(),
{
    if times.len() == 0 {
        before
    } else {
        let prev = run_hits(before, times.drop_last(), threshold, window, block);
        Some(record_step(prev, times.last(), threshold, window, block).0)
    }
}

/// The times never go back.
pub open spec fn nondecreasing(times: Seq<u64>) -> bool {
    forall|i: int, j: int| 0 <= i <= j < times.len() ==> times[i] <= times[j]
}

/// An IP with no history that gets fewer than `threshold` hits, all
/// within one window, has exactly those hits and no block.
proof fn lemma_hits_below_threshold(times: Seq<u64>, threshold: u64, window: u64, block: u64, k: int)
    requires
        1 <= k <= times.len(),
        k < threshold,
        nondecreasing(times),
        times.last() < times[0] + window,
    ensures
        run_hits(None, times.take(k), threshold, window, block) == Some((times.take(k), None::<u64>)),
    decreases k,
{
    let pre = times.take(k);
    assert(pre.drop_last() =~= times.take(k - 1));
    if k == 1 {
        assert(times.take(0) =~= Seq::<u64>::empty());
        assert(drop_expired(Seq::<u64>::empty(), times[0], window) =~= Seq::<u64>::empty());
        assert(Seq::<u64>::empty().push(times[0]) =~= pre);
    } else {
        lemma_hits_below_threshold(times, threshold, window, block, k - 1);
        let prev = times.take(k - 1);
        assert(!expired(prev[0], times[k - 1], window));
        assert(drop_expired(prev, times[k - 1], window) == prev);
        assert(prev.push(times[k - 1]) =~= pre);
    }
}

/// An IP with no history that gets `threshold` hits within one window is
/// blocked by the last of them, for the block duration from that hit, and
/// that hit reports the full count.
pub proof fn law_threshold_hits_block(times: Seq<u64>, threshold: u64, window: u64, block: u64)
    requires
        threshold >= 1,
        times.len() == threshold,
        nondecreasing(times),
        times.last() < times[0] + window,
    ensures
        record_step(
            run_hits(None, times.drop_last(), threshold, window, block),
            times.last(),
            threshold,
            window,
            block,
        ).1 == Some(threshold as nat),
        run_hits(None, times, threshold, window, block) == Some(
            (times, Some(sat_add(times.last(), block))),
        ),
{
    let n = times.len() as int;
    assert(times.drop_last() =~= times.take(n - 1));
    if n == 1 {
        assert(times.take(0) =~= Seq::<u64>::empty());
        assert(drop_expired(Seq::<u64>::empty(), times[0], window) =~= Seq::<u64>::empty());
        assert(Seq::<u64>::empty().push(times[0]) =~= times);
    } else {
        lemma_hits_below_threshold(times, threshold, window, block, n - 1);
        let prev = times.take(n - 1);
        assert(!expired(prev[0], times[n - 1], window));
        assert(drop_expired(prev, times[n - 1], window) == prev);
        assert(prev.push(times[n - 1]) =~= times);
    }
}

/// While a block lasts, further hits change nothing: an IP blocked until
/// `until` keeps its hits and its block through any hits before `until`.
pub proof fn law_block_holds_until_deadline(
    hits: Seq<u64>,
    until: u64,
    times: Seq<u64>,
    threshold: u64,
    window: u64,
    block: u64,
)
    requires
        forall|i: int| 0 <= i < times.len() ==> times[i] < until,
    ensures
        run_hits(Some((hits, Some(until))), times, threshold, window, block) == Some(
            (hits, Some(until)),
        ),
        forall|i: int| 0 <= i < times.len() ==> record_step(
            run_hits(Some((hits, Some(until))), times.take(i), threshold, window, block),
            times[i],
            threshold,
            window,
            block,
        ).1 == Some(hits.len()),
    decreases times.len(),
{
    if times.len() > 0 {
        let t = times.drop_last();
        law_block_holds_until_deadline(hits, until, t, threshold, window, block);
        assert forall|i: int| 0 <= i < times.len() implies record_step(
            run_hits(Some((hits, Some(until))), times.take(i), threshold, window, block),
            times[i],
            threshold,
            window,
            block,
        ).1 == Some(hits.len()) by {
            if i < times.len() - 1 {
                assert(times.take(i) =~= t.take(i));
                assert(times[i] == t[i]);
            } else {
                assert(times.take(i) =~= t);
            }
        }
    }
}

} // verus!
