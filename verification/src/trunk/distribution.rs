//! Selection of a gateway among a trunk's gateways.

use vstd::prelude::*;
use std::hash::{Hash, Hasher};
use std::sync::atomic::AtomicU64;
use crate::random::Xorshift64;
use crate::redis_state::types::GatewayRef;
use crate::text::{chars_of, is_text};
use crate::weighted::{owns_ticket, pick_weighted, weight_prefix, weight_total, lemma_prefix_monotonic};

verus! {

/// How a gateway is chosen.
#[derive(Debug, Clone, Copy, PartialEq, Eq, Structural)]
pub enum DistributionAlgorithm {
    WeightBased,
    RoundRobin,
    HashCallId,
    HashSrcIp,
    HashDestination,
}

/// The algorithm named by `s`; unknown names select `WeightBased`.
pub open spec fn algorithm_of(s: Seq<char>) -> DistributionAlgorithm {
    if s == "round_robin"@ || s == "round-robin"@ {
        DistributionAlgorithm::RoundRobin
    } else if s == "hash_callid"@ || s == "hash-callid"@ {
        DistributionAlgorithm::HashCallId
    } else if s == "hash_src_ip"@ || s == "hash-src-ip"@ {
        DistributionAlgorithm::HashSrcIp
    } else if s == "hash_destination"@ || s == "hash-destination"@ {
        DistributionAlgorithm::HashDestination
    } else {
        DistributionAlgorithm::WeightBased
    }
}

impl DistributionAlgorithm {
    /// Parses an algorithm name (`weight_based`/`weighted`,
    /// `round_robin`/`round-robin`, `hash_callid`/`hash-callid`,
    /// `hash_src_ip`/`hash-src-ip`, `hash_destination`/`hash-destination`),
    /// defaulting to `WeightBased`.
    pub fn from_str(s: &str) -> (r: Self)
        ensures
            r == algorithm_of(s@),
    {
        let c = chars_of(s);
        if is_text(&c, "round_robin") || is_text(&c, "round-robin") {
            DistributionAlgorithm::RoundRobin
        } else if is_text(&c, "hash_callid") || is_text(&c, "hash-callid") {
            DistributionAlgorithm::HashCallId
        } else if is_text(&c, "hash_src_ip") || is_text(&c, "hash-src-ip") {
            DistributionAlgorithm::HashSrcIp
        } else if is_text(&c, "hash_destination") || is_text(&c, "hash-destination") {
            DistributionAlgorithm::HashDestination
        } else {
            DistributionAlgorithm::WeightBased
        }
    }
}

/// Values the hash-based and round-robin algorithms select by.
pub struct SelectionContext<'a> {
    /// SIP Call-ID (used by `HashCallId`).
    pub call_id: Option<&'a str>,
    /// Caller's source IP (used by `HashSrcIp`).
    pub src_ip: Option<&'a str>,
    /// Destination number or URI (used by `HashDestination`).
    pub destination: Option<&'a str>,
    /// Shared counter for round-robin selection.
    pub counter: &'a AtomicU64,
}

/// The weight of a gateway: its configured weight, 1 when unset.
pub open spec fn gateway_weight(g: GatewayRef) -> u64 {
    match g.weight {
        Some(w) => w as u64,
        None => 1,
    }
}

/// The weights of a list of gateways.
pub open spec fn gateway_weights(gs: Seq<GatewayRef>) -> Seq<u64> {
    gs.map_values(|g: GatewayRef| gateway_weight(g))
}

/// The hash of a key as `std::collections::hash_map::DefaultHasher`
/// computes it (fixed keys, so a function of the key alone).
pub uninterp spec fn default_hash(key: Seq<char>) -> u64;

/// Hashes `key` with `DefaultHasher::new()`, `str::hash` and `finish`.
#[verifier::external_body]
fn hash_str(key: &str) -> (r: u64)
    ensures
        r == default_hash(key@),
{
    let mut h = std::collections::hash_map::DefaultHasher::new();
    key.hash(&mut h);
    h.finish()
}

/// The index of `key`'s bucket among `len` gateways.
pub fn hash_index(key: &str, len: usize) -> (r: usize)
    requires
        len > 0,
    ensures
        r as int == (default_hash(key@) as int) % (len as int),
        r < len,
{
    let h = hash_str(key);
    (h % (len as u64)) as usize
}

/// The gateway a hash-based algorithm picks for `key`.
pub open spec fn hashed_pick(key: Option<&str>, len: nat) -> int {
    let k = match key {
        Some(s) => s@,
        None => ""@,
    };
    (default_hash(k) as int) % (len as int)
}

/// Draws the next round-robin ticket.
fn next_ticket(counter: &AtomicU64) -> u64 {
    counter.fetch_add(1, std::sync::atomic::Ordering::Relaxed)
}

/// The gateway at position `ticket` modulo the number of gateways.
pub fn select_round_robin<'a>(gateways: &'a [GatewayRef], ticket: u64) -> (r: &'a GatewayRef)
    requires
        gateways@.len() > 0,
    ensures
        *r == gateways@[((ticket as int) % (gateways@.len() as int))],
{
    let idx = (ticket % (gateways.len() as u64)) as usize;
    &gateways[idx]
}

/// The weights of `gateways`: each its own, or 1 when unset.
fn weights_of_gateways(gateways: &[GatewayRef]) -> (r: Vec<u64>)
    ensures
        r@ == gateway_weights(gateways@),
{
    let mut w: Vec<u64> = Vec::new();
    let mut i: usize = 0;
    while i < gateways.len()
        invariant
            i <= gateways@.len(),
            w@ == gateway_weights(gateways@.subrange(0, i as int)),
        decreases gateways@.len() - i,
    {
        let x: u64 = match gateways[i].weight {
            Some(v) => v as u64,
            None => 1,
        };
        w.push(x);
        assert(gateway_weights(gateways@.subrange(0, i + 1)) =~= gateway_weights(
            gateways@.subrange(0, i as int),
        ).push(x));
        i = i + 1;
    }
    assert(gateways@.subrange(0, i as int) =~= gateways@);
    w
}

/// The total weight of `gateways`.
fn weight_total_of(gateways: &[GatewayRef]) -> (r: u64)
    requires
        weight_total(gateway_weights(gateways@)) <= u64::MAX,
    ensures
        r == weight_total(gateway_weights(gateways@)),
{
    let w = weights_of_gateways(gateways);
    crate::weighted::total_weight(&w)
}

/// The gateway chosen by weight for random ticket `pick`: the first when
/// all weights are zero, else the one owning ticket `pick % total`.
pub fn select_weight_based<'a>(gateways: &'a [GatewayRef], pick: u64) -> (r: &'a GatewayRef)
    requires
        gateways@.len() > 0,
        weight_total(gateway_weights(gateways@)) <= u64::MAX,
    ensures
        weight_total(gateway_weights(gateways@)) == 0 ==> *r == gateways@[0],
        weight_total(gateway_weights(gateways@)) > 0 ==> exists|i: int|
            owns_ticket(
                gateway_weights(gateways@),
                (pick as nat) % weight_total(gateway_weights(gateways@)),
                i,
            ) && *r == #[trigger] gateways@[i],
{
    let w = weights_of_gateways(gateways);
    let total = crate::weighted::total_weight(&w);
    if total == 0 {
        return &gateways[0];
    }
    let idx = pick_weighted(&w, pick % total);
    &gateways[idx]
}

/// The position that round-robin ticket `ticket` takes among `len`
/// gateways.
pub open spec fn ticket_slot(ticket: u64, len: nat) -> int {
    (ticket as int) % (len as int)
}

/// Picks a gateway with `algorithm`, `ticket` being the round-robin ticket.
/// `None` when there are no gateways; the only gateway when there is one;
/// otherwise by weight with the generator's next number as ticket, the
/// gateway at `ticket` modulo their number, or the one at the hash of the
/// call ID, source IP or destination (the empty string when absent). The
/// generator is drawn from only for a weighted pick among several gateways
/// with a positive total weight.
pub fn select_gateway_with<'a>(
    algorithm: &DistributionAlgorithm,
    gateways: &'a [GatewayRef],
    ctx: &SelectionContext<'_>,
    ticket: u64,
    rng: &mut Xorshift64,
) -> (r: Option<&'a GatewayRef>)
    requires
        weight_total(gateway_weights(gateways@)) <= u64::MAX,
    ensures
        !(gateways@.len() > 1 && *algorithm == DistributionAlgorithm::WeightBased && weight_total(
            gateway_weights(gateways@),
        ) > 0) ==> *final(rng) == *old(rng),
        gateways@.len() > 1 && *algorithm == DistributionAlgorithm::WeightBased ==> (weight_total(
            gateway_weights(gateways@),
        ) == 0 ==> r == Some(&gateways@[0])) && (weight_total(gateway_weights(gateways@)) > 0
            ==> final(rng).state != 0 && (old(rng).state != 0 ==> final(rng).state
            == crate::random::xorshift64_step(old(rng).state)) && exists|i: int|
            owns_ticket(
                gateway_weights(gateways@),
                (final(rng).state as nat) % weight_total(gateway_weights(gateways@)),
                i,
            ) && r == Some(#[trigger] &gateways@[i])),
        r is None <==> gateways@.len() == 0,
        gateways@.len() == 1 ==> r == Some(&gateways@[0]),
        r matches Some(g) ==> exists|i: int| 0 <= i < gateways@.len() && *g == #[trigger] gateways@[i],
        gateways@.len() > 1 && *algorithm == DistributionAlgorithm::HashCallId ==> r == Some(
            &gateways@[hashed_pick(ctx.call_id, gateways@.len())],
        ),
        gateways@.len() > 1 && *algorithm == DistributionAlgorithm::HashSrcIp ==> r == Some(
            &gateways@[hashed_pick(ctx.src_ip, gateways@.len())],
        ),
        gateways@.len() > 1 && *algorithm == DistributionAlgorithm::HashDestination ==> r == Some(
            &gateways@[hashed_pick(ctx.destination, gateways@.len())],
        ),
        gateways@.len() > 1 && *algorithm == DistributionAlgorithm::RoundRobin ==> r == Some(
            &gateways@[(ticket as int) % (gateways@.len() as int)],
        ),
{
    if gateways.len() == 0 {
        return None;
    }
    if gateways.len() == 1 {
        return Some(&gateways[0]);
    }
    match algorithm {
        DistributionAlgorithm::WeightBased => {
            if weight_total_of(gateways) == 0 {
                return Some(&gateways[0]);
            }
            let g = select_weight_based(gateways, rng.next());
            Some(g)
        },
        DistributionAlgorithm::RoundRobin => {
            Some(select_round_robin(gateways, ticket))
        },
        DistributionAlgorithm::HashCallId => {
            let key = match ctx.call_id {
                Some(k) => k,
                None => "",
            };
            Some(&gateways[hash_index(key, gateways.len())])
        },
        DistributionAlgorithm::HashSrcIp => {
            let key = match ctx.src_ip {
                Some(k) => k,
                None => "",
            };
            Some(&gateways[hash_index(key, gateways.len())])
        },
        DistributionAlgorithm::HashDestination => {
            let key = match ctx.destination {
                Some(k) => k,
                None => "",
            };
            Some(&gateways[hash_index(key, gateways.len())])
        },
    }
}

/// Picks a gateway with `algorithm`. `None` when there are no gateways; the
/// only gateway when there is one; otherwise by weight with the
/// generator's next number as ticket, by the shared counter, or by the hash
/// of the call ID, source IP or destination (the empty string when absent).
/// The generator is drawn from only for a weighted pick among several
/// gateways with a positive total weight, and the counter only for a
/// round-robin pick among several gateways; see [`select_gateway_with`].
pub fn select_gateway<'a>(
    algorithm: &DistributionAlgorithm,
    gateways: &'a [GatewayRef],
    ctx: &SelectionContext<'_>,
    rng: &mut Xorshift64,
) -> (r: Option<&'a GatewayRef>)
    requires
        weight_total(gateway_weights(gateways@)) <= u64::MAX,
    ensures
        !(gateways@.len() > 1 && *algorithm == DistributionAlgorithm::WeightBased && weight_total(
            gateway_weights(gateways@),
        ) > 0) ==> *final(rng) == *old(rng),
        gateways@.len() > 1 && *algorithm == DistributionAlgorithm::WeightBased ==> (weight_total(
            gateway_weights(gateways@),
        ) == 0 ==> r == Some(&gateways@[0])) && (weight_total(gateway_weights(gateways@)) > 0
            ==> final(rng).state != 0 && (old(rng).state != 0 ==> final(rng).state
            == crate::random::xorshift64_step(old(rng).state)) && exists|i: int|
            owns_ticket(
                gateway_weights(gateways@),
                (final(rng).state as nat) % weight_total(gateway_weights(gateways@)),
                i,
            ) && r == Some(#[trigger] &gateways@[i])),
        r is None <==> gateways@.len() == 0,
        gateways@.len() == 1 ==> r == Some(&gateways@[0]),
        r matches Some(g) ==> exists|i: int| 0 <= i < gateways@.len() && *g == #[trigger] gateways@[i],
        gateways@.len() > 1 && *algorithm == DistributionAlgorithm::HashCallId ==> r == Some(
            &gateways@[hashed_pick(ctx.call_id, gateways@.len())],
        ),
        gateways@.len() > 1 && *algorithm == DistributionAlgorithm::HashSrcIp ==> r == Some(
            &gateways@[hashed_pick(ctx.src_ip, gateways@.len())],
        ),
        gateways@.len() > 1 && *algorithm == DistributionAlgorithm::HashDestination ==> r == Some(
            &gateways@[hashed_pick(ctx.destination, gateways@.len())],
        ),
        gateways@.len() > 1 && *algorithm == DistributionAlgorithm::RoundRobin ==> exists|t: u64|
            r == Some(&gateways@[#[trigger] ticket_slot(t, gateways@.len())]),
{
    let ticket: u64 = if gateways.len() > 1 {
        match algorithm {
            DistributionAlgorithm::RoundRobin => next_ticket(ctx.counter),
            _ => 0,
        }
    } else {
        0
    };
    let r = select_gateway_with(algorithm, gateways, ctx, ticket, rng);
    assert(gateways@.len() > 1 && *algorithm == DistributionAlgorithm::RoundRobin ==> r == Some(
        &gateways@[ticket_slot(ticket, gateways@.len())],
    ));
    r
}

/// A gateway weighs what its configuration says, and 1 when it says
/// nothing: the weight list has one entry per gateway, in order.
pub proof fn law_gateway_weights_default_to_one(gs: Seq<GatewayRef>)
    ensures
        gateway_weights(gs).len() == gs.len(),
        forall|i: int| 0 <= i < gs.len() && #[trigger] gs[i].weight is None ==> gateway_weights(gs)[i] == 1,
        forall|i: int|
            0 <= i < gs.len() ==> (#[trigger] gs[i].weight matches Some(w) ==> gateway_weights(gs)[i]
                == w as u64),
{
}

/// Prefix sums of unit weights count the entries.
proof fn lemma_unit_prefix(w: Seq<u64>, n: int)
    requires
        0 <= n <= w.len(),
        forall|i: int| 0 <= i < w.len() ==> w[i] == 1,
    ensures
        weight_prefix(w, n) == n,
    decreases n,
{
    if n > 0 {
        lemma_unit_prefix(w, n - 1);
    }
}

/// Gateways without configured weights share the traffic equally: the
/// total weight is the number of gateways, and of as many tickets each
/// gateway owns exactly one, ticket `t` belonging to the gateway at `t`.
pub proof fn law_unset_weights_share_equally(gs: Seq<GatewayRef>)
    requires
        forall|i: int| 0 <= i < gs.len() ==> (#[trigger] gs[i]).weight is None,
    ensures
        weight_total(gateway_weights(gs)) == gs.len(),
        forall|t: nat, i: int|
            t < gs.len() ==> (#[trigger] owns_ticket(gateway_weights(gs), t, i) <==> i == t),
{
    let w = gateway_weights(gs);
    assert forall|i: int| 0 <= i < w.len() implies w[i] == 1 by {
        assert(gs[i].weight is None);
    }
    lemma_unit_prefix(w, w.len() as int);
    assert forall|t: nat, i: int| t < gs.len() implies (#[trigger] owns_ticket(w, t, i) <==> i == t) by {
        if 0 <= i < w.len() {
            lemma_unit_prefix(w, i);
            lemma_unit_prefix(w, i + 1);
        }
    }
}

/// Hash-based selection is deterministic: the same key over the same
/// gateways always picks the same gateway.
pub proof fn law_hash_selection_deterministic(key1: Option<&str>, key2: Option<&str>, len: nat)
    requires
        len > 0,
        match (key1, key2) {
            (Some(a), Some(b)) => a@ == b@,
            (None, None) => true,
            _ => false,
        },
    ensures
        hashed_pick(key1, len) == hashed_pick(key2, len),
        0 <= hashed_pick(key1, len) < len,
{
}

/// How many tickets after `start` the gateway at `i` of `n` comes up.
pub open spec fn turns_until(start: int, n: int, i: int) -> int {
    (i - start) % n
}

/// Round-robin cycles evenly: over `n` consecutive tickets from any
/// `start`, each of `n` gateways is picked, and picked exactly once.
pub proof fn law_round_robin_cycles(start: int, n: int)
    requires
        n > 0,
    ensures
        forall|i: int| 0 <= i < n ==> 0 <= #[trigger] turns_until(start, n, i) < n && (start
            + turns_until(start, n, i)) % n == i,
        forall|k1: int, k2: int|
            0 <= k1 < n && 0 <= k2 < n && #[trigger] ((start + k1) % n) == #[trigger] ((start + k2) % n)
                ==> k1 == k2,
{
    assert forall|i: int| 0 <= i < n implies 0 <= #[trigger] turns_until(start, n, i) < n && (start
        + turns_until(start, n, i)) % n == i by {
        let d = i - start;
        let q = d / n;
        let r = d % n;
        vstd::arithmetic::div_mod::lemma_fundamental_div_mod(d, n);
        assert(start + r == n * (-q) + i) by (nonlinear_arith)
            requires
                d == i - start,
                d == n * q + r,
        ;
        vstd::arithmetic::div_mod::lemma_mod_multiples_vanish(-q, i, n);
        vstd::arithmetic::div_mod::lemma_small_mod(i as nat, n as nat);
        assert((start + r) % n == i);
    }
    assert forall|k1: int, k2: int|
        0 <= k1 < n && 0 <= k2 < n && #[trigger] ((start + k1) % n) == #[trigger] ((start + k2) % n)
            implies k1 == k2 by {
        let a = start + k1;
        let b = start + k2;
        vstd::arithmetic::div_mod::lemma_fundamental_div_mod(a, n);
        vstd::arithmetic::div_mod::lemma_fundamental_div_mod(b, n);
        let qa = a / n;
        let qb = b / n;
        assert(k2 - k1 == n * (qb - qa)) by (nonlinear_arith)
            requires
                a == n * qa + a % n,
                b == n * qb + b % n,
                a % n == b % n,
                a == start + k1,
                b == start + k2,
        ;
        assert(k1 == k2) by (nonlinear_arith)
            requires
                k2 - k1 == n * (qb - qa),
                0 <= k1 < n,
                0 <= k2 < n,
                n > 0,
        ;
    }
}

} // verus!
