//! Key names of the shared state store, the references between resources
//! that block deletion, and the window of the calls-per-second counter.
//!
//! Configuration entities live under `{prefix}{entity}:{name}`. A reference
//! from resource `source` to resource `target` (each written
//! `{entity}:{name}`) is kept in the forward set
//! `{prefix}sv:engagement:refs:{source}` and the reverse set
//! `{prefix}sv:engagement:deps:{target}`. A resource that something
//! references cannot be deleted.

use vstd::prelude::*;
use crate::redis_state::types::{RoutingRecord, RoutingTableConfig, RoutingTarget, TrunkConfig};
use crate::security::string_views;
use crate::text::{append, chars_of, join, join_seq, string_from_chars, views};

verus! {

/// `a` followed by `b`, as a `String`.
fn concat2(a: &str, b: &str) -> (r: String)
    ensures
        r@ == a@ + b@,
{
    let mut v = chars_of(a);
    let w = chars_of(b);
    append(&mut v, &w);
    string_from_chars(&v)
}

/// `a`, `b` and `c` in a row, as a `String`.
fn concat3(a: &str, b: &str, c: &str) -> (r: String)
    ensures
        r@ == a@ + b@ + c@,
{
    let ab = concat2(a, b);
    concat2(ab.as_str(), c)
}

/// The key of configuration entity `name` of kind `entity`:
/// `{prefix}{entity}:{name}`.
pub fn entity_key(prefix: &str, entity: &str, name: &str) -> (r: String)
    ensures
        r@ == prefix@ + entity@ + ":"@ + name@,
{
    let a = concat3(prefix, entity, ":");
    concat2(a.as_str(), name)
}

/// The pattern of all keys of kind `entity`: `{prefix}{entity}:*`.
pub fn entity_pattern(prefix: &str, entity: &str) -> (r: String)
    ensures
        r@ == prefix@ + entity@ + ":*"@,
{
    concat3(prefix, entity, ":*")
}

/// The forward set of `source`: `{prefix}sv:engagement:refs:{source}`.
pub fn refs_key(prefix: &str, source: &str) -> (r: String)
    ensures
        r@ == prefix@ + "sv:engagement:refs:"@ + source@,
{
    concat3(prefix, "sv:engagement:refs:", source)
}

/// The reverse set of `target`: `{prefix}sv:engagement:deps:{target}`.
pub fn deps_key(prefix: &str, target: &str) -> (r: String)
    ensures
        r@ == prefix@ + "sv:engagement:deps:"@ + target@,
{
    concat3(prefix, "sv:engagement:deps:", target)
}

/// The name of a resource in references: `{entity}:{name}`.
pub fn resource_ref(entity: &str, name: &str) -> (r: String)
    ensures
        r@ == entity@ + ":"@ + name@,
{
    concat3(entity, ":", name)
}

/// The set of active calls of a trunk: `sv:calls:{trunk}`.
pub fn calls_key(trunk: &str) -> (r: String)
    ensures
        r@ == "sv:calls:"@ + trunk@,
{
    concat2("sv:calls:", trunk)
}

/// The calls-per-second events of a trunk: `sv:cps:{trunk}`.
pub fn cps_key(trunk: &str) -> (r: String)
    ensures
        r@ == "sv:cps:"@ + trunk@,
{
    concat2("sv:cps:", trunk)
}

/// The health status of a gateway: `sv:health:{gateway}`.
pub fn health_key(gateway: &str) -> (r: String)
    ensures
        r@ == "sv:health:"@ + gateway@,
{
    concat2("sv:health:", gateway)
}

/// The oldest time (ms) inside a window of `window_secs` seconds ending at
/// `now_ms`: events scored below it are dropped, events from it on count.
pub fn cps_cutoff(now_ms: i64, window_secs: u64) -> (r: i64)
    requires
        window_secs * 1000 <= i64::MAX,
        now_ms - window_secs * 1000 >= i64::MIN,
    ensures
        r == now_ms - window_secs * 1000,
{
    now_ms - (window_secs as i64) * 1000
}

/// The references a trunk holds: `gateway:{name}` for each of its
/// gateways, in order.
pub open spec fn trunk_refs_of(t: TrunkConfig) -> Seq<Seq<char>> {
    t.gateways@.map_values(|g: crate::redis_state::types::GatewayRef| "gateway"@ + ":"@ + g.name@)
}

/// What a trunk references: its gateways.
pub fn trunk_references(config: &TrunkConfig) -> (r: Vec<String>)
    ensures
        string_views(r@) == trunk_refs_of(*config),
{
    let mut r: Vec<String> = Vec::new();
    let mut i: usize = 0;
    while i < config.gateways.len()
        invariant
            i <= config.gateways@.len(),
            string_views(r@) == trunk_refs_of(*config).subrange(0, i as int),
        decreases config.gateways@.len() - i,
    {
        let s = resource_ref("gateway", config.gateways[i].name.as_str());
        let ghost before = string_views(r@);
        r.push(s);
        assert(string_views(r@) =~= before.push(s@));
        assert(trunk_refs_of(*config).subrange(0, i + 1) =~= trunk_refs_of(*config).subrange(0, i as int).push(s@));
        i = i + 1;
    }
    assert(trunk_refs_of(*config).subrange(0, i as int) =~= trunk_refs_of(*config));
    r
}

/// The trunk references of some routing targets, in order.
pub open spec fn target_refs_of(ts: Seq<RoutingTarget>) -> Seq<Seq<char>> {
    ts.map_values(|t: RoutingTarget| "trunk"@ + ":"@ + t.trunk@)
}

/// The trunk references of routing records: those of each record's
/// targets, record after record.
pub open spec fn table_refs_of(records: Seq<RoutingRecord>) -> Seq<Seq<char>>
    decreases records.len(),
{
    if records.len() == 0 {
        Seq::empty()
    } else {
        table_refs_of(records.drop_last()) + target_refs_of(records.last().targets@)
    }
}

/// What a routing table references: the trunks its records target.
pub fn routing_table_references(config: &RoutingTableConfig) -> (r: Vec<String>)
    ensures
        string_views(r@) == table_refs_of(config.records@),
{
    let mut r: Vec<String> = Vec::new();
    let mut i: usize = 0;
    while i < config.records.len()
        invariant
            i <= config.records@.len(),
            string_views(r@) == table_refs_of(config.records@.subrange(0, i as int)),
        decreases config.records@.len() - i,
    {
        let targets = &config.records[i].targets;
        let ghost base = string_views(r@);
        assert(config.records@.subrange(0, i + 1).drop_last() =~= config.records@.subrange(0, i as int));
        let mut j: usize = 0;
        while j < targets.len()
            invariant
                j <= targets@.len(),
                string_views(r@) == base + target_refs_of(targets@).subrange(0, j as int),
            decreases targets@.len() - j,
        {
            let s = resource_ref("trunk", targets[j].trunk.as_str());
            let ghost before = string_views(r@);
            r.push(s);
            assert(string_views(r@) =~= before.push(s@));
            assert(target_refs_of(targets@).subrange(0, j + 1) =~= target_refs_of(targets@).subrange(0, j as int).push(s@));
            j = j + 1;
        }
        assert(target_refs_of(targets@).subrange(0, j as int) =~= target_refs_of(targets@));
        i = i + 1;
    }
    assert(config.records@.subrange(0, i as int) =~= config.records@);
    r
}

/// The refusal to delete a referenced resource.
pub open spec fn engaged_message(entity_type: Seq<char>, name: Seq<char>, deps: Seq<Seq<char>>) -> Seq<char> {
    "cannot delete "@ + entity_type + " '"@ + name + "': referenced by "@ + join_seq(deps, ", "@)
}

/// Whether resource `name` of kind `entity_type` may be deleted, given the
/// resources that reference it: yes when there are none, otherwise the
/// refusal naming them.
pub fn check_not_engaged(entity_type: &str, name: &str, deps: &[String]) -> (r: Result<(), String>)
    ensures
        deps@.len() == 0 <==> r is Ok,
        r matches Err(m) ==> m@ == engaged_message(entity_type@, name@, string_views(deps@)),
{
    if deps.len() == 0 {
        return Ok(());
    }
    let mut pieces: Vec<Vec<char>> = Vec::new();
    let mut i: usize = 0;
    while i < deps.len()
        invariant
            i <= deps@.len(),
            views(pieces@) == string_views(deps@).subrange(0, i as int),
        decreases deps@.len() - i,
    {
        let ghost before = views(pieces@);
        let c = chars_of(deps[i].as_str());
        pieces.push(c);
        assert(views(pieces@) =~= before.push(deps@[i as int]@));
        assert(string_views(deps@).subrange(0, i + 1) =~= string_views(deps@).subrange(0, i as int).push(deps@[i as int]@));
        i = i + 1;
    }
    assert(string_views(deps@).subrange(0, i as int) =~= string_views(deps@));
    let sep = chars_of(", ");
    let joined = join(&pieces, &sep);
    let head = concat3("cannot delete ", entity_type, " '");
    let mid = concat3(head.as_str(), name, "': referenced by ");
    let all = concat2(mid.as_str(), string_from_chars(&joined).as_str());
    Err(all)
}

/// The store operations that drop every reference held by a resource.
#[derive(Debug)]
pub struct UntrackPlan {
    /// The reverse sets to remove the resource from, one per target.
    pub remove_from: Vec<String>,
    /// The forward set to delete, when it had members.
    pub delete: Option<String>,
}

/// How to drop all references of `source`, whose forward set holds
/// `targets`: remove `source` from the reverse set of each target, then
/// delete the forward set unless it was empty.
pub fn untrack_all_plan(prefix: &str, source: &str, targets: &[String]) -> (r: UntrackPlan)
    ensures
        r.remove_from@.len() == targets@.len(),
        forall|i: int| 0 <= i < targets@.len() ==> (#[trigger] r.remove_from@[i])@ == prefix@
            + "sv:engagement:deps:"@ + targets@[i]@,
        targets@.len() == 0 ==> r.delete is None,
        targets@.len() > 0 ==> (r.delete matches Some(k) && k@ == prefix@ + "sv:engagement:refs:"@
            + source@),
{
    let mut remove_from: Vec<String> = Vec::new();
    let mut i: usize = 0;
    while i < targets.len()
        invariant
            i <= targets@.len(),
            remove_from@.len() == i,
            forall|j: int| 0 <= j < i ==> (#[trigger] remove_from@[j])@ == prefix@
                + "sv:engagement:deps:"@ + targets@[j]@,
        decreases targets@.len() - i,
    {
        remove_from.push(deps_key(prefix, targets[i].as_str()));
        i = i + 1;
    }
    let delete = if targets.len() > 0 {
        Some(refs_key(prefix, source))
    } else {
        None
    };
    UntrackPlan { remove_from, delete }
}

} // verus!
