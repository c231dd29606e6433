//! Resolution of a call through routing tables: the decisions of the
//! resolver. Tables are fetched, HTTP queries sent and numeric comparisons
//! made by the caller, which hands each answer back to the scan.
//!
//! Within a table, records that are not defaults are tried by ascending
//! priority (ties in table order); the first that matches decides. A
//! matching record either jumps to another table or selects a target.
//! When none matches, the first default record decides; without one the
//! table yields no route.

use vstd::prelude::*;
use crate::pattern::{matches_text, pattern_matches};
use crate::redis_state::types::{MatchType, RoutingRecord, RoutingTarget};
use crate::proxy::failover::opt_view;
use crate::routing::engine::{
    chosen_target, field_value, resolve_field, select_target_with, target_weights, RouteContext,
    RouteResult, MAX_JUMP_DEPTH,
};
use crate::routing::lpm::lpm_candidate;
use crate::text::{append, chars_of, eq_chars, is_text, starts_with, string_from_chars};
use crate::weighted::weight_total;

verus! {

/// Record `j` takes part in the priority scan: it exists and is no default.
pub open spec fn scanned(records: Seq<RoutingRecord>, j: int) -> bool {
    0 <= j < records.len() && !records[j].is_default
}

/// Record `i` comes before record `j` in the scan: lower priority value,
/// or the same priority and earlier in the table.
pub open spec fn scan_before(records: Seq<RoutingRecord>, i: int, j: int) -> bool {
    records[i].priority < records[j].priority || (records[i].priority == records[j].priority && i
        < j)
}

/// Record `j` comes after the cursor (every record does when there is none).
pub open spec fn after_cursor(records: Seq<RoutingRecord>, cursor: Option<usize>, j: int) -> bool {
    match cursor {
        Some(c) => scan_before(records, c as int, j),
        None => true,
    }
}

/// `v` is the value of the longest-prefix match among the records that are
/// not defaults.
pub open spec fn lpm_winner(records: Seq<RoutingRecord>, dest: Seq<char>, v: Seq<char>) -> bool {
    &&& exists|i: int|
        scanned(records, i) && lpm_candidate(#[trigger] records[i], dest) && records[i].value@ == v
    &&& forall|j: int|
        scanned(records, j) && lpm_candidate(#[trigger] records[j], dest) ==> records[j].value@.len()
            <= v.len()
}

/// Whether record `i` matches by its own rule: an LPM record when its value
/// is the longest-prefix match of the destination, an exact record when the
/// field equals its value, a regex record when its pattern compiles and
/// matches the field. `None` for the kinds that need an outside answer
/// (numeric comparison and HTTP query).
pub open spec fn local_verdict(records: Seq<RoutingRecord>, ctx: RouteContext, i: int) -> Option<
    bool,
> {
    let r = records[i];
    match r.match_type {
        MatchType::Lpm => Some(lpm_winner(records, ctx.destination_number@, r.value@)),
        MatchType::ExactMatch => Some(field_value(ctx, r.match_field@) == r.value@),
        MatchType::Regex => Some(pattern_matches(r.value@, field_value(ctx, r.match_field@))),
        _ => None,
    }
}

/// Every scanned record after `from` and before `i` in scan order was found
/// not to match.
pub open spec fn skipped_until(
    records: Seq<RoutingRecord>,
    ctx: RouteContext,
    from: Option<usize>,
    i: int,
) -> bool {
    forall|j: int|
        scanned(records, j) && after_cursor(records, from, j) && scan_before(records, j, i)
            ==> local_verdict(records, ctx, j) == Some(false)
}

/// Every scanned record after `from` was found not to match.
pub open spec fn skipped_all(records: Seq<RoutingRecord>, ctx: RouteContext, from: Option<usize>) -> bool {
    forall|j: int|
        scanned(records, j) && after_cursor(records, from, j) ==> local_verdict(records, ctx, j)
            == Some(false)
}

/// Record `i` is the first default record of the table.
pub open spec fn first_default(records: Seq<RoutingRecord>, i: int) -> bool {
    &&& 0 <= i < records.len()
    &&& records[i].is_default
    &&& forall|k: int| 0 <= k < i ==> !records[k].is_default
}

/// What the scan of a table asks for next.
#[derive(Debug, Clone, PartialEq)]
pub enum ScanStep {
    /// This record matched: handle it.
    Matched(usize),
    /// Compare the record's field with its value (numerically when both
    /// parse as numbers) and answer.
    NeedCompare(usize),
    /// Send the record's HTTP query and answer.
    NeedHttp(usize),
    /// The HTTP query of this record named a trunk.
    HttpRouted(usize, String),
    /// No record matched; this default record decides.
    Default(usize),
    /// No record matched and the table has no default.
    NoMatch,
}

/// The scan of one routing table.
#[derive(Debug)]
pub struct TableScan {
    /// The value of the longest-prefix match of the destination among the
    /// records that are not defaults.
    pub lpm_value: Option<Vec<char>>,
    /// The last record tried.
    pub cursor: Option<usize>,
    /// Whether the scan waits for an outside answer about the cursor.
    pub pending: bool,
}

/// Two longest-prefix values of one destination are the same.
proof fn lemma_lpm_winner_unique(records: Seq<RoutingRecord>, dest: Seq<char>, a: Seq<char>, b: Seq<char>)
    requires
        lpm_winner(records, dest, a),
        lpm_winner(records, dest, b),
    ensures
        a == b,
{
    let ia = choose|i: int|
        scanned(records, i) && lpm_candidate(#[trigger] records[i], dest) && records[i].value@ == a;
    let ib = choose|i: int|
        scanned(records, i) && lpm_candidate(#[trigger] records[i], dest) && records[i].value@ == b;
    assert(a.len() <= b.len() && b.len() <= a.len());
    assert(a == dest.subrange(0, a.len() as int));
    assert(b == dest.subrange(0, b.len() as int));
}

impl TableScan {
    /// The scan is set up for these records and this call.
    pub closed spec fn wf(&self, records: Seq<RoutingRecord>, ctx: RouteContext) -> bool {
        &&& match self.lpm_value {
            Some(v) => lpm_winner(records, ctx.destination_number@, v@),
            None => forall|j: int|
                scanned(records, j) ==> !lpm_candidate(#[trigger] records[j], ctx.destination_number@),
        }
        &&& match self.cursor {
            Some(c) => scanned(records, c as int),
            None => true,
        }
    }

    /// Starts the scan of `records` for the call `ctx`: nothing tried yet.
    pub fn new(records: &[RoutingRecord], ctx: &RouteContext) -> (r: Self)
        ensures
            r.wf(records@, *ctx),
            r.cursor is None,
            !r.pending,
    {
        let dest = chars_of(ctx.destination_number.as_str());
        let mut best: Option<Vec<char>> = None;
        let mut best_idx: usize = 0;
        let mut i: usize = 0;
        while i < records.len()
            invariant
                i <= records@.len(),
                dest@ == ctx.destination_number@,
                best is None ==> forall|j: int|
                    0 <= j < i && scanned(records@, j) ==> !lpm_candidate(
                        #[trigger] records@[j],
                        dest@,
                    ),
                best matches Some(v) ==> {
                    &&& best_idx < i
                    &&& scanned(records@, best_idx as int)
                    &&& lpm_candidate(records@[best_idx as int], dest@)
                    &&& records@[best_idx as int].value@ == v@
                    &&& forall|j: int|
                        0 <= j < i && scanned(records@, j) && lpm_candidate(
                            #[trigger] records@[j],
                            dest@,
                        ) ==> records@[j].value@.len() <= v@.len()
                },
            decreases records@.len() - i,
        {
            let rec = &records[i];
            if !rec.is_default && rec.match_type == MatchType::Lpm {
                let value = chars_of(rec.value.as_str());
                if starts_with(&dest, &value) {
                    let longer = match &best {
                        Some(b) => value.len() > b.len(),
                        None => true,
                    };
                    if longer {
                        best = Some(value);
                        best_idx = i;
                    }
                }
            }
            i = i + 1;
        }
        if best.is_some() {
            assert(scanned(records@, best_idx as int) && lpm_candidate(
                records@[best_idx as int],
                dest@,
            ));
        }
        TableScan { lpm_value: best, cursor: None, pending: false }
    }

    /// The verdict of record `i` by its own rule.
    fn verdict(&self, records: &[RoutingRecord], ctx: &RouteContext, i: usize) -> (r: Option<bool>)
        requires
            self.wf(records@, *ctx),
            scanned(records@, i as int),
        ensures
            r == local_verdict(records@, *ctx, i as int),
    {
        let rec = &records[i];
        match rec.match_type {
            MatchType::Lpm => {
                let value = chars_of(rec.value.as_str());
                match &self.lpm_value {
                    Some(v) => {
                        let same = eq_chars(v, &value);
                        proof {
                            if lpm_winner(records@, ctx.destination_number@, rec.value@) {
                                lemma_lpm_winner_unique(
                                    records@,
                                    ctx.destination_number@,
                                    v@,
                                    rec.value@,
                                );
                            }
                        }
                        Some(same)
                    },
                    None => Some(false),
                }
            },
            MatchType::ExactMatch => {
                let field = resolve_field(ctx, rec.match_field.as_str());
                Some(eq_chars(&chars_of(field), &chars_of(rec.value.as_str())))
            },
            MatchType::Regex => {
                let field = resolve_field(ctx, rec.match_field.as_str());
                Some(matches_text(rec.value.as_str(), field))
            },
            _ => None,
        }
    }

    /// Goes on from the cursor: tries records in scan order until one
    /// matches, one needs an outside answer, or none is left.
    pub fn advance(&mut self, records: &[RoutingRecord], ctx: &RouteContext) -> (r: ScanStep)
        requires
            old(self).wf(records@, *ctx),
            !old(self).pending,
        ensures
            final(self).wf(records@, *ctx),
            Self::advance_result(records@, *ctx, old(self).cursor, *final(self), r),
    {
        let ghost start = self.cursor;
        loop
            invariant
                self.wf(records@, *ctx),
                !self.pending,
                start == old(self).cursor,
                forall|j: int|
                    scanned(records@, j) && after_cursor(records@, start, j) && !after_cursor(
                        records@,
                        self.cursor,
                        j,
                    ) ==> local_verdict(records@, *ctx, j) == Some(false),
                match start {
                    Some(s) => self.cursor matches Some(c) && (c == s || scan_before(
                        records@,
                        s as int,
                        c as int,
                    )),
                    None => true,
                },
            decreases Self::rank(records@, self.cursor), Self::rank2(records@, self.cursor),
        {
            match next_candidate(records, self.cursor) {
                None => {
                    return match first_default_index(records) {
                        Some(d) => ScanStep::Default(d),
                        None => ScanStep::NoMatch,
                    };
                },
                Some(i) => {
                    let v = self.verdict(records, ctx, i);
                    match v {
                        Some(true) => {
                            return ScanStep::Matched(i);
                        },
                        Some(false) => {
                            self.cursor = Some(i);
                        },
                        None => {
                            self.cursor = Some(i);
                            self.pending = true;
                            if records[i].match_type == MatchType::Compare {
                                return ScanStep::NeedCompare(i);
                            } else {
                                return ScanStep::NeedHttp(i);
                            }
                        },
                    }
                },
            }
        }
    }

    /// First component of the scan's progress measure.
    pub open spec fn rank(records: Seq<RoutingRecord>, cursor: Option<usize>) -> int {
        match cursor {
            Some(c) => u32::MAX - records[c as int].priority,
            None => u32::MAX + 1,
        }
    }

    /// Second component of the scan's progress measure.
    pub open spec fn rank2(records: Seq<RoutingRecord>, cursor: Option<usize>) -> int {
        match cursor {
            Some(c) => records.len() - c,
            None => records.len() + 1int,
        }
    }

    /// What an advance from `from` may return, with the scan after it.
    pub open spec fn advance_result(
        records: Seq<RoutingRecord>,
        ctx: RouteContext,
        from: Option<usize>,
        after: TableScan,
        r: ScanStep,
    ) -> bool {
        match r {
            ScanStep::Matched(i) => {
                &&& scanned(records, i as int)
                &&& after_cursor(records, from, i as int)
                &&& local_verdict(records, ctx, i as int) == Some(true)
                &&& skipped_until(records, ctx, from, i as int)
                &&& !after.pending
            },
            ScanStep::NeedCompare(i) => {
                &&& scanned(records, i as int)
                &&& after_cursor(records, from, i as int)
                &&& records[i as int].match_type == MatchType::Compare
                &&& skipped_until(records, ctx, from, i as int)
                &&& after.cursor == Some(i)
                &&& after.pending
            },
            ScanStep::NeedHttp(i) => {
                &&& scanned(records, i as int)
                &&& after_cursor(records, from, i as int)
                &&& records[i as int].match_type == MatchType::HttpQuery
                &&& skipped_until(records, ctx, from, i as int)
                &&& after.cursor == Some(i)
                &&& after.pending
            },
            ScanStep::Default(i) => skipped_all(records, ctx, from) && first_default(records, i as int)
                && !after.pending,
            ScanStep::NoMatch => skipped_all(records, ctx, from) && (forall|k: int|
                0 <= k < records.len() ==> !(#[trigger] records[k]).is_default) && !after.pending,
            ScanStep::HttpRouted(..) => false,
        }
    }

    /// The answer of the numeric/string comparison of the pending record:
    /// a match decides, otherwise the scan goes on.
    pub fn answer_compare(&mut self, records: &[RoutingRecord], ctx: &RouteContext, matched: bool) -> (r: ScanStep)
        requires
            old(self).wf(records@, *ctx),
            old(self).pending,
            old(self).cursor is Some,
        ensures
            final(self).wf(records@, *ctx),
            matched ==> r == ScanStep::Matched(old(self).cursor.unwrap()) && !final(self).pending,
            !matched ==> Self::advance_result(records@, *ctx, old(self).cursor, *final(self), r),
    {
        self.pending = false;
        if matched {
            match self.cursor {
                Some(c) => ScanStep::Matched(c),
                None => ScanStep::NoMatch,
            }
        } else {
            self.advance(records, ctx)
        }
    }

    /// The answer of the HTTP query of the pending record: a named trunk
    /// routes the call at once; none (or a failed query) goes on.
    pub fn answer_http(
        &mut self,
        records: &[RoutingRecord],
        ctx: &RouteContext,
        trunk: Option<String>,
    ) -> (r: ScanStep)
        requires
            old(self).wf(records@, *ctx),
            old(self).pending,
            old(self).cursor is Some,
        ensures
            final(self).wf(records@, *ctx),
            trunk matches Some(t) ==> r == ScanStep::HttpRouted(old(self).cursor.unwrap(), t)
                && !final(self).pending,
            trunk is None ==> Self::advance_result(records@, *ctx, old(self).cursor, *final(self), r),
    {
        self.pending = false;
        match trunk {
            Some(t) => match self.cursor {
                Some(c) => ScanStep::HttpRouted(c, t),
                None => ScanStep::NoMatch,
            },
            None => self.advance(records, ctx),
        }
    }
}

/// The scanned record that comes next after `cursor` in scan order.
pub fn next_candidate(records: &[RoutingRecord], cursor: Option<usize>) -> (r: Option<usize>)
    requires
        cursor matches Some(c) ==> c < records@.len(),
    ensures
        r matches Some(i) ==> {
            &&& scanned(records@, i as int)
            &&& after_cursor(records@, cursor, i as int)
            &&& forall|j: int|
                scanned(records@, j) && after_cursor(records@, cursor, j) ==> j == i || scan_before(
                    records@,
                    i as int,
                    j,
                )
        },
        r is None ==> forall|j: int| scanned(records@, j) ==> !after_cursor(records@, cursor, j),
{
    let mut best: Option<usize> = None;
    let mut i: usize = 0;
    while i < records.len()
        invariant
            i <= records@.len(),
            cursor matches Some(c) ==> c < records@.len(),
            best is None ==> forall|j: int|
                0 <= j < i && scanned(records@, j) ==> !after_cursor(records@, cursor, j),
            best matches Some(b) ==> {
                &&& b < i
                &&& scanned(records@, b as int)
                &&& after_cursor(records@, cursor, b as int)
                &&& forall|j: int|
                    0 <= j < i && scanned(records@, j) && after_cursor(records@, cursor, j) ==> j
                        == b || scan_before(records@, b as int, j)
            },
        decreases records@.len() - i,
    {
        if !records[i].is_default {
            let after = match cursor {
                Some(c) => records[c].priority < records[i].priority || (records[c].priority
                    == records[i].priority && c < i),
                None => true,
            };
            if after {
                let better = match best {
                    Some(b) => records[i].priority < records[b].priority,
                    None => true,
                };
                if better {
                    best = Some(i);
                }
            }
        }
        i = i + 1;
    }
    best
}

/// The first default record of the table.
pub fn first_default_index(records: &[RoutingRecord]) -> (r: Option<usize>)
    ensures
        r matches Some(i) ==> first_default(records@, i as int),
        r is None ==> forall|k: int| 0 <= k < records@.len() ==> !(#[trigger] records@[k]).is_default,
{
    let mut i: usize = 0;
    while i < records.len()
        invariant
            i <= records@.len(),
            forall|k: int| 0 <= k < i ==> !(#[trigger] records@[k]).is_default,
        decreases records@.len() - i,
    {
        if records[i].is_default {
            return Some(i);
        }
        i = i + 1;
    }
    None
}


/// The resolution may go on at jump depth `depth`: no deeper than the limit.
pub fn check_depth(depth: u32) -> (r: Result<(), String>)
    ensures
        r is Ok <==> depth <= MAX_JUMP_DEPTH,
        r matches Err(e) ==> e@ == "routing loop: max depth 10 exceeded"@,
{
    if depth > MAX_JUMP_DEPTH {
        Err("routing loop: max depth 10 exceeded".to_owned())
    } else {
        Ok(())
    }
}

/// The error for a routing table that does not exist:
/// `routing table '<name>' not found`.
pub fn table_not_found(name: &str) -> (r: String)
    ensures
        r@ == "routing table '"@ + name@ + "' not found"@,
{
    let mut v = chars_of("routing table '");
    append(&mut v, &chars_of(name));
    append(&mut v, &chars_of("' not found"));
    string_from_chars(&v)
}

/// Two targets hold the same trunk and load.
pub open spec fn same_target(a: RoutingTarget, b: RoutingTarget) -> bool {
    a.trunk@ == b.trunk@ && a.load_percent == b.load_percent
}

/// Two routing records hold the same values.
pub open spec fn same_record(a: RoutingRecord, b: RoutingRecord) -> bool {
    &&& a.match_type == b.match_type
    &&& a.value@ == b.value@
    &&& opt_view(a.compare_op) == opt_view(b.compare_op)
    &&& a.match_field@ == b.match_field@
    &&& a.targets@.len() == b.targets@.len()
    &&& forall|i: int| 0 <= i < a.targets@.len() ==> same_target(#[trigger] a.targets@[i], b.targets@[i])
    &&& opt_view(a.jump_to) == opt_view(b.jump_to)
    &&& a.priority == b.priority
    &&& a.is_default == b.is_default
}

/// A copy of an optional string.
fn copy_opt(o: &Option<String>) -> (r: Option<String>)
    ensures
        opt_view(r) == opt_view(*o),
{
    match o {
        Some(s) => Some(s.clone()),
        None => None,
    }
}

/// A copy of a routing record.
pub fn copy_record(record: &RoutingRecord) -> (r: RoutingRecord)
    ensures
        same_record(r, *record),
{
    let mut targets: Vec<RoutingTarget> = Vec::new();
    let mut i: usize = 0;
    while i < record.targets.len()
        invariant
            i <= record.targets@.len(),
            targets@.len() == i,
            forall|k: int| 0 <= k < i ==> same_target(#[trigger] targets@[k], record.targets@[k]),
        decreases record.targets@.len() - i,
    {
        let t = &record.targets[i];
        targets.push(RoutingTarget { trunk: t.trunk.clone(), load_percent: t.load_percent });
        i = i + 1;
    }
    RoutingRecord {
        match_type: record.match_type,
        value: record.value.clone(),
        compare_op: copy_opt(&record.compare_op),
        match_field: record.match_field.clone(),
        targets,
        jump_to: copy_opt(&record.jump_to),
        priority: record.priority,
        is_default: record.is_default,
    }
}

/// What a matched record leads to.
#[derive(Debug)]
pub enum MatchAction {
    /// Resolve again in this table, one level deeper.
    Jump { table: String, depth: u32 },
    /// The call is routed.
    Routed(RouteResult),
}

/// The route of a call whose trunk was chosen by `record` of `table_name`.
pub fn route_result(record: &RoutingRecord, trunk: &str, table_name: &str) -> (r: RouteResult)
    ensures
        r.trunk@ == trunk@,
        r.table_name@ == table_name@,
        r.matched_record matches Some(m) && same_record(m, *record),
{
    RouteResult {
        trunk: trunk.to_owned(),
        matched_record: Some(copy_record(record)),
        table_name: table_name.to_owned(),
    }
}

/// Handles a record matched in `table_name` at jump depth `depth`: a jump
/// resolves in the named table one level deeper; otherwise a target is
/// chosen with ticket `pick`, and a record without targets is an error.
pub fn handle_matched(record: &RoutingRecord, table_name: &str, depth: u32, pick: u64) -> (r: Result<
    MatchAction,
    String,
>)
    requires
        depth <= MAX_JUMP_DEPTH,
        weight_total(target_weights(record.targets@)) <= u32::MAX,
    ensures
        record.jump_to matches Some(t) ==> (r matches Ok(MatchAction::Jump { table, depth: d })
            && table@ == t@ && d == depth + 1),
        record.jump_to is None && record.targets@.len() == 0 ==> (r matches Err(e) && e@
            == "routing record matched but has no targets"@),
        record.jump_to is None && record.targets@.len() > 0 ==> (r matches Ok(
            MatchAction::Routed(res),
        ) && res.table_name@ == table_name@ && chosen_target(record.targets@, pick, res.trunk@) && (
        res.matched_record matches Some(m) && same_record(m, *record))),
{
    match &record.jump_to {
        Some(t) => Ok(MatchAction::Jump { table: t.clone(), depth: depth + 1 }),
        None => match select_target_with(record.targets.as_slice(), pick) {
            Some(trunk) => Ok(MatchAction::Routed(route_result(record, trunk, table_name))),
            None => Err("routing record matched but has no targets".to_owned()),
        },
    }
}

/// `a` sorts before `b`, character by character.
pub open spec fn str_less(a: Seq<char>, b: Seq<char>) -> bool
    decreases a.len(),
{
    if a.len() == 0 {
        b.len() > 0
    } else if b.len() == 0 {
        false
    } else if (a[0] as u32) < (b[0] as u32) {
        true
    } else if a[0] == b[0] {
        str_less(a.drop_first(), b.drop_first())
    } else {
        false
    }
}

/// The textual comparison of a field with a record value under `op`
/// (`eq`, `ne`, `gt`, `lt`, `gte`, `lte`); false for any other operator.
pub open spec fn text_compare(field: Seq<char>, op: Seq<char>, value: Seq<char>) -> bool {
    if op == "eq"@ {
        field == value
    } else if op == "ne"@ {
        field != value
    } else if op == "gt"@ {
        str_less(value, field)
    } else if op == "lt"@ {
        str_less(field, value)
    } else if op == "gte"@ {
        !str_less(field, value)
    } else if op == "lte"@ {
        !str_less(value, field)
    } else {
        false
    }
}

/// Whether `a` sorts before `b`.
fn less_chars(a: &Vec<char>, b: &Vec<char>) -> (r: bool)
    ensures
        r == str_less(a@, b@),
{
    let mut i: usize = 0;
    assert(a@.subrange(0, a@.len() as int) =~= a@);
    assert(b@.subrange(0, b@.len() as int) =~= b@);
    while i < a.len() && i < b.len()
        invariant
            i <= a@.len(),
            i <= b@.len(),
            a@.subrange(0, i as int) == b@.subrange(0, i as int),
            str_less(a@, b@) == str_less(a@.subrange(i as int, a@.len() as int), b@.subrange(
                i as int,
                b@.len() as int,
            )),
        decreases a@.len() - i,
    {
        let x = a[i];
        let y = b[i];
        if (x as u32) < (y as u32) {
            return true;
        }
        if x != y {
            return false;
        }
        assert(a@.subrange(i as int, a@.len() as int).drop_first() =~= a@.subrange(
            i + 1,
            a@.len() as int,
        ));
        assert(b@.subrange(i as int, b@.len() as int).drop_first() =~= b@.subrange(
            i + 1,
            b@.len() as int,
        ));
        assert(a@.subrange(0, i + 1) =~= a@.subrange(0, i as int).push(x));
        assert(b@.subrange(0, i + 1) =~= b@.subrange(0, i as int).push(y));
        i = i + 1;
    }
    i == a.len() && i < b.len()
}

/// Compares a field with a record value as text under `op`.
pub fn compare_text(field: &str, op: &str, value: &str) -> (r: bool)
    ensures
        r == text_compare(field@, op@, value@),
{
    let f = chars_of(field);
    let v = chars_of(value);
    let o = chars_of(op);
    if is_text(&o, "eq") {
        eq_chars(&f, &v)
    } else if is_text(&o, "ne") {
        !eq_chars(&f, &v)
    } else if is_text(&o, "gt") {
        less_chars(&v, &f)
    } else if is_text(&o, "lt") {
        less_chars(&f, &v)
    } else if is_text(&o, "gte") {
        !less_chars(&f, &v)
    } else if is_text(&o, "lte") {
        !less_chars(&v, &f)
    } else {
        false
    }
}

} // verus!
