//! Longest-prefix match over routing records.

use vstd::prelude::*;
use crate::redis_state::types::{MatchType, RoutingRecord};
use crate::text::{chars_of, has_prefix, starts_with};

verus! {

/// Record `r` is an LPM record whose value is a prefix of `dest` (the
/// empty value is a prefix of every destination, of length 0).
pub open spec fn lpm_candidate(r: RoutingRecord, dest: Seq<char>) -> bool {
    r.match_type == MatchType::Lpm && has_prefix(dest, r.value@)
}

/// A record is an LPM candidate for a destination exactly when it is an
/// LPM record and the destination is its value followed by more digits
/// (possibly none).
pub proof fn law_lpm_candidate_is_prefix(r: RoutingRecord, dest: Seq<char>)
    ensures
        lpm_candidate(r, dest) <==> r.match_type == MatchType::Lpm && exists|rest: Seq<char>|
            dest == #[trigger] (r.value@ + rest),
{
    crate::text::law_prefix_means_concat(dest, r.value@);
}

/// Record `i` is the answer of a longest-prefix lookup: a candidate whose
/// prefix no candidate exceeds, and longer than every earlier candidate.
pub open spec fn lpm_best(records: Seq<RoutingRecord>, dest: Seq<char>, i: int) -> bool {
    &&& 0 <= i < records.len()
    &&& lpm_candidate(records[i], dest)
    &&& forall|j: int|
        0 <= j < records.len() && lpm_candidate(#[trigger] records[j], dest)
            ==> records[j].value@.len() <= records[i].value@.len()
    &&& forall|j: int|
        0 <= j < i && lpm_candidate(#[trigger] records[j], dest) ==> records[j].value@.len()
            < records[i].value@.len()
}

/// The LPM record whose value is the longest prefix of `destination`; on a
/// tie the earliest. `None` when no LPM record's value is a prefix.
pub fn lpm_lookup<'a>(records: &'a [RoutingRecord], destination: &str) -> (r: Option<
    &'a RoutingRecord,
>)
    ensures
        r is None <==> forall|j: int|
            0 <= j < records@.len() ==> !lpm_candidate(#[trigger] records@[j], destination@),
        r matches Some(rec) ==> exists|i: int|
            lpm_best(records@, destination@, i) && *rec == #[trigger] records@[i],
{
    let dest = chars_of(destination);
    let mut best: Option<&'a RoutingRecord> = None;
    let mut best_idx: usize = 0;
    let mut best_len: usize = 0;
    let mut i: usize = 0;
    while i < records.len()
        invariant
            i <= records@.len(),
            dest@ == destination@,
            best is None ==> best_len == 0,
            best is None ==> forall|j: int|
                0 <= j < i ==> !lpm_candidate(#[trigger] records@[j], destination@),
            best is Some ==> {
                &&& best_idx < i
                &&& *best.unwrap() == records@[best_idx as int]
                &&& lpm_candidate(records@[best_idx as int], destination@)
                &&& best_len == records@[best_idx as int].value@.len()
                &&& forall|j: int|
                    0 <= j < i && lpm_candidate(#[trigger] records@[j], destination@)
                        ==> records@[j].value@.len() <= best_len
                &&& forall|j: int|
                    0 <= j < best_idx && lpm_candidate(#[trigger] records@[j], destination@)
                        ==> records@[j].value@.len() < best_len
            },
        decreases records@.len() - i,
    {
        let record = &records[i];
        if record.match_type == MatchType::Lpm {
            let value = chars_of(record.value.as_str());
            if starts_with(&dest, &value) {
                let prefix_len = value.len();
                if best.is_none() || prefix_len > best_len {
                    best_len = prefix_len;
                    best = Some(record);
                    best_idx = i;
                }
            }
        }
        i = i + 1;
    }
    if best.is_some() {
        assert(lpm_best(records@, destination@, best_idx as int));
    }
    best
}

} // verus!
