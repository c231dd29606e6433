//! Routing decisions: which field a record matches, how string values
//! compare, and which weighted target is chosen.

use vstd::prelude::*;
use crate::random::Xorshift32;
use crate::redis_state::types::RoutingTarget;
use crate::redis_state::types::RoutingRecord;
use crate::text::{chars_of, is_text};
use crate::weighted::{owns_ticket, pick_weighted, weight_total};

verus! {

/// The largest number of routing-table jumps a resolution may follow.
pub const MAX_JUMP_DEPTH: u32 = 10;

/// The call being routed.
#[derive(Debug, Clone, PartialEq)]
pub struct RouteContext {
    /// The dialled number.
    pub destination_number: String,
    /// The caller's number.
    pub caller_number: String,
    /// The caller's display name, if any.
    pub caller_name: Option<String>,
}

/// A successful routing decision.
#[derive(Debug, Clone, PartialEq)]
pub struct RouteResult {
    /// The selected trunk.
    pub trunk: String,
    /// The record that matched.
    pub matched_record: Option<RoutingRecord>,
    /// The table the match was found in.
    pub table_name: String,
}

/// The value of the context field named `field`: the caller number for
/// `caller_number` or `caller`, the caller name (empty when absent) for
/// `caller_name`, and the destination number for anything else.
pub open spec fn field_value(ctx: RouteContext, field: Seq<char>) -> Seq<char> {
    if field == "caller_number"@ || field == "caller"@ {
        ctx.caller_number@
    } else if field == "caller_name"@ {
        match ctx.caller_name {
            Some(n) => n@,
            None => Seq::empty(),
        }
    } else {
        ctx.destination_number@
    }
}

/// The context value a record's `match_field` selects.
pub fn resolve_field<'a>(context: &'a RouteContext, field: &str) -> (r: &'a str)
    ensures
        r@ == field_value(*context, field@),
{
    let f = chars_of(field);
    if is_text(&f, "caller_number") || is_text(&f, "caller") {
        context.caller_number.as_str()
    } else if is_text(&f, "caller_name") {
        match &context.caller_name {
            Some(n) => n.as_str(),
            None => {
                proof {
                    reveal_strlit("");
                }
                ""
            },
        }
    } else {
        context.destination_number.as_str()
    }
}

/// Which context value a record's `match_field` selects: `caller_number`
/// and `caller` select the caller number, `caller_name` the caller name
/// (empty when the call has none), and every other name the destination
/// number.
pub proof fn law_match_field_selection(ctx: RouteContext, field: Seq<char>)
    ensures
        field_value(ctx, "caller_number"@) == ctx.caller_number@,
        field_value(ctx, "caller"@) == ctx.caller_number@,
        ctx.caller_name matches Some(n) ==> field_value(ctx, "caller_name"@) == n@,
        ctx.caller_name is None ==> field_value(ctx, "caller_name"@) == Seq::<char>::empty(),
        field_value(ctx, "destination_number"@) == ctx.destination_number@,
        field != "caller_number"@ && field != "caller"@ && field != "caller_name"@ ==> field_value(
            ctx,
            field,
        ) == ctx.destination_number@,
{
    reveal_strlit("caller_number");
    reveal_strlit("caller");
    reveal_strlit("caller_name");
    reveal_strlit("destination_number");
    assert("caller_name"@ != "caller_number"@) by {
        assert("caller_name"@[8] != "caller_number"@[8]);
    }
    assert("caller_name"@ != "caller"@) by {
        assert("caller_name"@.len() != "caller"@.len());
    }
    assert("destination_number"@ != "caller_number"@) by {
        assert("destination_number"@[0] != "caller_number"@[0]);
    }
    assert("destination_number"@ != "caller"@) by {
        assert("destination_number"@[0] != "caller"@[0]);
    }
    assert("destination_number"@ != "caller_name"@) by {
        assert("destination_number"@[0] != "caller_name"@[0]);
    }
}

/// The weight of a target: its load percentage, 1 when unset.
pub open spec fn target_weight(t: RoutingTarget) -> u64 {
    match t.load_percent {
        Some(p) => p as u64,
        None => 1,
    }
}

/// The weights of a list of targets.
pub open spec fn target_weights(ts: Seq<RoutingTarget>) -> Seq<u64> {
    ts.map_values(|t: RoutingTarget| target_weight(t))
}

/// A target weighs its load percentage, and 1 when it has none: the weight
/// list has one entry per target, in order.
pub proof fn law_target_weights_default_to_one(ts: Seq<RoutingTarget>)
    ensures
        target_weights(ts).len() == ts.len(),
        forall|i: int| 0 <= i < ts.len() && #[trigger] ts[i].load_percent is None ==> target_weights(ts)[i]
            == 1,
        forall|i: int|
            0 <= i < ts.len() ==> (#[trigger] ts[i].load_percent matches Some(p) ==> target_weights(ts)[i]
                == p as u64),
{
}

/// The weights of `targets`.
fn weights_of(targets: &[RoutingTarget]) -> (r: Vec<u64>)
    ensures
        r@ == target_weights(targets@),
{
    let mut r: Vec<u64> = Vec::new();
    let mut i: usize = 0;
    while i < targets.len()
        invariant
            i <= targets@.len(),
            r@ == target_weights(targets@.subrange(0, i as int)),
        decreases targets@.len() - i,
    {
        let w: u64 = match targets[i].load_percent {
            Some(p) => p as u64,
            None => 1,
        };
        r.push(w);
        assert(target_weights(targets@.subrange(0, i + 1)) =~= target_weights(
            targets@.subrange(0, i as int),
        ).push(w));
        i = i + 1;
    }
    assert(targets@.subrange(0, i as int) =~= targets@);
    r
}

/// No target has a load percentage.
pub open spec fn unweighted(targets: Seq<RoutingTarget>) -> bool {
    forall|i: int| 0 <= i < targets.len() ==> (#[trigger] targets[i]).load_percent is None
}

/// The choice among `targets` is a weighted draw: several targets, some
/// with a load percentage, and a positive total weight (an unset
/// percentage weighing 1).
pub open spec fn weighted_draw(targets: Seq<RoutingTarget>) -> bool {
    targets.len() > 1 && !unweighted(targets) && weight_total(target_weights(targets)) > 0
}

/// Whether no target of `targets` has a load percentage.
fn all_unweighted(targets: &[RoutingTarget]) -> (r: bool)
    ensures
        r == unweighted(targets@),
{
    let mut i: usize = 0;
    while i < targets.len()
        invariant
            i <= targets@.len(),
            forall|j: int| 0 <= j < i ==> (#[trigger] targets@[j]).load_percent is None,
        decreases targets@.len() - i,
    {
        if targets[i].load_percent.is_some() {
            return false;
        }
        i = i + 1;
    }
    true
}

/// `t` is the trunk chosen for random ticket `pick`: the first target when
/// there is one target, when no target has a load percentage, or when all
/// weights are zero; otherwise the target owning ticket `pick % total` of
/// the cumulative weights (an unset percentage weighing 1).
pub open spec fn chosen_target(targets: Seq<RoutingTarget>, pick: u64, t: Seq<char>) -> bool {
    &&& targets.len() == 1 ==> t == targets[0].trunk@
    &&& targets.len() > 1 && unweighted(targets) ==> t == targets[0].trunk@
    &&& targets.len() > 1 && weight_total(target_weights(targets)) == 0 ==> t == targets[0].trunk@
    &&& weighted_draw(targets) ==> exists|i: int|
        owns_ticket(target_weights(targets), (pick as nat) % weight_total(target_weights(targets)), i)
            && t == (#[trigger] targets[i]).trunk@
}

/// The trunk chosen for random ticket `pick`; none for no targets.
pub fn select_target_with(targets: &[RoutingTarget], pick: u64) -> (r: Option<&str>)
    requires
        weight_total(target_weights(targets@)) <= u32::MAX,
    ensures
        r is None <==> targets@.len() == 0,
        r matches Some(t) ==> chosen_target(targets@, pick, t@),
{
    if targets.len() == 0 {
        return None;
    }
    if targets.len() == 1 || all_unweighted(targets) {
        return Some(targets[0].trunk.as_str());
    }
    let w = weights_of(targets);
    let total = crate::weighted::total_weight(&w);
    if total == 0 {
        return Some(targets[0].trunk.as_str());
    }
    let idx = pick_weighted(&w, pick % total);
    Some(targets[idx].trunk.as_str())
}

/// Chooses a trunk among weighted targets; see [`select_target_with`]. The
/// generator is drawn from only for a weighted draw (several targets, some
/// with a load percentage, positive total), and its next number is then
/// the ticket.
pub fn select_target<'a>(targets: &'a [RoutingTarget], rng: &mut Xorshift32) -> (r: Option<&'a str>)
    requires
        weight_total(target_weights(targets@)) <= u32::MAX,
    ensures
        r is None <==> targets@.len() == 0,
        !weighted_draw(targets@) ==> *final(rng) == *old(rng) && (r matches Some(t) ==> chosen_target(
            targets@,
            0,
            t@,
        )),
        weighted_draw(targets@) ==> final(rng).state != 0
            && (old(rng).state != 0 ==> final(rng).state == crate::random::xorshift32_step(
            old(rng).state)) && (r matches Some(t) ==> chosen_target(
            targets@,
            final(rng).state as u64,
            t@,
        )),
{
    if targets.len() <= 1 || all_unweighted(targets) {
        return select_target_with(targets, 0);
    }
    let w = weights_of(targets);
    let total = crate::weighted::total_weight(&w);
    if total == 0 {
        return select_target_with(targets, 0);
    }
    let pick = rng.next();
    select_target_with(targets, pick as u64)
}

} // verus!
