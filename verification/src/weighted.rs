//! Proportional choice among weighted alternatives.

use vstd::prelude::*;

verus! {

/// The sum of the first `n` weights.
pub open spec fn weight_prefix(w: Seq<u64>, n: int) -> nat
    decreases n,
{
    if n <= 0 || n > w.len() {
        0
    } else {
        weight_prefix(w, n - 1) + (w[n - 1] as nat)
    }
}

/// The sum of all weights.
pub open spec fn weight_total(w: Seq<u64>) -> nat {
    weight_prefix(w, w.len() as int)
}

/// Index `i` owns the ticket `pick`: the tickets `[prefix(i), prefix(i+1))`
/// belong to alternative `i`.
pub open spec fn owns_ticket(w: Seq<u64>, pick: nat, i: int) -> bool {
    0 <= i < w.len() && weight_prefix(w, i) <= pick < weight_prefix(w, i + 1)
}

/// Prefix sums never decrease.
pub proof fn lemma_prefix_monotonic(w: Seq<u64>, i: int, j: int)
    requires
        0 <= i <= j <= w.len(),
    ensures
        weight_prefix(w, i) <= weight_prefix(w, j),
    decreases j - i,
{
    if i < j {
        lemma_prefix_monotonic(w, i, j - 1);
    }
}

/// The alternative that owns ticket `pick`, for `pick` below the total
/// weight: the first index whose cumulative weight exceeds `pick`.
pub fn pick_weighted(w: &Vec<u64>, pick: u64) -> (r: usize)
    requires
        pick < weight_total(w@),
    ensures
        owns_ticket(w@, pick as nat, r as int),
{
    let mut i: usize = 0;
    let mut rest: u64 = pick;
    while i < w.len()
        invariant
            i <= w@.len(),
            pick < weight_total(w@),
            weight_prefix(w@, i as int) + rest == pick,
        decreases w@.len() - i,
    {
        if rest < w[i] {
            return i;
        }
        rest = rest - w[i];
        i = i + 1;
    }
    proof {
        assert(weight_prefix(w@, i as int) <= pick);
    }
    0
}

/// The sum of `w`.
pub fn total_weight(w: &Vec<u64>) -> (r: u64)
    requires
        weight_total(w@) <= u64::MAX,
    ensures
        r == weight_total(w@),
{
    let mut t: u64 = 0;
    let mut i: usize = 0;
    while i < w.len()
        invariant
            i <= w@.len(),
            t == weight_prefix(w@, i as int),
            weight_total(w@) <= u64::MAX,
        decreases w@.len() - i,
    {
        proof {
            lemma_prefix_monotonic(w@, i + 1, w@.len() as int);
        }
        t = t + w[i];
        i = i + 1;
    }
    t
}

} // verus!
