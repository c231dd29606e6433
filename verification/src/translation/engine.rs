//! Applies a translation class: regex rewriting of the caller number, the
//! destination number and the caller name.
//!
//! Rules are taken in order, skipping those whose direction does not apply
//! to the call. For each field, the first rule whose pattern compiles and
//! matches rewrites it (its leftmost match replaced); later rules leave that
//! field alone.

use vstd::prelude::*;
use crate::pattern::{
    compile, is_match, pattern_matches, regex_compiles, regex_is_match, regex_replaced, replace_first,
};
use crate::proxy::failover::opt_view;
use crate::redis_state::types::{TranslationClassConfig, TranslationRule};
use crate::text::{chars_of, eq_chars, is_text};

verus! {

/// Input of a translation.
#[derive(Debug, Clone, PartialEq)]
pub struct TranslationInput {
    pub caller_number: String,
    pub destination_number: String,
    pub caller_name: Option<String>,
    /// `inbound` or `outbound`.
    pub direction: String,
}

/// Result of a translation.
#[derive(Debug, Clone, PartialEq)]
pub struct TranslationResult {
    pub caller_number: String,
    pub destination_number: String,
    pub caller_name: Option<String>,
    /// Whether any field changed.
    pub modified: bool,
}

/// Applies translation classes.
pub struct TranslationEngine;

/// A rule with direction `rule_dir` applies to a call in `call_dir`.
pub open spec fn direction_applies(rule_dir: Seq<char>, call_dir: Seq<char>) -> bool {
    rule_dir == "both"@ || rule_dir == call_dir
}

/// The destination pattern and replacement of a rule: its own when it has a
/// destination pattern, else the legacy ones when it has a legacy pattern.
pub open spec fn dest_rule(rule: TranslationRule) -> (Option<String>, Option<String>) {
    if rule.destination_pattern is Some {
        (rule.destination_pattern, rule.destination_replace)
    } else if rule.legacy_match is Some {
        (rule.legacy_match, rule.legacy_replace)
    } else {
        (None, None)
    }
}

/// One field under one rule: `Some(new value)` when the field is not done
/// yet, the rule has a pattern and a replacement, and the pattern compiles
/// and matches; `None` when the rule leaves it.
pub open spec fn rewrite(value: Seq<char>, done: bool, pattern: Option<String>, replacement: Option<
    String,
>) -> Option<Seq<char>> {
    if done {
        None
    } else {
        match (pattern, replacement) {
            (Some(p), Some(r)) => if pattern_matches(p@, value) {
                Some(regex_replaced(p@, value, r@))
            } else {
                None
            },
            _ => None,
        }
    }
}

/// The state of a translation: the three fields, whether each was
/// rewritten, and whether anything changed.
pub struct TranslationState {
    pub caller: Seq<char>,
    pub dest: Seq<char>,
    pub name: Option<Seq<char>>,
    pub caller_done: bool,
    pub dest_done: bool,
    pub name_done: bool,
    pub modified: bool,
}

/// The state after one rule.
pub open spec fn rule_step(st: TranslationState, rule: TranslationRule, call_dir: Seq<char>) -> TranslationState {
    if !direction_applies(rule.direction@, call_dir) {
        st
    } else {
        let c = rewrite(st.caller, st.caller_done, rule.caller_pattern, rule.caller_replace);
        let (dp, dr) = dest_rule(rule);
        let d = rewrite(st.dest, st.dest_done, dp, dr);
        let n = match st.name {
            Some(cn) => rewrite(cn, st.name_done, rule.caller_name_pattern, rule.caller_name_replace),
            None => None,
        };
        TranslationState {
            caller: match c {
                Some(v) => v,
                None => st.caller,
            },
            dest: match d {
                Some(v) => v,
                None => st.dest,
            },
            name: match n {
                Some(v) => Some(v),
                None => st.name,
            },
            caller_done: st.caller_done || c is Some,
            dest_done: st.dest_done || d is Some,
            name_done: st.name_done || n is Some,
            modified: st.modified || (c matches Some(v) && v != st.caller) || (d matches Some(v) && v
                != st.dest) || (n matches Some(v) && Some(v) != st.name),
        }
    }
}

/// The state after the first `n` rules, for a call in direction `dir`
/// with these caller, destination and caller name.
pub open spec fn translate(
    rules: Seq<TranslationRule>,
    caller: Seq<char>,
    dest: Seq<char>,
    name: Option<Seq<char>>,
    dir: Seq<char>,
    n: int,
) -> TranslationState
    decreases n,
{
    if n <= 0 {
        TranslationState {
            caller,
            dest,
            name,
            caller_done: false,
            dest_done: false,
            name_done: false,
            modified: false,
        }
    } else {
        rule_step(translate(rules, caller, dest, name, dir, n - 1), rules[n - 1], dir)
    }
}

/// The state after all rules of `rules` for `input`.
pub open spec fn translation_of(rules: Seq<TranslationRule>, input: TranslationInput) -> TranslationState {
    translate(
        rules,
        input.caller_number@,
        input.destination_number@,
        opt_view(input.caller_name),
        input.direction@,
        rules.len() as int,
    )
}

/// Rewrites one field under one rule.
fn rewrite_field(value: &String, done: bool, pattern: &Option<String>, replacement: &Option<String>) -> (r: Option<String>)
    ensures
        opt_view(r) == rewrite(value@, done, *pattern, *replacement),
{
    if done {
        return None;
    }
    match (pattern, replacement) {
        (Some(p), Some(rep)) => match compile(p.as_str()) {
            Some(re) => {
                if is_match(&re, value.as_str()) {
                    Some(replace_first(&re, value.as_str(), rep.as_str()))
                } else {
                    None
                }
            },
            None => None,
        },
        _ => None,
    }
}

/// Whether two strings differ.
fn differs(a: &String, b: &String) -> (r: bool)
    ensures
        r == (a@ != b@),
{
    !eq_chars(&chars_of(a.as_str()), &chars_of(b.as_str()))
}

impl TranslationEngine {
    /// Whether a rule with direction `rule_direction` applies to a call in
    /// `call_direction`: `both`, or the same direction.
    pub fn direction_matches(rule_direction: &str, call_direction: &str) -> (r: bool)
        ensures
            r == direction_applies(rule_direction@, call_direction@),
    {
        let rd = chars_of(rule_direction);
        is_text(&rd, "both") || eq_chars(&rd, &chars_of(call_direction))
    }

    /// The destination pattern and replacement of a rule.
    pub fn effective_dest_pattern(rule: &TranslationRule) -> (r: (Option<&String>, Option<&String>))
        ensures
            match dest_rule(*rule) {
                (p, q) => r.0 == match p {
                    Some(s) => Some(&s),
                    None => None::<&String>,
                } && r.1 == match q {
                    Some(s) => Some(&s),
                    None => None::<&String>,
                },
            },
    {
        if rule.destination_pattern.is_some() {
            (rule.destination_pattern.as_ref(), rule.destination_replace.as_ref())
        } else if rule.legacy_match.is_some() {
            (rule.legacy_match.as_ref(), rule.legacy_replace.as_ref())
        } else {
            (None, None)
        }
    }

    /// Applies a translation class to the input.
    pub fn apply(config: &TranslationClassConfig, input: &TranslationInput) -> (r: TranslationResult)
        ensures
            ({
                let st = translation_of(config.rules@, *input);
                &&& r.caller_number@ == st.caller
                &&& r.destination_number@ == st.dest
                &&& opt_view(r.caller_name) == st.name
                &&& r.modified == st.modified
            }),
    {
        let mut caller = input.caller_number.clone();
        let mut dest = input.destination_number.clone();
        let mut name: Option<String> = match &input.caller_name {
            Some(n) => Some(n.clone()),
            None => None,
        };
        let mut modified = false;
        let mut caller_done = false;
        let mut dest_done = false;
        let mut name_done = false;
        let mut i: usize = 0;
        while i < config.rules.len()
            invariant
                i <= config.rules@.len(),
                ({
                    let st = translate(
                        config.rules@,
                        input.caller_number@,
                        input.destination_number@,
                        opt_view(input.caller_name),
                        input.direction@,
                        i as int,
                    );
                    &&& caller@ == st.caller
                    &&& dest@ == st.dest
                    &&& opt_view(name) == st.name
                    &&& caller_done == st.caller_done
                    &&& dest_done == st.dest_done
                    &&& name_done == st.name_done
                    &&& modified == st.modified
                }),
            decreases config.rules@.len() - i,
        {
            let rule = &config.rules[i];
            if Self::direction_matches(rule.direction.as_str(), input.direction.as_str()) {
                let c = rewrite_field(&caller, caller_done, &rule.caller_pattern, &rule.caller_replace);
                let d = if rule.destination_pattern.is_some() {
                    rewrite_field(&dest, dest_done, &rule.destination_pattern, &rule.destination_replace)
                } else if rule.legacy_match.is_some() {
                    rewrite_field(&dest, dest_done, &rule.legacy_match, &rule.legacy_replace)
                } else {
                    rewrite_field(&dest, dest_done, &None, &None)
                };
                let n = match &name {
                    Some(cn) => rewrite_field(cn, name_done, &rule.caller_name_pattern, &rule.caller_name_replace),
                    None => None,
                };
                match c {
                    Some(v) => {
                        if differs(&v, &caller) {
                            modified = true;
                        }
                        caller = v;
                        caller_done = true;
                    },
                    None => {},
                }
                match d {
                    Some(v) => {
                        if differs(&v, &dest) {
                            modified = true;
                        }
                        dest = v;
                        dest_done = true;
                    },
                    None => {},
                }
                match n {
                    Some(v) => {
                        let changed = match &name {
                            Some(cn) => differs(&v, cn),
                            None => true,
                        };
                        if changed {
                            modified = true;
                        }
                        name = Some(v);
                        name_done = true;
                    },
                    None => {},
                }
            }
            i = i + 1;
        }
        TranslationResult { caller_number: caller, destination_number: dest, caller_name: name, modified }
    }
}

/// After any number of rules: a field no rule has rewritten still has its
/// input value, and `modified` holds exactly when some field differs from
/// its input.
pub proof fn law_untouched_fields_and_modified(
    rules: Seq<TranslationRule>,
    caller: Seq<char>,
    dest: Seq<char>,
    name: Option<Seq<char>>,
    dir: Seq<char>,
    n: int,
)
    requires
        0 <= n <= rules.len(),
    ensures
        ({
            let st = translate(rules, caller, dest, name, dir, n);
            &&& !st.caller_done ==> st.caller == caller
            &&& !st.dest_done ==> st.dest == dest
            &&& !st.name_done ==> st.name == name
            &&& st.modified <==> (st.caller != caller || st.dest != dest || st.name != name)
        }),
    decreases n,
{
    if n > 0 {
        law_untouched_fields_and_modified(rules, caller, dest, name, dir, n - 1);
    }
}

/// For each field the first rule that rewrites it wins: once a field is
/// rewritten, later rules leave it as it is.
pub proof fn law_first_match_wins(
    rules: Seq<TranslationRule>,
    caller: Seq<char>,
    dest: Seq<char>,
    name: Option<Seq<char>>,
    dir: Seq<char>,
    n: int,
    m: int,
)
    requires
        0 <= n <= m <= rules.len(),
    ensures
        ({
            let a = translate(rules, caller, dest, name, dir, n);
            let b = translate(rules, caller, dest, name, dir, m);
            &&& a.caller_done ==> b.caller_done && b.caller == a.caller
            &&& a.dest_done ==> b.dest_done && b.dest == a.dest
            &&& a.name_done ==> b.name_done && b.name == a.name
        }),
    decreases m - n,
{
    if m > n {
        law_first_match_wins(rules, caller, dest, name, dir, n, m - 1);
    }
}

/// Whether a rule of direction `rule_dir`, with `pattern` and `replacement`
/// for a field, rewrites that field's value `value` in a call of direction
/// `dir`: the rule is for both directions or for `dir`, it has both a
/// pattern and a replacement, and the pattern compiles and matches `value`.
pub open spec fn rule_rewrites(
    rule_dir: Seq<char>,
    dir: Seq<char>,
    pattern: Option<String>,
    replacement: Option<String>,
    value: Seq<char>,
) -> bool {
    &&& (rule_dir == "both"@ || rule_dir == dir)
    &&& match (pattern, replacement) {
        (Some(p), Some(_)) => regex_compiles(p@) && regex_is_match(p@, value),
        _ => false,
    }
}

/// `value` with the leftmost match of `pattern` replaced by `replacement`.
pub open spec fn rewritten(pattern: Option<String>, replacement: Option<String>, value: Seq<char>) -> Seq<char> {
    match (pattern, replacement) {
        (Some(p), Some(r)) => regex_replaced(p@, value, r@),
        _ => value,
    }
}

/// The destination pattern a rule uses: its destination pattern, or its
/// legacy pattern when it has none.
pub open spec fn destination_pattern_used(rule: TranslationRule) -> Option<String> {
    if rule.destination_pattern is Some { rule.destination_pattern } else { rule.legacy_match }
}

/// The destination replacement a rule uses, paired with
/// [`destination_pattern_used`].
pub open spec fn destination_replace_used(rule: TranslationRule) -> Option<String> {
    if rule.destination_pattern is Some { rule.destination_replace } else { rule.legacy_replace }
}

/// Whether rule `rule` rewrites the caller number `value` in direction `dir`.
pub open spec fn caller_rewrites(rule: TranslationRule, dir: Seq<char>, value: Seq<char>) -> bool {
    rule_rewrites(rule.direction@, dir, rule.caller_pattern, rule.caller_replace, value)
}

/// Whether rule `rule` rewrites the destination number `value`.
pub open spec fn dest_rewrites(rule: TranslationRule, dir: Seq<char>, value: Seq<char>) -> bool {
    rule_rewrites(
        rule.direction@,
        dir,
        destination_pattern_used(rule),
        destination_replace_used(rule),
        value,
    )
}

/// Whether rule `rule` rewrites the caller name `value`.
pub open spec fn name_rewrites(rule: TranslationRule, dir: Seq<char>, value: Seq<char>) -> bool {
    rule_rewrites(rule.direction@, dir, rule.caller_name_pattern, rule.caller_name_replace, value)
}

proof fn lemma_caller_untouched(
    rules: Seq<TranslationRule>,
    c: Seq<char>,
    d: Seq<char>,
    nm: Option<Seq<char>>,
    dir: Seq<char>,
    n: int,
)
    requires
        0 <= n <= rules.len(),
        forall|j: int| 0 <= j < n ==> !caller_rewrites(#[trigger] rules[j], dir, c),
    ensures
        translate(rules, c, d, nm, dir, n).caller == c,
        !translate(rules, c, d, nm, dir, n).caller_done,
    decreases n,
{
    if n > 0 {
        lemma_caller_untouched(rules, c, d, nm, dir, n - 1);
        assert(!caller_rewrites(rules[n - 1], dir, c));
    }
}

proof fn lemma_caller_rewritten(
    rules: Seq<TranslationRule>,
    c: Seq<char>,
    d: Seq<char>,
    nm: Option<Seq<char>>,
    dir: Seq<char>,
    k: int,
    n: int,
)
    requires
        0 <= k < n <= rules.len(),
        caller_rewrites(rules[k], dir, c),
        forall|j: int| 0 <= j < k ==> !caller_rewrites(#[trigger] rules[j], dir, c),
    ensures
        translate(rules, c, d, nm, dir, n).caller == rewritten(rules[k].caller_pattern, rules[k].caller_replace, c),
        translate(rules, c, d, nm, dir, n).caller_done,
    decreases n,
{
    if n == k + 1 {
        lemma_caller_untouched(rules, c, d, nm, dir, k);
    } else {
        lemma_caller_rewritten(rules, c, d, nm, dir, k, n - 1);
    }
}

proof fn lemma_dest_untouched(
    rules: Seq<TranslationRule>,
    c: Seq<char>,
    d: Seq<char>,
    nm: Option<Seq<char>>,
    dir: Seq<char>,
    n: int,
)
    requires
        0 <= n <= rules.len(),
        forall|j: int| 0 <= j < n ==> !dest_rewrites(#[trigger] rules[j], dir, d),
    ensures
        translate(rules, c, d, nm, dir, n).dest == d,
        !translate(rules, c, d, nm, dir, n).dest_done,
    decreases n,
{
    if n > 0 {
        lemma_dest_untouched(rules, c, d, nm, dir, n - 1);
        assert(!dest_rewrites(rules[n - 1], dir, d));
    }
}

proof fn lemma_dest_rewritten(
    rules: Seq<TranslationRule>,
    c: Seq<char>,
    d: Seq<char>,
    nm: Option<Seq<char>>,
    dir: Seq<char>,
    k: int,
    n: int,
)
    requires
        0 <= k < n <= rules.len(),
        dest_rewrites(rules[k], dir, d),
        forall|j: int| 0 <= j < k ==> !dest_rewrites(#[trigger] rules[j], dir, d),
    ensures
        translate(rules, c, d, nm, dir, n).dest == rewritten(
            destination_pattern_used(rules[k]),
            destination_replace_used(rules[k]),
            d,
        ),
        translate(rules, c, d, nm, dir, n).dest_done,
    decreases n,
{
    if n == k + 1 {
        lemma_dest_untouched(rules, c, d, nm, dir, k);
    } else {
        lemma_dest_rewritten(rules, c, d, nm, dir, k, n - 1);
    }
}

proof fn lemma_name_untouched(
    rules: Seq<TranslationRule>,
    c: Seq<char>,
    d: Seq<char>,
    cn: Seq<char>,
    dir: Seq<char>,
    n: int,
)
    requires
        0 <= n <= rules.len(),
        forall|j: int| 0 <= j < n ==> !name_rewrites(#[trigger] rules[j], dir, cn),
    ensures
        translate(rules, c, d, Some(cn), dir, n).name == Some(cn),
        !translate(rules, c, d, Some(cn), dir, n).name_done,
    decreases n,
{
    if n > 0 {
        lemma_name_untouched(rules, c, d, cn, dir, n - 1);
        assert(!name_rewrites(rules[n - 1], dir, cn));
    }
}

proof fn lemma_name_rewritten(
    rules: Seq<TranslationRule>,
    c: Seq<char>,
    d: Seq<char>,
    cn: Seq<char>,
    dir: Seq<char>,
    k: int,
    n: int,
)
    requires
        0 <= k < n <= rules.len(),
        name_rewrites(rules[k], dir, cn),
        forall|j: int| 0 <= j < k ==> !name_rewrites(#[trigger] rules[j], dir, cn),
    ensures
        translate(rules, c, d, Some(cn), dir, n).name == Some(
            rewritten(rules[k].caller_name_pattern, rules[k].caller_name_replace, cn),
        ),
        translate(rules, c, d, Some(cn), dir, n).name_done,
    decreases n,
{
    if n == k + 1 {
        lemma_name_untouched(rules, c, d, cn, dir, k);
    } else {
        lemma_name_rewritten(rules, c, d, cn, dir, k, n - 1);
    }
}

proof fn lemma_no_name_stays(
    rules: Seq<TranslationRule>,
    c: Seq<char>,
    d: Seq<char>,
    dir: Seq<char>,
    n: int,
)
    requires
        0 <= n <= rules.len(),
    ensures
        translate(rules, c, d, None, dir, n).name is None,
    decreases n,
{
    if n > 0 {
        lemma_no_name_stays(rules, c, d, dir, n - 1);
    }
}

/// Each field is translated on its own: the caller number, the destination
/// number and the caller name each take the replacement of the first rule
/// that applies to the call's direction and whose pattern for that field
/// compiles and matches the field's input value, and keep their input value
/// when no rule does. What a rule does to one field has no bearing on the
/// others; a call without a caller name keeps none.
pub proof fn law_each_field_first_matching_rule(rules: Seq<TranslationRule>, input: TranslationInput)
    ensures
        ({
            let st = translation_of(rules, input);
            let c = input.caller_number@;
            let d = input.destination_number@;
            let dir = input.direction@;
            &&& (forall|j: int| 0 <= j < rules.len() ==> !caller_rewrites(#[trigger] rules[j], dir, c))
                ==> st.caller == c
            &&& forall|k: int|
                #![trigger rules[k].caller_pattern]
                0 <= k < rules.len() && caller_rewrites(rules[k], dir, c) && (forall|j: int|
                    0 <= j < k ==> !caller_rewrites(#[trigger] rules[j], dir, c)) ==> st.caller
                    == rewritten(rules[k].caller_pattern, rules[k].caller_replace, c)
            &&& (forall|j: int| 0 <= j < rules.len() ==> !dest_rewrites(#[trigger] rules[j], dir, d))
                ==> st.dest == d
            &&& forall|k: int|
                #![trigger destination_pattern_used(rules[k])]
                0 <= k < rules.len() && dest_rewrites(rules[k], dir, d) && (forall|j: int|
                    0 <= j < k ==> !dest_rewrites(#[trigger] rules[j], dir, d)) ==> st.dest
                    == rewritten(destination_pattern_used(rules[k]), destination_replace_used(rules[k]), d)
            &&& input.caller_name is None ==> st.name is None
            &&& input.caller_name matches Some(n) ==> ((forall|j: int|
                0 <= j < rules.len() ==> !name_rewrites(#[trigger] rules[j], dir, n@)) ==> st.name
                == Some(n@))
            &&& input.caller_name matches Some(n) ==> forall|k: int|
                #![trigger rules[k].caller_name_pattern]
                0 <= k < rules.len() && name_rewrites(rules[k], dir, n@) && (forall|j: int|
                    0 <= j < k ==> !name_rewrites(#[trigger] rules[j], dir, n@)) ==> st.name
                    == Some(rewritten(rules[k].caller_name_pattern, rules[k].caller_name_replace, n@))
        }),
{
    let c = input.caller_number@;
    let d = input.destination_number@;
    let nm = opt_view(input.caller_name);
    let dir = input.direction@;
    let len = rules.len() as int;
    if forall|j: int| 0 <= j < len ==> !caller_rewrites(#[trigger] rules[j], dir, c) {
        lemma_caller_untouched(rules, c, d, nm, dir, len);
    }
    assert forall|k: int|
        0 <= k < len && caller_rewrites(rules[k], dir, c) && (forall|j: int|
            0 <= j < k ==> !caller_rewrites(#[trigger] rules[j], dir, c)) implies translate(
        rules,
        c,
        d,
        nm,
        dir,
        len,
    ).caller == rewritten(rules[k].caller_pattern, rules[k].caller_replace, c) by {
        lemma_caller_rewritten(rules, c, d, nm, dir, k, len);
    }
    if forall|j: int| 0 <= j < len ==> !dest_rewrites(#[trigger] rules[j], dir, d) {
        lemma_dest_untouched(rules, c, d, nm, dir, len);
    }
    assert forall|k: int|
        0 <= k < len && dest_rewrites(rules[k], dir, d) && (forall|j: int|
            0 <= j < k ==> !dest_rewrites(#[trigger] rules[j], dir, d)) implies translate(
        rules,
        c,
        d,
        nm,
        dir,
        len,
    ).dest == rewritten(destination_pattern_used(rules[k]), destination_replace_used(rules[k]), d) by {
        lemma_dest_rewritten(rules, c, d, nm, dir, k, len);
    }
    match input.caller_name {
        None => {
            lemma_no_name_stays(rules, c, d, dir, len);
        },
        Some(n) => {
            let cn = n@;
            assert(nm == Some(cn));
            if forall|j: int| 0 <= j < len ==> !name_rewrites(#[trigger] rules[j], dir, cn) {
                lemma_name_untouched(rules, c, d, cn, dir, len);
            }
            assert forall|k: int|
                0 <= k < len && name_rewrites(rules[k], dir, cn) && (forall|j: int|
                    0 <= j < k ==> !name_rewrites(#[trigger] rules[j], dir, cn)) implies translate(
                rules,
                c,
                d,
                nm,
                dir,
                len,
            ).name == Some(rewritten(rules[k].caller_name_pattern, rules[k].caller_name_replace, cn)) by {
                lemma_name_rewritten(rules, c, d, cn, dir, k, len);
            }
        },
    }
}

} // verus!
