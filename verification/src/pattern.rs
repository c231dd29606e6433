//! Regular expressions of routing and translation rules, compiled and run
//! by the `regex` crate.

use vstd::prelude::*;

verus! {

/// `regex::Regex`, carried opaquely.
#[verifier::external_type_specification]
#[verifier::external_body]
pub struct ExRegex(regex::Regex);

/// Whether `regex::Regex::new` accepts the pattern.
pub uninterp spec fn regex_compiles(pattern: Seq<char>) -> bool;

/// Whether the compiled pattern matches somewhere in the text
/// (`regex::Regex::is_match`).
pub uninterp spec fn regex_is_match(pattern: Seq<char>, text: Seq<char>) -> bool;

/// The text with the pattern's leftmost match replaced by the expanded
/// replacement (`regex::Regex::replace`).
pub uninterp spec fn regex_replaced(pattern: Seq<char>, text: Seq<char>, replacement: Seq<char>) -> Seq<
    char,
>;

/// A compiled pattern, with the text it was compiled from.
pub struct CompiledPattern {
    source: String,
    re: regex::Regex,
}

impl CompiledPattern {
    /// The text the pattern was compiled from.
    pub closed spec fn pattern(&self) -> Seq<char> {
        self.source@
    }
}

/// Compiles `pattern` with `regex::Regex::new`; `None` where the crate
/// rejects it. The contract claims that acceptance depends on the pattern
/// alone, and that the compiled value remembers its pattern.
#[verifier::external_body]
pub fn compile(pattern: &str) -> (r: Option<CompiledPattern>)
    ensures
        r is Some <==> regex_compiles(pattern@),
        r matches Some(c) ==> c.pattern() == pattern@,
{
    match regex::Regex::new(pattern) {
        Ok(re) => Some(CompiledPattern { source: pattern.to_string(), re }),
        Err(_) => None,
    }
}

/// `regex::Regex::is_match`: whether the pattern matches somewhere in
/// `text`. The contract claims that the answer depends on the pattern and
/// the text alone.
#[verifier::external_body]
pub fn is_match(c: &CompiledPattern, text: &str) -> (r: bool)
    ensures
        r == regex_is_match(c.pattern(), text@),
{
    c.re.is_match(text)
}

/// `regex::Regex::replace`, made an owned string: the text with the
/// leftmost match replaced by `replacement`, where `$name` and `${name}`
/// expand to capture groups. The contract claims that the result depends
/// on the pattern, the text and the replacement alone.
#[verifier::external_body]
pub fn replace_first(c: &CompiledPattern, text: &str, replacement: &str) -> (r: String)
    ensures
        r@ == regex_replaced(c.pattern(), text@, replacement@),
{
    c.re.replace(text, replacement).into_owned()
}

/// Whether `pattern` compiles and matches `text`; an invalid pattern
/// matches nothing.
pub open spec fn pattern_matches(pattern: Seq<char>, text: Seq<char>) -> bool {
    regex_compiles(pattern) && regex_is_match(pattern, text)
}

/// Compiles `pattern` and tests it against `text`; `false` when the pattern
/// does not compile.
pub fn matches_text(pattern: &str, text: &str) -> (r: bool)
    ensures
        r == pattern_matches(pattern@, text@),
{
    match compile(pattern) {
        Some(c) => is_match(&c, text),
        None => false,
    }
}

} // verus!
