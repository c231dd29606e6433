//! Runtime records kept per gateway.

use vstd::prelude::*;
use crate::text::{chars_of, string_from_chars};

verus! {

/// Health of a gateway.
#[derive(Debug, Clone, Copy, PartialEq, Eq, Structural)]
pub enum GatewayHealthStatus {
    Active,
    Disabled,
    Unknown,
}

/// The stored text of a health status.
pub open spec fn health_text(s: GatewayHealthStatus) -> Seq<char> {
    match s {
        GatewayHealthStatus::Active => seq!['a', 'c', 't', 'i', 'v', 'e'],
        GatewayHealthStatus::Disabled => seq!['d', 'i', 's', 'a', 'b', 'l', 'e', 'd'],
        GatewayHealthStatus::Unknown => seq!['u', 'n', 'k', 'n', 'o', 'w', 'n'],
    }
}

/// The status a stored text stands for: `active` and `disabled` exactly,
/// anything else `Unknown`.
pub open spec fn parse_health(t: Seq<char>) -> GatewayHealthStatus {
    if t == health_text(GatewayHealthStatus::Active) {
        GatewayHealthStatus::Active
    } else if t == health_text(GatewayHealthStatus::Disabled) {
        GatewayHealthStatus::Disabled
    } else {
        GatewayHealthStatus::Unknown
    }
}

/// Storing a status and reading it back gives the same status.
pub proof fn law_health_round_trip(s: GatewayHealthStatus)
    ensures
        parse_health(health_text(s)) == s,
{
    assert(health_text(GatewayHealthStatus::Active) != health_text(GatewayHealthStatus::Disabled));
    assert(health_text(GatewayHealthStatus::Unknown) != health_text(GatewayHealthStatus::Disabled)) by {
        assert(health_text(GatewayHealthStatus::Unknown).len() != health_text(GatewayHealthStatus::Disabled).len());
    }
    assert(health_text(GatewayHealthStatus::Unknown) != health_text(GatewayHealthStatus::Active)) by {
        assert(health_text(GatewayHealthStatus::Unknown).len() != health_text(GatewayHealthStatus::Active).len());
    }
}

impl GatewayHealthStatus {
    /// The stored text: `active`, `disabled` or `unknown`.
    pub fn to_string(&self) -> (r: String)
        ensures
            r@ == health_text(*self),
    {
        let v: Vec<char> = match self {
            GatewayHealthStatus::Active => vec!['a', 'c', 't', 'i', 'v', 'e'],
            GatewayHealthStatus::Disabled => vec!['d', 'i', 's', 'a', 'b', 'l', 'e', 'd'],
            GatewayHealthStatus::Unknown => vec!['u', 'n', 'k', 'n', 'o', 'w', 'n'],
        };
        assert(v@ =~= health_text(*self));
        string_from_chars(&v)
    }

    /// Parses a stored status: `active` and `disabled` exactly, anything
    /// else is `Unknown`. Never fails.
    pub fn from_str(s: &str) -> (r: Result<GatewayHealthStatus, ()>)
        ensures
            r == Ok::<GatewayHealthStatus, ()>(parse_health(s@)),
    {
        let c = chars_of(s);
        let active: Vec<char> = vec!['a', 'c', 't', 'i', 'v', 'e'];
        let disabled: Vec<char> = vec!['d', 'i', 's', 'a', 'b', 'l', 'e', 'd'];
        assert(active@ =~= health_text(GatewayHealthStatus::Active));
        assert(disabled@ =~= health_text(GatewayHealthStatus::Disabled));
        if crate::text::eq_chars(&c, &active) {
            Ok(GatewayHealthStatus::Active)
        } else if crate::text::eq_chars(&c, &disabled) {
            Ok(GatewayHealthStatus::Disabled)
        } else {
            Ok(GatewayHealthStatus::Unknown)
        }
    }
}

} // verus!
