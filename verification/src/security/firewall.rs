//! IP firewall with IPv4 and IPv6 CIDR matching; the whitelist takes
//! priority over the blacklist.

use vstd::prelude::*;
use crate::security::ip::IpKey;
use crate::text::{chars_of, first_from, find_from, lemma_first_from, parse_uint, parse_uint_spec, slice_of, string_from_chars, trim, trimmed};

verus! {

/// Result of a firewall check.
#[derive(Debug, Clone, Copy, PartialEq, Eq, Structural)]
pub enum FirewallResult {
    Allowed,
    Whitelisted,
    Blacklisted,
}

/// A network: its address and prefix length.
#[derive(Debug, Clone, Copy, PartialEq, Eq, Structural)]
pub struct CidrEntry {
    pub network: IpKey,
    pub prefix_len: u8,
}

/// The number of address bits of the family.
pub open spec fn width(v6: bool) -> u32 {
    if v6 {
        128
    } else {
        32
    }
}

/// `ip` lies in the network `net`/`prefix`: same family, and a zero prefix
/// or equal leading `prefix` bits.
pub open spec fn in_cidr(ip: IpKey, net: IpKey, prefix: u8) -> bool {
    if ip.v6 != net.v6 {
        false
    } else if prefix == 0 {
        true
    } else {
        let shift: u32 = if width(ip.v6) > prefix {
            (width(ip.v6) - prefix) as u32
        } else {
            0
        };
        (ip.bits >> shift) == (net.bits >> shift)
    }
}

/// Whether `ip` lies in the network `net`/`prefix`.
pub fn ip_in_cidr(ip: &IpKey, net: &IpKey, prefix: u8) -> (r: bool)
    ensures
        r == in_cidr(*ip, *net, prefix),
{
    if ip.v6 != net.v6 {
        return false;
    }
    if prefix == 0 {
        return true;
    }
    let w: u32 = if ip.v6 {
        128
    } else {
        32
    };
    let shift: u32 = if w > prefix as u32 {
        w - prefix as u32
    } else {
        0
    };
    (ip.bits >> shift) == (net.bits >> shift)
}

/// An address lies in a network exactly when both are of one family and
/// the address agrees with the network on the network's leading `prefix`
/// bits: those left after shifting out the low `32 - prefix` bits of an
/// IPv4 address, or `128 - prefix` of an IPv6 one. A zero prefix covers the
/// whole family; a prefix of the full width or more asks for the very same
/// address.
pub proof fn law_cidr_covers_leading_bits(ip: IpKey, net: IpKey, prefix: u8)
    ensures
        ip.v6 != net.v6 ==> !in_cidr(ip, net, prefix),
        ip.v6 == net.v6 && prefix == 0 ==> in_cidr(ip, net, prefix),
        ip.v6 == net.v6 && !ip.v6 && 0 < prefix <= 32 ==> (in_cidr(ip, net, prefix) <==> (ip.bits >> ((32
            - prefix) as u32)) == (net.bits >> ((32 - prefix) as u32))),
        ip.v6 == net.v6 && ip.v6 && 0 < prefix <= 128 ==> (in_cidr(ip, net, prefix) <==> (ip.bits >> ((128
            - prefix) as u32)) == (net.bits >> ((128 - prefix) as u32))),
        ip.v6 == net.v6 && prefix > 0 && prefix >= (if ip.v6 { 128u8 } else { 32u8 }) ==> (in_cidr(
            ip,
            net,
            prefix,
        ) <==> ip.bits == net.bits),
{
    let a = ip.bits;
    let b = net.bits;
    assert(a >> 0u32 == a && b >> 0u32 == b) by (bit_vector);
}

/// Some entry of `list` covers `ip`.
pub open spec fn covered(list: Seq<CidrEntry>, ip: IpKey) -> bool {
    exists|i: int| 0 <= i < list.len() && in_cidr(ip, #[trigger] list[i].network, list[i].prefix_len)
}

/// Whether some entry of `list` covers `ip`.
fn any_covers(list: &Vec<CidrEntry>, ip: &IpKey) -> (r: bool)
    ensures
        r == covered(list@, *ip),
{
    let mut i: usize = 0;
    while i < list.len()
        invariant
            i <= list@.len(),
            forall|j: int| 0 <= j < i ==> !in_cidr(*ip, #[trigger] list@[j].network, list@[j].prefix_len),
        decreases list@.len() - i,
    {
        if ip_in_cidr(ip, &list[i].network, list[i].prefix_len) {
            return true;
        }
        i = i + 1;
    }
    false
}

/// The firewall's networks.
#[derive(Debug, Clone, PartialEq)]
pub struct IpFirewall {
    pub whitelist: Vec<CidrEntry>,
    pub blacklist: Vec<CidrEntry>,
}

impl IpFirewall {
    /// A firewall over parsed networks.
    pub fn from_entries(whitelist: Vec<CidrEntry>, blacklist: Vec<CidrEntry>) -> (r: Self)
        ensures
            r.whitelist@ == whitelist@,
            r.blacklist@ == blacklist@,
    {
        IpFirewall { whitelist, blacklist }
    }

    /// Checks an address: whitelisted when a whitelist network covers it,
    /// else blacklisted when a blacklist network does, else allowed.
    pub fn check(&self, ip: &IpKey) -> (r: FirewallResult)
        ensures
            r == (if covered(self.whitelist@, *ip) {
                FirewallResult::Whitelisted
            } else if covered(self.blacklist@, *ip) {
                FirewallResult::Blacklisted
            } else {
                FirewallResult::Allowed
            }),
    {
        if any_covers(&self.whitelist, ip) {
            FirewallResult::Whitelisted
        } else if any_covers(&self.blacklist, ip) {
            FirewallResult::Blacklisted
        } else {
            FirewallResult::Allowed
        }
    }
}

/// A CIDR text split at its first `/`: the address, and the prefix length
/// text if there is one.
#[derive(Debug, Clone, PartialEq)]
pub struct CidrText {
    pub address: String,
    pub prefix: Option<String>,
}

/// The parts of a trimmed CIDR text.
pub open spec fn cidr_parts(s: Seq<char>) -> (Seq<char>, Option<Seq<char>>) {
    let t = trim(s);
    let k = first_from(t, '/', 0);
    if k < t.len() {
        (t.subrange(0, k), Some(t.subrange(k + 1, t.len() as int)))
    } else {
        (t, None)
    }
}

/// Trims a CIDR text and splits it at its first `/`.
pub fn split_cidr(s: &str) -> (r: CidrText)
    ensures
        r.address@ == cidr_parts(s@).0,
        match cidr_parts(s@).1 {
            Some(p) => r.prefix matches Some(x) && x@ == p,
            None => r.prefix is None,
        },
{
    let t = trimmed(&chars_of(s));
    let k = find_from(&t, '/', 0);
    proof {
        lemma_first_from(t@, '/', 0);
    }
    if k < t.len() {
        let a = slice_of(&t, 0, k);
        let p = slice_of(&t, k + 1, t.len());
        CidrText { address: string_from_chars(&a), prefix: Some(string_from_chars(&p)) }
    } else {
        CidrText { address: string_from_chars(&t), prefix: None }
    }
}

/// The network for a parsed address and an optional prefix text: a bare
/// address covers itself alone (/32 or /128); a prefix must parse as a
/// `u8` no larger than the family's width.
pub open spec fn cidr_entry_of(network: IpKey, prefix: Option<Seq<char>>) -> Option<CidrEntry> {
    let max = width(network.v6);
    match prefix {
        None => Some(CidrEntry { network, prefix_len: max as u8 }),
        Some(p) => match parse_uint_spec(p, 255) {
            Some(v) => if v <= max {
                Some(CidrEntry { network, prefix_len: v as u8 })
            } else {
                None
            },
            None => None,
        },
    }
}

/// Builds the network for a parsed address and an optional prefix text.
pub fn cidr_entry(network: IpKey, prefix: Option<&str>) -> (r: Option<CidrEntry>)
    ensures
        r == cidr_entry_of(network, match prefix {
            Some(p) => Some(p@),
            None => None,
        }),
{
    let max: u8 = if network.v6 {
        128
    } else {
        32
    };
    match prefix {
        None => Some(CidrEntry { network, prefix_len: max }),
        Some(p) => match parse_uint(&chars_of(p), 255) {
            Some(v) => {
                if v <= max as u64 {
                    Some(CidrEntry { network, prefix_len: v as u8 })
                } else {
                    None
                }
            },
            None => None,
        },
    }
}

} // verus!
