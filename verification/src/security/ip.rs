//! IP addresses as plain values: the address family and the address bits.

use vstd::prelude::*;

verus! {

/// An IP address: `v6` tells the family, `bits` holds the address (an IPv4
/// address in the low 32 bits, most significant octet first).
#[derive(Debug, Clone, Copy, PartialEq, Eq, Hash, Structural)]
pub struct IpKey {
    pub v6: bool,
    pub bits: u128,
}

impl IpKey {
    /// An IPv4 address fits in 32 bits.
    pub open spec fn valid(self) -> bool {
        !self.v6 ==> self.bits < 0x1_0000_0000
    }

    /// The IPv4 address `a.b.c.d`.
    pub fn v4(a: u8, b: u8, c: u8, d: u8) -> (r: IpKey)
        ensures
            !r.v6,
            r.bits == a as int * 0x100_0000 + b as int * 0x1_0000 + c as int * 0x100 + d as int,
            r.valid(),
    {
        let bits: u128 = (a as u128) * 0x100_0000 + (b as u128) * 0x1_0000 + (c as u128) * 0x100
            + (d as u128);
        IpKey { v6: false, bits }
    }

    /// The IPv6 address with these 128 bits.
    pub fn v6(bits: u128) -> (r: IpKey)
        ensures
            r.v6,
            r.bits == bits,
            r.valid(),
    {
        IpKey { v6: true, bits }
    }
}

} // verus!
