//! Xorshift generators for proportional selection.
//!
//! A generator starts unseeded (state 0). Its first draw seeds it from the
//! clock (the nanoseconds since the Unix epoch cut to the generator's
//! width, with the lowest bit set, or a fixed odd constant when the clock
//! reads a time before the epoch); every draw then advances the state by
//! one xorshift step and returns the new state. A seeded state is never 0,
//! so the clock is read once.

use vstd::prelude::*;
use crate::clock::nanos_since_epoch;

verus! {

/// One xorshift step on 32 bits: shifts 13, 17, 5.
pub open spec fn xorshift32_step(x: u32) -> u32 {
    let a = x ^ (x << 13u32);
    let b = a ^ (a >> 17u32);
    b ^ (b << 5u32)
}

/// One xorshift step on 64 bits: shifts 13, 7, 17.
pub open spec fn xorshift64_step(x: u64) -> u64 {
    let a = x ^ (x << 13u64);
    let b = a ^ (a >> 7u64);
    b ^ (b << 17u64)
}

/// A xorshift step maps a non-zero state to a non-zero state.
pub proof fn law_xorshift32_nonzero(x: u32)
    requires
        x != 0,
    ensures
        xorshift32_step(x) != 0,
{
    assert(x != 0 ==> (x ^ (x << 13u32)) != 0) by (bit_vector);
    let a = x ^ (x << 13u32);
    assert(a != 0 ==> (a ^ (a >> 17u32)) != 0) by (bit_vector);
    let b = a ^ (a >> 17u32);
    assert(b != 0 ==> (b ^ (b << 5u32)) != 0) by (bit_vector);
}

/// A xorshift step maps a non-zero state to a non-zero state.
pub proof fn law_xorshift64_nonzero(x: u64)
    requires
        x != 0,
    ensures
        xorshift64_step(x) != 0,
{
    assert(x != 0 ==> (x ^ (x << 13u64)) != 0) by (bit_vector);
    let a = x ^ (x << 13u64);
    assert(a != 0 ==> (a ^ (a >> 7u64)) != 0) by (bit_vector);
    let b = a ^ (a >> 7u64);
    assert(b != 0 ==> (b ^ (b << 17u64)) != 0) by (bit_vector);
}

/// The 32-bit seed for a clock reading.
pub open spec fn seed32_of(nanos: Option<u128>) -> u32 {
    match nanos {
        Some(n) => (n as u32) | 1u32,
        None => 987654321u32 | 1u32,
    }
}

/// The 64-bit seed for a clock reading.
pub open spec fn seed64_of(nanos: Option<u128>) -> u64 {
    match nanos {
        Some(n) => (n as u64) | 1u64,
        None => 12345678901234567u64 | 1u64,
    }
}

/// The seed for a clock reading: the reading cut to 32 bits with the
/// lowest bit set; a fixed odd constant without a reading.
pub fn seed32(nanos: Option<u128>) -> (r: u32)
    ensures
        r == seed32_of(nanos),
        r != 0,
{
    let r: u32 = match nanos {
        Some(n) => (n as u32) | 1u32,
        None => 987654321u32 | 1u32,
    };
    assert(r | 1u32 != 0u32 || r == 0) by (bit_vector);
    assert((r & 1u32) == 1u32 ==> r != 0u32) by (bit_vector);
    proof {
        let x: u32 = match nanos {
            Some(n) => n as u32,
            None => 987654321u32,
        };
        assert(((x | 1u32) & 1u32) == 1u32) by (bit_vector);
    }
    r
}

/// The seed for a clock reading: the reading cut to 64 bits with the
/// lowest bit set; a fixed odd constant without a reading.
pub fn seed64(nanos: Option<u128>) -> (r: u64)
    ensures
        r == seed64_of(nanos),
        r != 0,
{
    let r: u64 = match nanos {
        Some(n) => (n as u64) | 1u64,
        None => 12345678901234567u64 | 1u64,
    };
    assert((r & 1u64) == 1u64 ==> r != 0u64) by (bit_vector);
    proof {
        let x: u64 = match nanos {
            Some(n) => n as u64,
            None => 12345678901234567u64,
        };
        assert(((x | 1u64) & 1u64) == 1u64) by (bit_vector);
    }
    r
}

/// A 32-bit xorshift generator; state 0 means not yet seeded.
#[derive(Debug)]
pub struct Xorshift32 {
    pub state: u32,
}

impl Xorshift32 {
    /// An unseeded generator.
    pub fn new() -> (r: Self)
        ensures
            r.state == 0,
    {
        Xorshift32 { state: 0 }
    }

    /// The next number: one step from the state, seeding from the clock
    /// first when unseeded. The number is also the new state, and never 0.
    pub fn next(&mut self) -> (r: u32)
        ensures
            final(self).state == r,
            r != 0,
            old(self).state != 0 ==> r == xorshift32_step(old(self).state),
            old(self).state == 0 ==> exists|n: Option<u128>| r == xorshift32_step(#[trigger] seed32_of(n)),
    {
        let mut x = self.state;
        if x == 0 {
            let n = nanos_since_epoch();
            x = seed32(n);
            assert(x == seed32_of(n));
        }
        proof {
            law_xorshift32_nonzero(x);
        }
        x = x ^ (x << 13u32);
        x = x ^ (x >> 17u32);
        x = x ^ (x << 5u32);
        self.state = x;
        x
    }
}

/// A 64-bit xorshift generator; state 0 means not yet seeded.
#[derive(Debug)]
pub struct Xorshift64 {
    pub state: u64,
}

impl Xorshift64 {
    /// An unseeded generator.
    pub fn new() -> (r: Self)
        ensures
            r.state == 0,
    {
        Xorshift64 { state: 0 }
    }

    /// The next number: one step from the state, seeding from the clock
    /// first when unseeded. The number is also the new state, and never 0.
    pub fn next(&mut self) -> (r: u64)
        ensures
            final(self).state == r,
            r != 0,
            old(self).state != 0 ==> r == xorshift64_step(old(self).state),
            old(self).state == 0 ==> exists|n: Option<u128>| r == xorshift64_step(#[trigger] seed64_of(n)),
    {
        let mut x = self.state;
        if x == 0 {
            let n = nanos_since_epoch();
            x = seed64(n);
            assert(x == seed64_of(n));
        }
        proof {
            law_xorshift64_nonzero(x);
        }
        x = x ^ (x << 13u64);
        x = x ^ (x >> 7u64);
        x = x ^ (x << 17u64);
        self.state = x;
        x
    }
}

} // verus!
