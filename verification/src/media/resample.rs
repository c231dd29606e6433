//! Sample-rate conversion between 16 kHz and 8 kHz PCM, and the frame
//! decisions of the DSP adapters that work at 8 kHz.

use vstd::prelude::*;

verus! {

/// `x / 2` rounded toward zero, as Rust's integer division does.
pub open spec fn half_toward_zero(x: int) -> int {
    if x >= 0 {
        x / 2
    } else {
        -((-x) / 2)
    }
}

/// Every other sample of `s`, starting with the first.
pub open spec fn downsampled(s: Seq<i16>) -> Seq<i16> {
    Seq::new(((s.len() + 1) / 2) as nat, |i: int| s[2 * i])
}

/// `s` at twice the rate: each sample followed by the mean (rounded toward
/// zero) of it and the next, the last sample doubled.
pub open spec fn upsampled(s: Seq<i16>) -> Seq<i16> {
    if s.len() == 0 {
        Seq::empty()
    } else {
        Seq::new(
            2 * s.len(),
            |k: int|
                if k % 2 == 0 {
                    s[k / 2]
                } else if k / 2 < s.len() - 1 {
                    half_toward_zero(s[k / 2] + s[k / 2 + 1]) as i16
                } else {
                    s[s.len() - 1]
                },
        )
    }
}

/// Bringing a frame up to 16 kHz and back down to 8 kHz gives the frame
/// back.
pub proof fn law_down_after_up_is_identity(s: Seq<i16>)
    ensures
        downsampled(upsampled(s)) == s,
{
    if s.len() > 0 {
        let u = upsampled(s);
        assert forall|i: int| 0 <= i < s.len() implies #[trigger] downsampled(u)[i] == s[i] by {
            assert((2 * i) % 2 == 0 && (2 * i) / 2 == i) by (nonlinear_arith);
        }
        assert(downsampled(u) =~= s);
    } else {
        assert(downsampled(upsampled(s)) =~= s);
    }
}

/// 16 kHz to 8 kHz: every other sample, starting with the first.
pub fn downsample_16k_to_8k(samples: &[i16]) -> (r: Vec<i16>)
    ensures
        r@ == downsampled(samples@),
        r@.len() == (samples@.len() + 1) / 2,
        forall|i: int| 0 <= i < r@.len() ==> r@[i] == samples@[2 * i],
{
    let n = samples.len();
    let mut r: Vec<i16> = Vec::new();
    let mut k: usize = 0;
    while k < n - k
        invariant
            n == samples@.len(),
            k <= n,
            2 * k <= n + 1,
            r@.len() == k,
            forall|j: int| 0 <= j < r@.len() ==> r@[j] == samples@[2 * j],
        decreases n - k,
    {
        r.push(samples[2 * k]);
        k = k + 1;
    }
    assert(r@ =~= downsampled(samples@));
    r
}

/// 8 kHz to 16 kHz by linear interpolation: each sample followed by the
/// mean (rounded toward zero) of it and the next; the last sample doubled.
pub fn upsample_8k_to_16k(samples: &[i16]) -> (r: Vec<i16>)
    ensures
        r@ == upsampled(samples@),
        samples@.len() == 0 ==> r@.len() == 0,
        samples@.len() > 0 ==> r@.len() == 2 * samples@.len(),
        forall|i: int|
            0 <= i < samples@.len() - 1 ==> r@[2 * i] == #[trigger] samples@[i] && r@[2 * i + 1]
                == half_toward_zero(samples@[i] + samples@[i + 1]),
        samples@.len() > 0 ==> r@[2 * samples@.len() - 2] == samples@[samples@.len() - 1]
            && r@[2 * samples@.len() - 1] == samples@[samples@.len() - 1],
{
    let mut out: Vec<i16> = Vec::new();
    if samples.len() == 0 {
        return out;
    }
    let mut i: usize = 0;
    while i < samples.len() - 1
        invariant
            i < samples@.len(),
            out@.len() == 2 * i,
            forall|k: int|
                0 <= k < i ==> out@[2 * k] == #[trigger] samples@[k] && out@[2 * k + 1] == half_toward_zero(
                    samples@[k] + samples@[k + 1],
                ),
        decreases samples@.len() - i,
    {
        let a = samples[i] as i32;
        let b = samples[i + 1] as i32;
        let sum = a + b;
        let m = if sum >= 0 {
            sum / 2
        } else {
            -((-sum) / 2)
        };
        out.push(samples[i]);
        out.push(m as i16);
        i = i + 1;
    }
    let last = samples[samples.len() - 1];
    out.push(last);
    out.push(last);
    proof {
        let n = samples@.len();
        assert forall|k: int| 0 <= k < 2 * n implies #[trigger] out@[k] == upsampled(samples@)[k] by {
            let j = k / 2;
            assert(k == 2 * j + k % 2 && 0 <= k % 2 < 2) by (nonlinear_arith)
                requires
                    j == k / 2,
                    k >= 0,
            ;
            if j < n - 1 {
                assert(out@[2 * j] == samples@[j]);
            }
        }
        assert(out@ =~= upsampled(samples@));
    }
    out
}

/// The far-end reference for echo cancellation of an 8 kHz frame: the
/// external reference when it has the frame's length, else the frame
/// itself.
pub fn echo_reference(frame_8k: &Vec<i16>, far_end: Option<&Vec<i16>>) -> (r: Vec<i16>)
    ensures
        match far_end {
            Some(f) => if f@.len() == frame_8k@.len() {
                r@ == f@
            } else {
                r@ == frame_8k@
            },
            None => r@ == frame_8k@,
        },
{
    match far_end {
        Some(f) => {
            if f.len() == frame_8k.len() {
                copy_samples(f)
            } else {
                copy_samples(frame_8k)
            }
        },
        None => copy_samples(frame_8k),
    }
}

/// A copy of a sample buffer.
fn copy_samples(v: &Vec<i16>) -> (r: Vec<i16>)
    ensures
        r@ == v@,
{
    let mut r: Vec<i16> = Vec::new();
    let mut i: usize = 0;
    while i < v.len()
        invariant
            i <= v@.len(),
            r@ == v@.subrange(0, i as int),
        decreases v@.len() - i,
    {
        r.push(v[i]);
        i = i + 1;
    }
    assert(v@.subrange(0, v@.len() as int) =~= v@);
    r
}

/// The number of frames lost between the expected and the received RTP
/// sequence numbers (wrapping at 2^16), when it calls for concealment:
/// between 1 and 99.
pub fn plc_gap(seq_expected: u16, seq_received: u16) -> (r: Option<usize>)
    ensures
        ({
            let gap = if seq_received >= seq_expected {
                seq_received - seq_expected
            } else {
                seq_received + 0x1_0000 - seq_expected
            };
            &&& (0 < gap < 100) ==> r == Some(gap as usize)
            &&& !(0 < gap < 100) ==> r is None
        }),
{
    let gap: u16 = seq_received.wrapping_sub(seq_expected);
    if gap > 0 && gap < 100 {
        Some(gap as usize)
    } else {
        None
    }
}

} // verus!
