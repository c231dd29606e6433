//! Media bridge decisions: the codec two legs share, and the per-frame
//! rules of RTP forwarding (timestamp continuity and duplicate dropping).

use vstd::prelude::*;
use crate::media::codec::CodecType;

verus! {

/// Both lists hold `c`.
pub open spec fn shared(a: Seq<CodecType>, b: Seq<CodecType>, c: CodecType) -> bool {
    a.contains(c) && b.contains(c)
}

/// Position `i` holds the caller's first codec that the callee also has.
pub open spec fn first_common(caller: Seq<CodecType>, callee: Seq<CodecType>, i: int) -> bool {
    &&& 0 <= i < caller.len()
    &&& callee.contains(caller[i])
    &&& forall|j: int| 0 <= j < i ==> !callee.contains(#[trigger] caller[j])
}

/// `r` is the best codec for two peers: PCMU when both have it, else PCMA
/// when both have it, else the caller's first codec the callee also has;
/// `None` when they share none.
pub open spec fn best_codec(caller: Seq<CodecType>, callee: Seq<CodecType>, r: Option<CodecType>) -> bool {
    if shared(caller, callee, CodecType::PCMU) {
        r == Some(CodecType::PCMU)
    } else if shared(caller, callee, CodecType::PCMA) {
        r == Some(CodecType::PCMA)
    } else {
        match r {
            Some(c) => exists|i: int| first_common(caller, callee, i) && c == #[trigger] caller[i],
            None => forall|i: int| 0 <= i < caller.len() ==> !callee.contains(#[trigger] caller[i]),
        }
    }
}

/// Whether `list` holds `c`.
fn has_codec(list: &[CodecType], c: CodecType) -> (r: bool)
    ensures
        r == list@.contains(c),
{
    let mut i: usize = 0;
    while i < list.len()
        invariant
            i <= list@.len(),
            forall|j: int| 0 <= j < i ==> list@[j] != c,
        decreases list@.len() - i,
    {
        if list[i] == c {
            assert(list@[i as int] == c);
            return true;
        }
        i = i + 1;
    }
    false
}

/// Selects the best common codec of two peers, preferring G.711 so frames
/// can be relayed without transcoding.
pub fn optimize_codecs(caller_codecs: &[CodecType], callee_codecs: &[CodecType]) -> (r: Option<CodecType>)
    ensures
        best_codec(caller_codecs@, callee_codecs@, r),
{
    if has_codec(caller_codecs, CodecType::PCMU) && has_codec(callee_codecs, CodecType::PCMU) {
        return Some(CodecType::PCMU);
    }
    if has_codec(caller_codecs, CodecType::PCMA) && has_codec(callee_codecs, CodecType::PCMA) {
        return Some(CodecType::PCMA);
    }
    let mut i: usize = 0;
    while i < caller_codecs.len()
        invariant
            i <= caller_codecs@.len(),
            !shared(caller_codecs@, callee_codecs@, CodecType::PCMU),
            !shared(caller_codecs@, callee_codecs@, CodecType::PCMA),
            forall|j: int| 0 <= j < i ==> !callee_codecs@.contains(#[trigger] caller_codecs@[j]),
        decreases caller_codecs@.len() - i,
    {
        if has_codec(callee_codecs, caller_codecs[i]) {
            let c = caller_codecs[i];
            assert(first_common(caller_codecs@, callee_codecs@, i as int) && c == caller_codecs@[i as int]);
            return Some(c);
        }
        i = i + 1;
    }
    None
}

/// Whether frames between the two legs must be transcoded: their codecs differ.
pub fn needs_transcoding(codec_a: CodecType, codec_b: CodecType) -> (r: bool)
    ensures
        r == (codec_a != codec_b),
{
    codec_a != codec_b
}

/// The largest timestamp jump (in samples) kept as is: ten seconds at the
/// clock rate, counted as at least 8 kHz.
pub open spec fn max_jump(clock_rate: u32) -> int {
    if clock_rate >= 8000 {
        clock_rate * 10
    } else {
        80_000
    }
}

/// The timestamp a frame is forwarded with, given the previous frame's
/// timestamp: a jump of more than `max_jump` past the expected timestamp
/// (forward, or backward from the previous one) is replaced by the
/// expected timestamp, all in wrapping 32-bit arithmetic.
pub open spec fn continued_timestamp(last: Option<u32>, frame_samples: u32, clock_rate: u32, ts: u32) -> u32 {
    match last {
        None => ts,
        Some(last_ts) => {
            let expected = last_ts.wrapping_add(frame_samples);
            let diff = ts.wrapping_sub(expected);
            if diff > max_jump(clock_rate) && diff < u32::MAX / 2 {
                expected
            } else if diff > u32::MAX / 2 && last_ts.wrapping_sub(ts) > max_jump(clock_rate) {
                expected
            } else {
                ts
            }
        },
    }
}

/// Forwarding state of one track: the last timestamp and sequence number.
#[derive(Debug, Clone, Copy, PartialEq, Eq, Structural)]
pub struct TrackForwarder {
    pub last_seq: Option<u16>,
    pub last_timestamp: Option<u32>,
}

impl TrackForwarder {
    /// Nothing forwarded yet.
    pub fn new() -> (r: Self)
        ensures
            r.last_seq is None,
            r.last_timestamp is None,
    {
        TrackForwarder { last_seq: None, last_timestamp: None }
    }

    /// Takes an audio frame of `frame_samples` samples at `clock_rate` with
    /// RTP timestamp `ts` and sequence number `seq`: the timestamp to send
    /// it with, or `None` when it repeats the previous sequence number and
    /// is dropped.
    pub fn on_frame(&mut self, frame_samples: u32, clock_rate: u32, ts: u32, seq: Option<u16>) -> (r: Option<u32>)
        requires
            clock_rate <= u32::MAX / 10,
        ensures
            final(self).last_timestamp == Some(
                continued_timestamp(old(self).last_timestamp, frame_samples, clock_rate, ts),
            ),
            match seq {
                Some(s) => if old(self).last_seq == Some(s) {
                    r is None && final(self).last_seq == old(self).last_seq
                } else {
                    r == Some(
                        continued_timestamp(old(self).last_timestamp, frame_samples, clock_rate, ts),
                    ) && final(self).last_seq == Some(s)
                },
                None => r == Some(
                    continued_timestamp(old(self).last_timestamp, frame_samples, clock_rate, ts),
                ) && final(self).last_seq == old(self).last_seq,
            },
    {
        let mut out = ts;
        if let Some(last_ts) = self.last_timestamp {
            let expected = last_ts.wrapping_add(frame_samples);
            let diff = ts.wrapping_sub(expected);
            let rate = if clock_rate >= 8000 {
                clock_rate
            } else {
                8000
            };
            let max: u32 = rate * 10;
            if diff > max && diff < u32::MAX / 2 {
                out = expected;
            } else if diff > u32::MAX / 2 {
                let backward = last_ts.wrapping_sub(ts);
                if backward > max {
                    out = expected;
                }
            }
        }
        self.last_timestamp = Some(out);
        if let Some(s) = seq {
            if let Some(last) = self.last_seq {
                if s == last {
                    return None;
                }
            }
            self.last_seq = Some(s);
        }
        Some(out)
    }
}

} // verus!
