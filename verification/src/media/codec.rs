//! Audio codecs known to the media path, and SDP `a=rtpmap` parsing.

use vstd::prelude::*;
use crate::text::{
    ascii_lower_seq, chars_of, is_text, parse_uint, parse_uint_spec, split_char, split_on,
    split_whitespace, to_ascii_lowercase, views, words_of,
};

verus! {

/// Audio codecs the media path handles.
#[derive(Debug, Clone, Copy, PartialEq, Eq, Structural)]
pub enum CodecType {
    PCMU,
    PCMA,
    G722,
    G729,
    Opus,
    TelephoneEvent,
}

/// The canonical lowercase name of a codec, as trunk configuration spells it.
pub open spec fn codec_name(ct: CodecType) -> Seq<char> {
    match ct {
        CodecType::PCMU => "pcmu"@,
        CodecType::PCMA => "pcma"@,
        CodecType::G722 => "g722"@,
        CodecType::G729 => "g729"@,
        CodecType::Opus => "opus"@,
        CodecType::TelephoneEvent => "telephone-event"@,
    }
}

/// The canonical lowercase name of `ct`.
pub fn codec_type_name(ct: &CodecType) -> (r: &'static str)
    ensures
        r@ == codec_name(*ct),
{
    match ct {
        CodecType::PCMU => "pcmu",
        CodecType::PCMA => "pcma",
        CodecType::G722 => "g722",
        CodecType::G729 => "g729",
        CodecType::Opus => "opus",
        CodecType::TelephoneEvent => "telephone-event",
    }
}

/// The codec of a statically assigned RTP payload type (RFC 3551).
pub open spec fn static_name(pt: u8) -> Option<Seq<char>> {
    if pt == 0 {
        Some("pcmu"@)
    } else if pt == 8 {
        Some("pcma"@)
    } else if pt == 9 {
        Some("g722"@)
    } else if pt == 18 {
        Some("g729"@)
    } else {
        None
    }
}

/// The codec name of a static payload type: 0 pcmu, 8 pcma, 9 g722, 18 g729.
pub fn static_pt_name(pt: u8) -> (r: Option<&'static str>)
    ensures
        match static_name(pt) {
            Some(n) => r matches Some(s) && s@ == n,
            None => r is None,
        },
{
    match pt {
        0 => Some("pcmu"),
        8 => Some("pcma"),
        9 => Some("g722"),
        18 => Some("g729"),
        _ => None,
    }
}

/// The codec whose encoding name is `lower` (already lowercase).
pub open spec fn codec_of_encoding(lower: Seq<char>) -> Option<CodecType> {
    if lower == "pcmu"@ {
        Some(CodecType::PCMU)
    } else if lower == "pcma"@ {
        Some(CodecType::PCMA)
    } else if lower == "g722"@ {
        Some(CodecType::G722)
    } else if lower == "g729"@ {
        Some(CodecType::G729)
    } else if lower == "opus"@ {
        Some(CodecType::Opus)
    } else if lower == "telephone-event"@ {
        Some(CodecType::TelephoneEvent)
    } else {
        None
    }
}

/// An `a=rtpmap` value `<pt> <encoding>/<clock>[/<channels>]`: the payload
/// type (0..=255), the codec named by the encoding (any ASCII case), the
/// clock rate and the channel count (1 when absent).
pub open spec fn rtpmap_of(val: Seq<char>) -> Option<(u8, CodecType, u32, u16)> {
    let ws = words_of(val);
    if ws.len() < 2 {
        None
    } else {
        let enc = split_on(ws[1], '/');
        match (
            parse_uint_spec(ws[0], 255),
            codec_of_encoding(ascii_lower_seq(enc[0])),
            if enc.len() >= 2 {
                parse_uint_spec(enc[1], u32::MAX as nat)
            } else {
                None
            },
            if enc.len() >= 3 {
                parse_uint_spec(enc[2], u16::MAX as nat)
            } else {
                Some(1nat)
            },
        ) {
            (Some(pt), Some(ct), Some(clock), Some(ch)) => Some((pt as u8, ct, clock as u32, ch as u16)),
            _ => None,
        }
    }
}

/// Parses the value of an `a=rtpmap:` attribute.
pub fn parse_rtpmap(val: &Vec<char>) -> (r: Result<(u8, CodecType, u32, u16), ()>)
    ensures
        match rtpmap_of(val@) {
            Some(t) => r == Ok::<(u8, CodecType, u32, u16), ()>(t),
            None => r is Err,
        },
{
    let ws = split_whitespace(val);
    if ws.len() < 2 {
        return Err(());
    }
    let enc = split_char(&ws[1], '/');
    proof {
        crate::proxy::session_timer::lemma_split_nonempty(ws@[1]@, '/', 0);
    }
    let pt = parse_uint(&ws[0], 255);
    let lower = to_ascii_lowercase(&enc[0]);
    let ct = codec_from_lower(&lower);
    let clock = if enc.len() >= 2 {
        parse_uint(&enc[1], 4294967295u64)
    } else {
        None
    };
    let ch = if enc.len() >= 3 {
        parse_uint(&enc[2], 65535u64)
    } else {
        Some(1u64)
    };
    match (pt, ct, clock, ch) {
        (Some(p), Some(c), Some(k), Some(h)) => Ok((p as u8, c, k as u32, h as u16)),
        _ => Err(()),
    }
}

/// The codec named by a lowercase encoding name.
fn codec_from_lower(lower: &Vec<char>) -> (r: Option<CodecType>)
    ensures
        r == codec_of_encoding(lower@),
{
    if is_text(lower, "pcmu") {
        Some(CodecType::PCMU)
    } else if is_text(lower, "pcma") {
        Some(CodecType::PCMA)
    } else if is_text(lower, "g722") {
        Some(CodecType::G722)
    } else if is_text(lower, "g729") {
        Some(CodecType::G729)
    } else if is_text(lower, "opus") {
        Some(CodecType::Opus)
    } else if is_text(lower, "telephone-event") {
        Some(CodecType::TelephoneEvent)
    } else {
        None
    }
}

/// Every codec's canonical name reads back as that codec.
pub proof fn law_codec_name_round_trip(c: CodecType)
    ensures
        codec_of_encoding(codec_name(c)) == Some(c),
{
    reveal_strlit("pcmu");
    reveal_strlit("pcma");
    reveal_strlit("g722");
    reveal_strlit("g729");
    reveal_strlit("opus");
    reveal_strlit("telephone-event");
    assert("pcma"@[3] != "pcmu"@[3]);
    assert("g722"@[0] != "pcmu"@[0] && "g722"@[0] != "pcma"@[0]);
    assert("g729"@[0] != "pcmu"@[0] && "g729"@[0] != "pcma"@[0] && "g729"@[3] != "g722"@[3]);
    assert("opus"@[0] != "pcmu"@[0] && "opus"@[0] != "pcma"@[0] && "opus"@[0] != "g722"@[0]
        && "opus"@[0] != "g729"@[0]);
    assert("telephone-event"@.len() != "pcmu"@.len());
}

} // verus!
