//! Decisions of the WebRTC and WebSocket bridge modes: the ICE servers of
//! the WebRTC leg, the WebSocket target, the relay of frames between the
//! two legs, and the bytes of a frame sent over WebSocket.

use vstd::prelude::*;
use crate::redis_state::types::{DidConfig, WsBridgeConfig};

verus! {

/// The STUN server used when a DID names no ICE servers.
pub const DEFAULT_STUN_SERVER: &'static str = "stun:stun.l.google.com:19302";

/// The URL lists of the ICE servers: one server per configured URL, or the
/// default STUN server when none is configured (or the list is empty).
pub open spec fn ice_servers_of(urls: Option<Seq<String>>) -> Seq<Seq<Seq<char>>> {
    match urls {
        Some(u) if u.len() > 0 => u.map_values(|s: String| seq![s@]),
        _ => seq![seq!["stun:stun.l.google.com:19302"@]],
    }
}

/// The views of a list of URL lists.
pub open spec fn url_lists(v: Seq<Vec<String>>) -> Seq<Seq<Seq<char>>> {
    v.map_values(|l: Vec<String>| l@.map_values(|s: String| s@))
}

/// Builds the URL lists of the WebRTC leg's ICE servers.
pub fn build_ice_servers(ice_server_urls: Option<&Vec<String>>) -> (r: Vec<Vec<String>>)
    ensures
        url_lists(r@) == ice_servers_of(
            match ice_server_urls {
                Some(u) => Some(u@),
                None => None,
            },
        ),
{
    match ice_server_urls {
        Some(urls) if urls.len() > 0 => {
            let mut r: Vec<Vec<String>> = Vec::new();
            let mut i: usize = 0;
            while i < urls.len()
                invariant
                    i <= urls@.len(),
                    url_lists(r@) == urls@.subrange(0, i as int).map_values(|s: String| seq![s@]),
                decreases urls@.len() - i,
            {
                let ghost before = r@;
                let one = vec![urls[i].clone()];
                assert(one@.map_values(|s: String| s@) =~= seq![urls@[i as int]@]);
                r.push(one);
                assert(url_lists(r@) =~= url_lists(before).push(seq![urls@[i as int]@]));
                assert(urls@.subrange(0, i + 1).map_values(|s: String| seq![s@]) =~= urls@.subrange(
                    0,
                    i as int,
                ).map_values(|s: String| seq![s@]).push(seq![urls@[i as int]@]));
                i = i + 1;
            }
            assert(urls@.subrange(0, i as int) =~= urls@);
            r
        },
        _ => {
            let url: String = DEFAULT_STUN_SERVER.to_owned();
            assert(url@ == "stun:stun.l.google.com:19302"@);
            let one = vec![url];
            assert(one@.map_values(|s: String| s@) =~= seq!["stun:stun.l.google.com:19302"@]);
            let r = vec![one];
            assert(url_lists(r@) =~= seq![seq!["stun:stun.l.google.com:19302"@]]);
            r
        },
    }
}

/// Whether the WebRTC leg runs ICE-lite: as the DID configures, off by default.
pub fn webrtc_ice_lite(did: &DidConfig) -> (r: bool)
    ensures
        r == (did.routing.webrtc_config matches Some(c) && c.ice_lite == Some(true)),
{
    match &did.routing.webrtc_config {
        Some(c) => match c.ice_lite {
            Some(b) => b,
            None => false,
        },
        None => false,
    }
}

/// The configured ICE server URLs of a DID, if any.
pub fn webrtc_ice_urls(did: &DidConfig) -> (r: Option<&Vec<String>>)
    ensures
        match did.routing.webrtc_config {
            Some(c) => match c.ice_servers {
                Some(u) => r == Some(&u),
                None => r is None,
            },
            None => r is None,
        },
{
    match &did.routing.webrtc_config {
        Some(c) => c.ice_servers.as_ref(),
        None => None,
    }
}

/// The WebSocket target of a DID: its configuration when it has one with a
/// non-empty URL.
pub fn ws_bridge_target(did: &DidConfig) -> (r: Result<&WsBridgeConfig, String>)
    ensures
        match did.routing.ws_config {
            None => r matches Err(e) && e@ == "ws_bridge mode requires ws_config with a target URL"@,
            Some(c) => if c.url@.len() == 0 {
                r matches Err(e) && e@ == "ws_bridge mode requires a non-empty ws_config.url"@
            } else {
                r == Ok::<&WsBridgeConfig, String>(&c)
            },
        },
{
    match &did.routing.ws_config {
        None => Err("ws_bridge mode requires ws_config with a target URL".to_owned()),
        Some(c) => {
            if c.url.as_str().unicode_len() == 0 {
                Err("ws_bridge mode requires a non-empty ws_config.url".to_owned())
            } else {
                Ok(c)
            }
        },
    }
}

/// What the relay between the two legs of a bridge observed.
#[derive(Debug, Clone, Copy, PartialEq, Eq, Structural)]
pub enum RelayEvent {
    /// The bridge was cancelled.
    Cancelled,
    /// The WebSocket peer disconnected.
    Disconnected,
    /// A leg produced a frame.
    Frame,
    /// A leg ended.
    LegEnded,
    /// Sending a frame to the other leg failed.
    SendFailed,
}

/// What the relay does next.
#[derive(Debug, Clone, Copy, PartialEq, Eq, Structural)]
pub enum RelayAction {
    /// Send the frame to the other leg and go on.
    Forward,
    /// Stop both legs and end the bridge.
    Stop,
}

/// The relay forwards frames and stops on anything else.
pub fn relay_step(event: RelayEvent) -> (r: RelayAction)
    ensures
        r == (if event == RelayEvent::Frame {
            RelayAction::Forward
        } else {
            RelayAction::Stop
        }),
{
    match event {
        RelayEvent::Frame => RelayAction::Forward,
        _ => RelayAction::Stop,
    }
}

/// The samples of an audio frame.
#[derive(Debug, Clone, PartialEq)]
pub enum Samples {
    /// An encoded RTP payload.
    Rtp { payload: Vec<u8> },
    /// Linear PCM.
    Pcm { samples: Vec<i16> },
    /// No audio.
    Empty,
}

/// The little-endian bytes of PCM samples.
pub open spec fn pcm_le_bytes(s: Seq<i16>) -> Seq<u8> {
    Seq::new(
        2 * s.len(),
        |k: int|
            if k % 2 == 0 {
                ((s[k / 2] as u16) % 256) as u8
            } else {
                ((s[k / 2] as u16) / 256) as u8
            },
    )
}

/// The bytes of a frame sent over WebSocket: the RTP payload, the PCM
/// samples in little-endian order, or nothing.
pub fn audio_frame_to_bytes(samples: &Samples) -> (r: Vec<u8>)
    ensures
        match *samples {
            Samples::Rtp { payload } => r@ == payload@,
            Samples::Pcm { samples } => r@ == pcm_le_bytes(samples@),
            Samples::Empty => r@.len() == 0,
        },
{
    match samples {
        Samples::Rtp { payload } => {
            let mut r: Vec<u8> = Vec::new();
            let mut i: usize = 0;
            while i < payload.len()
                invariant
                    i <= payload@.len(),
                    r@ == payload@.subrange(0, i as int),
                decreases payload@.len() - i,
            {
                r.push(payload[i]);
                i = i + 1;
            }
            assert(payload@.subrange(0, i as int) =~= payload@);
            r
        },
        Samples::Pcm { samples } => {
            let mut r: Vec<u8> = Vec::new();
            let mut i: usize = 0;
            while i < samples.len()
                invariant
                    i <= samples@.len(),
                    r@ =~= pcm_le_bytes(samples@.subrange(0, i as int)),
                decreases samples@.len() - i,
            {
                let u = samples[i] as u16;
                r.push((u % 256) as u8);
                r.push((u / 256) as u8);
                i = i + 1;
            }
            assert(samples@.subrange(0, i as int) =~= samples@);
            r
        },
        Samples::Empty => Vec::new(),
    }
}

} // verus!
