//! Codec filtering of SDP offers against a trunk's allowed codecs.

use vstd::prelude::*;
use crate::media::codec::{codec_name, parse_rtpmap, rtpmap_of, static_name, static_pt_name, codec_type_name};
use crate::redis_state::types::MediaConfig;
use crate::text::{
    append, chars_of, contains_entry, first_from, find_from, has_prefix, is_text, join, join_seq,
    lemma_first_from, lines, lines_of, lowercase, parse_uint, parse_uint_spec, slice_of, split_whitespace,
    starts_with, string_from_chars, to_lowercase, trim, trimmed, views, words_of, eq_chars,
};

verus! {

/// The allowed codec list of a trunk: `media.codecs` when present and
/// non-empty, else the legacy `codecs` when non-empty, else `None` (all
/// codecs allowed).
pub open spec fn trunk_codecs_of(media: Option<MediaConfig>, codecs: Option<Vec<String>>) -> Option<
    Seq<String>,
> {
    match media {
        Some(mc) if mc.codecs@.len() > 0 => Some(mc.codecs@),
        _ => match codecs {
            Some(c) if c@.len() > 0 => Some(c@),
            _ => None,
        },
    }
}

/// A copy of a list of strings.
fn copy_strings(v: &Vec<String>) -> (r: Vec<String>)
    ensures
        r@ == v@,
{
    let mut r: Vec<String> = Vec::new();
    let mut i: usize = 0;
    while i < v.len()
        invariant
            i <= v@.len(),
            r@ == v@.subrange(0, i as int),
        decreases v@.len() - i,
    {
        r.push(v[i].clone());
        i = i + 1;
    }
    assert(v@.subrange(0, i as int) =~= v@);
    r
}

/// Resolves the effective allowed-codec list of a trunk.
pub fn resolve_trunk_codecs(media: &Option<MediaConfig>, codecs: &Option<Vec<String>>) -> (r: Option<
    Vec<String>,
>)
    ensures
        match trunk_codecs_of(*media, *codecs) {
            Some(s) => r matches Some(v) && v@ == s,
            None => r is None,
        },
{
    if let Some(mc) = media {
        if mc.codecs.len() > 0 {
            return Some(copy_strings(&mc.codecs));
        }
    }
    if let Some(c) = codecs {
        if c.len() > 0 {
            return Some(copy_strings(c));
        }
    }
    None
}

/// Payload-type names: entry `pt` is the codec name of payload type `pt`.
pub type PtNames = Seq<Option<Seq<char>>>;

/// The `a=rtpmap:` value of a trimmed line, if it is such an attribute.
pub open spec fn rtpmap_attr(t: Seq<char>) -> Option<Seq<char>> {
    if has_prefix(t, "a=rtpmap:"@) {
        Some(t.subrange("a=rtpmap:"@.len() as int, t.len() as int))
    } else {
        None
    }
}

/// The payload-type names defined by the `a=rtpmap` lines among the first
/// `n` lines; a later line for the same payload type wins.
pub open spec fn names_after(ls: Seq<Seq<char>>, n: int) -> PtNames
    decreases n,
{
    if n <= 0 || n > ls.len() {
        Seq::new(256, |i: int| None)
    } else {
        let prev = names_after(ls, n - 1);
        match rtpmap_attr(trim(ls[n - 1])) {
            Some(v) => match rtpmap_of(v) {
                Some(m) => prev.update(m.0 as int, Some(codec_name(m.1))),
                None => prev,
            },
            None => prev,
        }
    }
}

/// The payload types kept before any `m=audio` line is seen: those named
/// by an rtpmap whose lowercase name is `telephone-event` or allowed.
pub open spec fn keep_init(names: PtNames, allowed: Seq<Seq<char>>) -> Seq<bool> {
    Seq::new(
        256,
        |i: int|
            match names[i] {
                Some(n) => lowercase(n) == "telephone-event"@ || allowed.contains(lowercase(n)),
                None => false,
            },
    )
}

/// One format token of an `m=audio` line: a kept payload type survives; an
/// unmapped static payload type whose codec is allowed survives and is
/// kept from then on; other payload types are dropped; a non-numeric token
/// survives.
pub open spec fn fmt_step(names: PtNames, allowed: Seq<Seq<char>>, keep: Seq<bool>, surv: Seq<Seq<char>>, w: Seq<char>) -> (Seq<bool>, Seq<Seq<char>>) {
    match parse_uint_spec(w, 255) {
        Some(pt) => if keep[pt as int] {
            (keep, surv.push(w))
        } else if names[pt as int] is None && static_name(pt as u8) is Some && allowed.contains(
            static_name(pt as u8).unwrap(),
        ) {
            (keep.update(pt as int, true), surv.push(w))
        } else {
            (keep, surv)
        },
        None => (keep, surv.push(w)),
    }
}

/// The keep set and surviving tokens after the first `n` format tokens.
pub open spec fn fmt_fold(names: PtNames, allowed: Seq<Seq<char>>, keep: Seq<bool>, ws: Seq<Seq<char>>, n: int) -> (Seq<bool>, Seq<Seq<char>>)
    decreases n,
{
    if n <= 0 || n > ws.len() {
        (keep, seq![])
    } else {
        let prev = fmt_fold(names, allowed, keep, ws, n - 1);
        fmt_step(names, allowed, prev.0, prev.1, ws[n - 1])
    }
}

/// A surviving token names an audio codec other than telephone-event (by
/// its rtpmap name, else its static name).
pub open spec fn counts_as_codec(names: PtNames, w: Seq<char>) -> bool {
    match parse_uint_spec(w, 255) {
        Some(pt) => match names[pt as int] {
            Some(n) => n != "telephone-event"@,
            None => match static_name(pt as u8) {
                Some(n) => n != "telephone-event"@,
                None => false,
            },
        },
        None => false,
    }
}

/// The `port`, `proto` and format list of a trimmed `m=audio` line with at
/// least three spaces (`splitn(4, ' ')` yields four parts).
pub open spec fn m_audio_parts(t: Seq<char>) -> Option<(Seq<char>, Seq<char>, Seq<char>)> {
    if !has_prefix(t, "m=audio "@) {
        None
    } else {
        let a = first_from(t, ' ', 0);
        let b = first_from(t, ' ', a + 1);
        let c = first_from(t, ' ', b + 1);
        if a < t.len() && b < t.len() && c < t.len() {
            Some((t.subrange(a + 1, b), t.subrange(b + 1, c), t.subrange(c + 1, t.len() as int)))
        } else {
            None
        }
    }
}

/// A trimmed `a=rtpmap:` or `a=fmtp:` line whose payload type is not kept.
pub open spec fn stripped_attr(keep: Seq<bool>, t: Seq<char>) -> bool {
    let after = if has_prefix(t, "a=rtpmap:"@) {
        Some(t.subrange("a=rtpmap:"@.len() as int, t.len() as int))
    } else if has_prefix(t, "a=fmtp:"@) {
        Some(t.subrange("a=fmtp:"@.len() as int, t.len() as int))
    } else {
        None
    };
    match after {
        Some(a) => words_of(a).len() > 0 && match parse_uint_spec(words_of(a)[0], 255) {
            Some(pt) => !keep[pt as int],
            None => false,
        },
        None => false,
    }
}

/// The rewriting state: kept payload types, whether an audio codec has
/// survived so far, the output lines, and whether the offer was rejected.
pub struct FilterState {
    pub keep: Seq<bool>,
    pub has_codec: bool,
    pub out: Seq<Seq<char>>,
    pub rejected: bool,
}

/// One line of the rewrite. An `m=audio` line is rebuilt from its
/// surviving formats, and the offer is rejected when no audio codec other
/// than telephone-event has survived on any `m=audio` line so far; rtpmap
/// and fmtp lines of payload types not kept are dropped; every other line
/// is copied unchanged.
pub open spec fn line_step(names: PtNames, allowed: Seq<Seq<char>>, st: FilterState, line: Seq<char>) -> FilterState {
    if st.rejected {
        st
    } else {
        let t = trim(line);
        match m_audio_parts(t) {
            Some(parts) => {
                let ws = words_of(parts.2);
                let folded = fmt_fold(names, allowed, st.keep, ws, ws.len() as int);
                let any_codec = st.has_codec || exists|k: int|
                    0 <= k < folded.1.len() && counts_as_codec(names, #[trigger] folded.1[k]);
                if !any_codec {
                    FilterState { rejected: true, ..st }
                } else {
                    FilterState {
                        keep: folded.0,
                        has_codec: true,
                        out: st.out.push(
                            "m=audio "@ + parts.0 + " "@ + parts.1 + " "@ + join_seq(folded.1, " "@),
                        ),
                        rejected: false,
                    }
                }
            },
            None => if stripped_attr(st.keep, t) {
                st
            } else {
                FilterState { out: st.out.push(line), ..st }
            },
        }
    }
}

/// The rewriting state after the first `n` lines.
pub open spec fn filter_after(names: PtNames, allowed: Seq<Seq<char>>, ls: Seq<Seq<char>>, n: int) -> FilterState
    decreases n,
{
    if n <= 0 || n > ls.len() {
        FilterState { keep: keep_init(names, allowed), has_codec: false, out: seq![], rejected: false }
    } else {
        line_step(names, allowed, filter_after(names, allowed, ls, n - 1), ls[n - 1])
    }
}

/// The outcome of filtering `sdp` against `allowed`: the rewritten lines
/// joined with CRLF and ending in CRLF, or the rejection text.
pub open spec fn sdp_filter_of(sdp: Seq<char>, allowed: Seq<Seq<char>>) -> Result<Seq<char>, Seq<char>> {
    let ls = lines_of(sdp);
    let lower = allowed.map_values(|a: Seq<char>| lowercase(a));
    let names = names_after(ls, ls.len() as int);
    let st = filter_after(names, lower, ls, ls.len() as int);
    if st.rejected {
        Err("no codec overlap: allowed=["@ + join_seq(allowed, ","@) + "] vs offer PTs"@)
    } else {
        Ok(join_seq(st.out, "\r\n"@) + "\r\n"@)
    }
}

/// The views of a payload-type name table.
pub open spec fn names_view(v: Seq<Option<Vec<char>>>) -> PtNames {
    v.map_values(
        |o: Option<Vec<char>>|
            match o {
                Some(x) => Some(x@),
                None => None,
            },
    )
}

/// The payload-type names of the rtpmap lines.
fn rtpmap_names(ls: &Vec<Vec<char>>) -> (r: Vec<Option<Vec<char>>>)
    ensures
        names_view(r@) == names_after(views(ls@), ls@.len() as int),
        r@.len() == 256,
{
    let mut names: Vec<Option<Vec<char>>> = Vec::new();
    let mut k: usize = 0;
    while k < 256
        invariant
            k <= 256,
            names@.len() == k,
            forall|j: int| 0 <= j < k ==> names@[j] is None,
        decreases 256 - k,
    {
        names.push(None);
        k = k + 1;
    }
    assert(names_view(names@) =~= names_after(views(ls@), 0));
    let prefix = chars_of("a=rtpmap:");
    let mut i: usize = 0;
    while i < ls.len()
        invariant
            i <= ls@.len(),
            names@.len() == 256,
            prefix@ == "a=rtpmap:"@,
            names_view(names@) == names_after(views(ls@), i as int),
        decreases ls@.len() - i,
    {
        let t = trimmed(&ls[i]);
        assert(views(ls@)[i as int] == ls@[i as int]@);
        if starts_with(&t, &prefix) {
            let v = slice_of(&t, prefix.len(), t.len());
            match parse_rtpmap(&v) {
                Ok((pt, ct, _clock, _ch)) => {
                    let name = chars_of(codec_type_name(&ct));
                    let ghost before = names@;
                    names.set(pt as usize, Some(name));
                    assert(names_view(names@) =~= names_view(before).update(
                        pt as int,
                        Some(codec_name(ct)),
                    ));
                },
                Err(_) => {},
            }
        }
        i = i + 1;
    }
    names
}


/// The keep flags before any `m=audio` line.
fn initial_keep(names: &Vec<Option<Vec<char>>>, allowed: &Vec<Vec<char>>) -> (r: Vec<bool>)
    requires
        names@.len() == 256,
    ensures
        r@ == keep_init(names_view(names@), views(allowed@)),
{
    let te = chars_of("telephone-event");
    let mut keep: Vec<bool> = Vec::new();
    let mut i: usize = 0;
    while i < 256
        invariant
            i <= 256,
            names@.len() == 256,
            te@ == "telephone-event"@,
            keep@ == keep_init(names_view(names@), views(allowed@)).subrange(0, i as int),
        decreases 256 - i,
    {
        let k = match &names[i] {
            Some(n) => {
                let l = to_lowercase(n);
                eq_chars(&l, &te) || contains_entry(allowed, &l)
            },
            None => false,
        };
        keep.push(k);
        assert(keep@ =~= keep_init(names_view(names@), views(allowed@)).subrange(0, i + 1));
        i = i + 1;
    }
    keep
}

/// Filters the format tokens of an `m=audio` line, updating the keep flags.
fn filter_formats(
    names: &Vec<Option<Vec<char>>>,
    allowed: &Vec<Vec<char>>,
    keep: &mut Vec<bool>,
    ws: &Vec<Vec<char>>,
) -> (r: Vec<Vec<char>>)
    requires
        names@.len() == 256,
        old(keep)@.len() == 256,
    ensures
        final(keep)@.len() == 256,
        (final(keep)@, views(r@)) == fmt_fold(
            names_view(names@),
            views(allowed@),
            old(keep)@,
            views(ws@),
            ws@.len() as int,
        ),
{
    let ghost k0 = keep@;
    let mut surv: Vec<Vec<char>> = Vec::new();
    let mut i: usize = 0;
    while i < ws.len()
        invariant
            i <= ws@.len(),
            names@.len() == 256,
            keep@.len() == 256,
            (keep@, views(surv@)) == fmt_fold(
                names_view(names@),
                views(allowed@),
                k0,
                views(ws@),
                i as int,
            ),
        decreases ws@.len() - i,
    {
        let w = &ws[i];
        assert(views(ws@)[i as int] == w@);
        let ghost before = views(surv@);
        match parse_uint(w, 255) {
            Some(p) => {
                let pt = p as usize;
                if keep[pt] {
                    surv.push(copy_chars(w));
                    assert(views(surv@) =~= before.push(w@));
                } else {
                    let unmapped = names[pt].is_none();
                    assert(unmapped == (names_view(names@)[pt as int] is None));
                    if unmapped {
                        match static_pt_name(p as u8) {
                            Some(sn) => {
                                let snc = chars_of(sn);
                                if contains_entry(allowed, &snc) {
                                    keep.set(pt, true);
                                    surv.push(copy_chars(w));
                                    assert(views(surv@) =~= before.push(w@));
                                }
                            },
                            None => {},
                        }
                    }
                }
            },
            None => {
                surv.push(copy_chars(w));
                assert(views(surv@) =~= before.push(w@));
            },
        }
        i = i + 1;
    }
    surv
}

/// A copy of `v`.
fn copy_chars(v: &Vec<char>) -> (r: Vec<char>)
    ensures
        r@ == v@,
{
    slice_of(v, 0, v.len())
}

/// Whether a surviving token counts as an audio codec.
fn token_is_codec(names: &Vec<Option<Vec<char>>>, w: &Vec<char>) -> (r: bool)
    requires
        names@.len() == 256,
    ensures
        r == counts_as_codec(names_view(names@), w@),
{
    let te = chars_of("telephone-event");
    match parse_uint(w, 255) {
        Some(p) => {
            let pt = p as usize;
            match &names[pt] {
                Some(n) => !eq_chars(n, &te),
                None => match static_pt_name(p as u8) {
                    Some(sn) => {
                        let snc = chars_of(sn);
                        !eq_chars(&snc, &te)
                    },
                    None => false,
                },
            }
        },
        None => false,
    }
}

/// Whether some surviving token counts as an audio codec.
fn any_codec_token(names: &Vec<Option<Vec<char>>>, surv: &Vec<Vec<char>>) -> (r: bool)
    requires
        names@.len() == 256,
    ensures
        r == exists|k: int|
            0 <= k < views(surv@).len() && counts_as_codec(
                names_view(names@),
                #[trigger] views(surv@)[k],
            ),
{
    let mut i: usize = 0;
    while i < surv.len()
        invariant
            i <= surv@.len(),
            names@.len() == 256,
            forall|k: int|
                0 <= k < i ==> !counts_as_codec(names_view(names@), #[trigger] views(surv@)[k]),
        decreases surv@.len() - i,
    {
        assert(views(surv@)[i as int] == surv@[i as int]@);
        if token_is_codec(names, &surv[i]) {
            return true;
        }
        i = i + 1;
    }
    false
}

/// The port, proto and format list of a trimmed `m=audio` line.
fn m_audio_parts_of(t: &Vec<char>) -> (r: Option<(Vec<char>, Vec<char>, Vec<char>)>)
    ensures
        match m_audio_parts(t@) {
            Some(p) => r matches Some(q) && q.0@ == p.0 && q.1@ == p.1 && q.2@ == p.2,
            None => r is None,
        },
{
    let prefix = chars_of("m=audio ");
    if !starts_with(t, &prefix) {
        return None;
    }
    let a = find_from(t, ' ', 0);
    proof {
        lemma_first_from(t@, ' ', 0);
    }
    if a >= t.len() {
        return None;
    }
    let b = find_from(t, ' ', a + 1);
    proof {
        lemma_first_from(t@, ' ', a + 1);
    }
    if b >= t.len() {
        return None;
    }
    let c = find_from(t, ' ', b + 1);
    proof {
        lemma_first_from(t@, ' ', b + 1);
    }
    if c >= t.len() {
        return None;
    }
    Some((slice_of(t, a + 1, b), slice_of(t, b + 1, c), slice_of(t, c + 1, t.len())))
}

/// Whether a trimmed line is an rtpmap or fmtp attribute of a payload type
/// that is not kept.
fn is_stripped_attr(keep: &Vec<bool>, t: &Vec<char>) -> (r: bool)
    requires
        keep@.len() == 256,
    ensures
        r == stripped_attr(keep@, t@),
{
    let rtp = chars_of("a=rtpmap:");
    let fmtp = chars_of("a=fmtp:");
    let after = if starts_with(t, &rtp) {
        slice_of(t, rtp.len(), t.len())
    } else if starts_with(t, &fmtp) {
        slice_of(t, fmtp.len(), t.len())
    } else {
        return false;
    };
    let ws = split_whitespace(&after);
    if ws.len() == 0 {
        return false;
    }
    assert(views(ws@)[0] == ws@[0]@);
    match parse_uint(&ws[0], 255) {
        Some(p) => !keep[p as usize],
        None => false,
    }
}

/// The rejection text: `no codec overlap: allowed=[<allowed joined by ,>] vs offer PTs`.
fn rejection_text(allowed: &[String]) -> (r: String)
    ensures
        r@ == "no codec overlap: allowed=["@ + join_seq(
            allowed@.map_values(|a: String| a@),
            ","@,
        ) + "] vs offer PTs"@,
{
    let mut parts: Vec<Vec<char>> = Vec::new();
    let mut i: usize = 0;
    while i < allowed.len()
        invariant
            i <= allowed@.len(),
            views(parts@) == allowed@.map_values(|a: String| a@).subrange(0, i as int),
        decreases allowed@.len() - i,
    {
        let ghost before = views(parts@);
        let c = chars_of(allowed[i].as_str());
        assert(c@ == allowed@[i as int]@);
        parts.push(c);
        assert(views(parts@) =~= before.push(c@));
        assert(allowed@.map_values(|a: String| a@).subrange(0, i + 1) =~= allowed@.map_values(
            |a: String| a@,
        ).subrange(0, i as int).push(allowed@[i as int]@));
        i = i + 1;
    }
    assert(views(parts@) =~= allowed@.map_values(|a: String| a@));
    let mut msg = chars_of("no codec overlap: allowed=[");
    append(&mut msg, &join(&parts, &chars_of(",")));
    append(&mut msg, &chars_of("] vs offer PTs"));
    string_from_chars(&msg)
}


/// A rejected rewrite stays rejected.
pub proof fn lemma_rejection_persists(names: PtNames, allowed: Seq<Seq<char>>, ls: Seq<Seq<char>>, i: int, n: int)
    requires
        0 <= i <= n <= ls.len(),
        filter_after(names, allowed, ls, i).rejected,
    ensures
        filter_after(names, allowed, ls, n).rejected,
    decreases n - i,
{
    if i < n {
        lemma_rejection_persists(names, allowed, ls, i, n - 1);
    }
}

/// Filters an SDP offer down to the allowed codecs.
///
/// Payload types are named by the offer's `a=rtpmap` lines (well-known
/// static types by RFC 3551 when unmapped). Kept are payload types whose
/// codec is allowed (compared in lowercase) and telephone-event always.
/// Each `m=audio` line is rebuilt with its surviving formats; rtpmap and
/// fmtp lines of dropped payload types are removed; other lines are kept
/// as they are. Lines are rejoined with CRLF. The offer is rejected with a
/// `no codec overlap` message when an `m=audio` line is reached and no
/// audio codec other than telephone-event has survived.
pub fn filter_sdp_codecs(sdp: &str, allowed: &[String]) -> (r: Result<String, String>)
    ensures
        match sdp_filter_of(sdp@, allowed@.map_values(|a: String| a@)) {
            Ok(s) => r matches Ok(x) && x@ == s,
            Err(e) => r matches Err(x) && x@ == e,
        },
{
    let ghost av = allowed@.map_values(|a: String| a@);
    let mut lower: Vec<Vec<char>> = Vec::new();
    let mut j: usize = 0;
    while j < allowed.len()
        invariant
            j <= allowed@.len(),
            av == allowed@.map_values(|a: String| a@),
            views(lower@) == av.map_values(|a: Seq<char>| lowercase(a)).subrange(0, j as int),
        decreases allowed@.len() - j,
    {
        let ghost before = views(lower@);
        let l = to_lowercase(&chars_of(allowed[j].as_str()));
        lower.push(l);
        assert(views(lower@) =~= before.push(l@));
        assert(av.map_values(|a: Seq<char>| lowercase(a)).subrange(0, j + 1) =~= av.map_values(
            |a: Seq<char>| lowercase(a),
        ).subrange(0, j as int).push(lowercase(av[j as int])));
        j = j + 1;
    }
    assert(views(lower@) =~= av.map_values(|a: Seq<char>| lowercase(a)));
    let text = chars_of(sdp);
    let ls = lines(&text);
    let ghost lv = views(ls@);
    let names = rtpmap_names(&ls);
    let ghost nv = names_view(names@);
    let ghost lowv = views(lower@);
    let mut keep = initial_keep(&names, &lower);
    let mut has_codec = false;
    let mut out: Vec<Vec<char>> = Vec::new();
    assert(views(out@) =~= Seq::<Seq<char>>::empty());
    let mut i: usize = 0;
    while i < ls.len()
        invariant
            i <= ls@.len(),
            lv == views(ls@),
            lv.len() == ls@.len(),
            lv == lines_of(sdp@),
            names@.len() == 256,
            nv == names_view(names@),
            nv == names_after(lv, lv.len() as int),
            lowv == views(lower@),
            lowv == av.map_values(|a: Seq<char>| lowercase(a)),
            av == allowed@.map_values(|a: String| a@),
            keep@.len() == 256,
            (FilterState { keep: keep@, has_codec, out: views(out@), rejected: false })
                == filter_after(nv, lowv, lv, i as int),
        decreases ls@.len() - i,
    {
        let line = &ls[i];
        assert(lv[i as int] == line@);
        let t = trimmed(line);
        let ghost st = filter_after(nv, lowv, lv, i as int);
        let ghost before = views(out@);
        match m_audio_parts_of(&t) {
            Some((port, proto, fmts)) => {
                let ws = split_whitespace(&fmts);
                let surv = filter_formats(&names, &lower, &mut keep, &ws);
                let any = has_codec || any_codec_token(&names, &surv);
                if !any {
                    proof {
                        lemma_rejection_persists(nv, lowv, lv, i + 1, lv.len() as int);
                    }
                    return Err(rejection_text(allowed));
                }
                let mut m = chars_of("m=audio ");
                append(&mut m, &port);
                append(&mut m, &chars_of(" "));
                append(&mut m, &proto);
                append(&mut m, &chars_of(" "));
                append(&mut m, &join(&surv, &chars_of(" ")));
                out.push(m);
                has_codec = true;
                assert(views(out@) =~= before.push(m@));
            },
            None => {
                if !is_stripped_attr(&keep, &t) {
                    out.push(copy_chars(line));
                    assert(views(out@) =~= before.push(line@));
                }
            },
        }
        i = i + 1;
    }
    let mut joined = join(&out, &chars_of("\r\n"));
    append(&mut joined, &chars_of("\r\n"));
    Ok(string_from_chars(&joined))
}

} // verus!
