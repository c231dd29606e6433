//! The scan of playbook provider chains for offline-model references:
//! which playbooks to load, where they are, and which offline models
//! their chains name.

use vstd::prelude::*;
use crate::offline::OfflineModelKind;
use crate::text::{append, ascii_lower_seq, chars_of, has_prefix, is_text, starts_with, string_from_chars, to_ascii_lowercase};

verus! {

/// Names (ASCII-case-insensitive) of the Candle Phi-3 provider: `phi3`,
/// `phi-3`, `candle`, `offline-llm`.
pub open spec fn offline_llm_alias(name: Seq<char>) -> bool {
    let l = ascii_lower_seq(name);
    l == "phi3"@ || l == "phi-3"@ || l == "candle"@ || l == "offline-llm"@
}

/// Names (ASCII-case-insensitive) of the llama.cpp Gemma 4 provider:
/// `gemma4`, `gemma-4`, `gemma`.
pub open spec fn offline_gemma4_alias(name: Seq<char>) -> bool {
    let l = ascii_lower_seq(name);
    l == "gemma4"@ || l == "gemma-4"@ || l == "gemma"@
}

/// Whether `name` designates the in-process Candle LLM.
pub fn is_offline_llm_provider(name: &str) -> (r: bool)
    ensures
        r == offline_llm_alias(name@),
{
    let l = to_ascii_lowercase(&chars_of(name));
    is_text(&l, "phi3") || is_text(&l, "phi-3") || is_text(&l, "candle") || is_text(&l, "offline-llm")
}

/// Whether `name` designates the in-process Gemma 4 model.
pub fn is_offline_gemma4_provider(name: &str) -> (r: bool)
    ensures
        r == offline_gemma4_alias(name@),
{
    let l = to_ascii_lowercase(&chars_of(name));
    is_text(&l, "gemma4") || is_text(&l, "gemma-4") || is_text(&l, "gemma")
}


/// The playbooks to scan: the default one first, then each rule's.
pub fn playbook_names(default: &Option<String>, rules: &Option<Vec<String>>) -> (r: Vec<String>)
    ensures
        r@.map_values(|s: String| s@) == (match default {
            Some(d) => seq![d@],
            None => Seq::<Seq<char>>::empty(),
        }) + (match rules {
            Some(v) => v@.map_values(|s: String| s@),
            None => Seq::<Seq<char>>::empty(),
        }),
{
    let mut r: Vec<String> = Vec::new();
    if let Some(d) = default {
        r.push(d.clone());
    }
    let ghost base = r@.map_values(|s: String| s@);
    assert(base =~= (match default {
        Some(d) => seq![d@],
        None => Seq::<Seq<char>>::empty(),
    }));
    if let Some(v) = rules {
        let mut i: usize = 0;
        while i < v.len()
            invariant
                i <= v@.len(),
                r@.map_values(|s: String| s@) == base + v@.subrange(0, i as int).map_values(|s: String| s@),
            decreases v@.len() - i,
        {
            let ghost before = r@;
            r.push(v[i].clone());
            assert(r@.map_values(|s: String| s@) =~= before.map_values(|s: String| s@).push(v@[i as int]@));
            assert(v@.subrange(0, i + 1).map_values(|s: String| s@) =~= v@.subrange(0, i as int).map_values(|s: String| s@).push(v@[i as int]@));
            i = i + 1;
        }
        assert(v@.subrange(0, i as int) =~= v@);
    }
    assert(r@.map_values(|s: String| s@) =~= (match default {
        Some(d) => seq![d@],
        None => Seq::<Seq<char>>::empty(),
    }) + (match rules {
        Some(v) => v@.map_values(|s: String| s@),
        None => Seq::<Seq<char>>::empty(),
    }));
    r
}

/// Where a playbook named `name` is: the name itself when it is absolute
/// or already under `config/playbook/`, else the name under `base` (joined
/// with one `/`, none when `base` is empty or ends with one).
pub open spec fn playbook_path(name: Seq<char>, base: Seq<char>) -> Seq<char> {
    if has_prefix(name, "/"@) || has_prefix(name, "config/playbook/"@) {
        name
    } else if base.len() == 0 || base.last() == '/' {
        base + name
    } else {
        base + "/"@ + name
    }
}

/// Resolves the path of a playbook.
pub fn resolve_playbook_path(name: &str, base: &str) -> (r: String)
    ensures
        r@ == playbook_path(name@, base@),
{
    let n = chars_of(name);
    if starts_with(&n, &chars_of("/")) || starts_with(&n, &chars_of("config/playbook/")) {
        return name.to_owned();
    }
    let mut v = chars_of(base);
    if v.len() > 0 && v[v.len() - 1] != '/' {
        append(&mut v, &chars_of("/"));
    }
    append(&mut v, &n);
    string_from_chars(&v)
}

/// Adds `kind` to `refs` unless it is there.
fn add_ref(refs: &mut Vec<OfflineModelKind>, kind: OfflineModelKind)
    ensures
        final(refs)@.to_set() == old(refs)@.to_set().insert(kind),
        old(refs)@.no_duplicates() ==> final(refs)@.no_duplicates(),
{
    let mut i: usize = 0;
    while i < refs.len()
        invariant
            i <= refs@.len(),
            forall|j: int| 0 <= j < i ==> refs@[j] != kind,
        decreases refs@.len() - i,
    {
        if refs[i] == kind {
            assert(refs@.to_set() =~= refs@.to_set().insert(kind));
            return;
        }
        i = i + 1;
    }
    let ghost before = refs@;
    refs.push(kind);
    assert(refs@.to_set() =~= before.to_set().insert(kind)) by {
        assert forall|x: OfflineModelKind| refs@.to_set().contains(x) <==> before.to_set().insert(kind).contains(x) by {
            if x != kind && refs@.contains(x) {
                let k = choose|k: int| 0 <= k < refs@.len() && refs@[k] == x;
                assert(before[k] == x);
            }
            if before.contains(x) {
                let k = choose|k: int| 0 <= k < before.len() && before[k] == x;
                assert(refs@[k] == x);
            }
            if x == kind {
                assert(refs@[before.len() as int] == kind);
            }
        }
    }
}

/// The offline models one playbook's chains name: SenseVoice when its
/// recognition chain has it, Supertonic when its synthesis chain has it,
/// the offline LLM when an LLM provider name is one of its aliases.
pub open spec fn playbook_refs(asr_sensevoice: bool, tts_supertonic: bool, llm_names: Seq<Seq<char>>) -> Set<OfflineModelKind> {
    Set::new(|k: OfflineModelKind| match k {
        OfflineModelKind::Sensevoice => asr_sensevoice,
        OfflineModelKind::Supertonic => tts_supertonic,
        OfflineModelKind::Llm => exists|i: int| 0 <= i < llm_names.len() && offline_llm_alias(#[trigger] llm_names[i]),
    })
}

/// Adds the offline models one playbook's chains name to `refs`.
pub fn add_playbook_refs(refs: &mut Vec<OfflineModelKind>, asr_sensevoice: bool, tts_supertonic: bool, llm_names: &[String])
    requires
        old(refs)@.no_duplicates(),
    ensures
        final(refs)@.no_duplicates(),
        final(refs)@.to_set() == old(refs)@.to_set().union(playbook_refs(asr_sensevoice, tts_supertonic, llm_names@.map_values(|s: String| s@))),
{
    let ghost start = refs@.to_set();
    let ghost names = llm_names@.map_values(|s: String| s@);
    if asr_sensevoice {
        add_ref(refs, OfflineModelKind::Sensevoice);
    }
    if tts_supertonic {
        add_ref(refs, OfflineModelKind::Supertonic);
    }
    let mut found = false;
    let mut i: usize = 0;
    while i < llm_names.len()
        invariant
            i <= llm_names@.len(),
            names == llm_names@.map_values(|s: String| s@),
            found == exists|j: int| 0 <= j < i && offline_llm_alias(#[trigger] names[j]),
        decreases llm_names@.len() - i,
    {
        if is_offline_llm_provider(llm_names[i].as_str()) {
            assert(offline_llm_alias(names[i as int]));
            found = true;
        }
        i = i + 1;
    }
    if found {
        add_ref(refs, OfflineModelKind::Llm);
    }
    assert(refs@.to_set() =~= start.union(playbook_refs(asr_sensevoice, tts_supertonic, names)));
}

} // verus!
