//! Offline (in-process) model tiers: model kinds, provider aliases, chat
//! prompt templates, and the start-up checks of the referenced models.

pub mod candle;
pub mod llama_gemma4;
pub mod scan;

use vstd::prelude::*;

verus! {

/// An offline model that can be initialised eagerly at startup.
#[derive(Debug, Clone, Copy, PartialEq, Eq, Hash, Structural)]
pub enum OfflineModelKind {
    Sensevoice,
    Supertonic,
    Llm,
}

/// The name of a model kind.
pub open spec fn kind_name(k: OfflineModelKind) -> Seq<char> {
    match k {
        OfflineModelKind::Sensevoice => "sensevoice"@,
        OfflineModelKind::Supertonic => "supertonic"@,
        OfflineModelKind::Llm => "llm"@,
    }
}

impl OfflineModelKind {
    /// `sensevoice`, `supertonic` or `llm`.
    pub fn as_str(&self) -> (r: &'static str)
        ensures
            r@ == kind_name(*self),
    {
        match self {
            OfflineModelKind::Sensevoice => "sensevoice",
            OfflineModelKind::Supertonic => "supertonic",
            OfflineModelKind::Llm => "llm",
        }
    }
}

/// One turn of a chat history.
#[derive(Debug, Clone, PartialEq)]
pub struct ChatMessage {
    pub role: String,
    pub content: String,
}

/// The views of the roles and contents of a chat history.
pub open spec fn history_view(h: Seq<ChatMessage>) -> Seq<(Seq<char>, Seq<char>)> {
    h.map_values(|m: ChatMessage| (m.role@, m.content@))
}

/// Installs the process's offline models into `slot`, once: a second
/// installation is refused and leaves the first in place.
pub fn init_offline_models<T>(slot: &mut Option<T>, models: T) -> (r: Result<(), String>)
    ensures
        (*old(slot)) is None ==> r is Ok && *final(slot) == Some(models),
        (*old(slot)) is Some ==> *final(slot) == *old(slot) && (r matches Err(m) && m@
            == "offline models already initialized"@),
{
    if slot.is_some() {
        return Err("offline models already initialized".to_owned());
    }
    *slot = Some(models);
    Ok(())
}

/// The installed offline models, if any.
pub fn get_offline_models<T>(slot: &Option<T>) -> (r: Option<&T>)
    ensures
        r == match slot {
            Some(m) => Some(m),
            None => None::<&T>,
        },
{
    match slot {
        Some(m) => Some(m),
        None => None,
    }
}

/// The start-up refusal for a referenced model whose files are missing
/// from `dir`.
pub open spec fn missing_model_message(kind: OfflineModelKind, dir: Seq<char>) -> Seq<char> {
    match kind {
        OfflineModelKind::Sensevoice => "Referenced offline model 'sensevoice' is missing files at "@
            + dir + ". Run with --download-models sensevoice or remove sensevoice from playbook ASR provider chains."@,
        OfflineModelKind::Supertonic => "Referenced offline model 'supertonic' is missing files at "@
            + dir + ". Run with --download-models supertonic or remove supertonic from playbook TTS provider chains."@,
        OfflineModelKind::Llm => "Referenced offline model 'llm' (Phi-3) is missing files at "@ + dir
            + ". Run with --download-models llm or remove phi3 from playbook LLM provider chains."@,
    }
}

/// The start-up check of a model that a playbook provider chain
/// references: fine when its files are present, else the refusal naming
/// the model directory `dir`, which stops start-up.
pub fn check_referenced_model(kind: OfflineModelKind, available: bool, dir: &str) -> (r: Result<(), String>)
    ensures
        available <==> r is Ok,
        r matches Err(m) ==> m@ == missing_model_message(kind, dir@),
{
    if available {
        return Ok(());
    }
    let (head, tail) = match kind {
        OfflineModelKind::Sensevoice => (
            "Referenced offline model 'sensevoice' is missing files at ",
            ". Run with --download-models sensevoice or remove sensevoice from playbook ASR provider chains.",
        ),
        OfflineModelKind::Supertonic => (
            "Referenced offline model 'supertonic' is missing files at ",
            ". Run with --download-models supertonic or remove supertonic from playbook TTS provider chains.",
        ),
        OfflineModelKind::Llm => (
            "Referenced offline model 'llm' (Phi-3) is missing files at ",
            ". Run with --download-models llm or remove phi3 from playbook LLM provider chains.",
        ),
    };
    let mut v = crate::text::chars_of(head);
    crate::text::append(&mut v, &crate::text::chars_of(dir));
    crate::text::append(&mut v, &crate::text::chars_of(tail));
    Err(crate::text::string_from_chars(&v))
}

} // verus!
