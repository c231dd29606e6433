//! The Candle Phi-3 offline LLM tier: request budget and prompt template.

use vstd::prelude::*;
use crate::offline::{history_view, ChatMessage};
use crate::text::{append, chars_of, string_from_chars};

verus! {

/// Per-request budget of the offline LLM.
#[derive(Debug, Clone, Copy, PartialEq, Eq, Structural)]
pub struct CandleBudget {
    /// Largest number of generated tokens.
    pub max_tokens: usize,
    /// Wall-clock limit of one inference, in milliseconds.
    pub max_inference: u64,
}

impl Default for CandleBudget {
    /// 256 tokens, 15 seconds.
    fn default() -> (r: Self)
        ensures
            r == (CandleBudget { max_tokens: 256, max_inference: 15_000 }),
    {
        CandleBudget { max_tokens: 256, max_inference: 15_000 }
    }
}

/// Provider routing LLM requests to the in-process Phi-3 model.
#[derive(Debug, Clone, Copy, PartialEq, Eq, Structural)]
pub struct CandlePhi3Provider {
    pub budget: CandleBudget,
}

/// The Phi-3 role tag of a message role: system, assistant, and user for
/// any other role.
pub open spec fn phi3_tag(role: Seq<char>) -> Seq<char> {
    if role == "system"@ {
        "<|system|>"@
    } else if role == "assistant"@ {
        "<|assistant|>"@
    } else {
        "<|user|>"@
    }
}

/// The Phi-3 chat template of the first `n` turns.
pub open spec fn phi3_turns(h: Seq<(Seq<char>, Seq<char>)>, n: int) -> Seq<char>
    decreases n,
{
    if n <= 0 || n > h.len() {
        seq![]
    } else {
        phi3_turns(h, n - 1) + phi3_tag(h[n - 1].0) + "\n"@ + h[n - 1].1 + "<|end|>\n"@
    }
}

impl CandlePhi3Provider {
    /// A provider with the default budget.
    pub fn new() -> (r: Self)
        ensures
            r.budget == (CandleBudget { max_tokens: 256, max_inference: 15_000 }),
    {
        CandlePhi3Provider { budget: CandleBudget::default() }
    }

    /// A provider with the given budget.
    pub fn with_budget(budget: CandleBudget) -> (r: Self)
        ensures
            r.budget == budget,
    {
        CandlePhi3Provider { budget }
    }

    /// Renders the chat history in Phi-3's template, ending with the open
    /// assistant turn.
    pub fn render_prompt(history: &[ChatMessage]) -> (r: String)
        ensures
            r@ == phi3_turns(history_view(history@), history@.len() as int) + "<|assistant|>\n"@,
    {
        let ghost hv = history_view(history@);
        let mut s: Vec<char> = Vec::new();
        let mut i: usize = 0;
        while i < history.len()
            invariant
                i <= history@.len(),
                hv == history_view(history@),
                s@ == phi3_turns(hv, i as int),
            decreases history@.len() - i,
        {
            let role = chars_of(history[i].role.as_str());
            let tag = if crate::text::is_text(&role, "system") {
                chars_of("<|system|>")
            } else if crate::text::is_text(&role, "assistant") {
                chars_of("<|assistant|>")
            } else {
                chars_of("<|user|>")
            };
            append(&mut s, &tag);
            append(&mut s, &chars_of("\n"));
            append(&mut s, &chars_of(history[i].content.as_str()));
            append(&mut s, &chars_of("<|end|>\n"));
            i = i + 1;
        }
        append(&mut s, &chars_of("<|assistant|>\n"));
        string_from_chars(&s)
    }
}


/// Milliseconds from `started` to `now` (none when `now` is earlier).
pub open spec fn elapsed_ms(now: u64, started: u64) -> u64 {
    if now >= started {
        (now - started) as u64
    } else {
        0
    }
}

/// The end-of-turn token of the Phi-3 tokenizer: `<|end|>` when it has
/// one, else `<|endoftext|>`, else token 2.
pub fn phi3_eos(end: Option<u32>, endoftext: Option<u32>) -> (r: u32)
    ensures
        r == match end {
            Some(e) => e,
            None => match endoftext {
                Some(t) => t,
                None => 2,
            },
        },
{
    match end {
        Some(e) => e,
        None => match endoftext {
            Some(t) => t,
            None => 2,
        },
    }
}

/// The control of a Phi-3 generation: tokens generated so far (the first
/// comes from the prompt pass), the next position in the sequence, and the
/// start time (Unix milliseconds).
#[derive(Debug, Clone, Copy, PartialEq, Eq, Structural)]
pub struct Phi3Decode {
    pub generated: usize,
    pub index_pos: usize,
    pub started: u64,
}

impl Phi3Decode {
    /// Starts a generation over a prompt of `prompt_len` tokens, whose
    /// first token the prompt pass produced; an empty prompt is an error.
    pub fn start(prompt_len: usize, started: u64) -> (r: Result<Self, String>)
        ensures
            prompt_len == 0 <==> r is Err,
            r matches Err(e) ==> e@ == "phi3: empty prompt after tokenization"@,
            r matches Ok(d) ==> d == (Phi3Decode { generated: 1, index_pos: prompt_len, started }),
    {
        if prompt_len == 0 {
            Err("phi3: empty prompt after tokenization".to_owned())
        } else {
            Ok(Phi3Decode { generated: 1, index_pos: prompt_len, started })
        }
    }

    /// After the last token `last`: the position to run the next token at,
    /// or `None` when generation stops (the token budget is used, the time
    /// budget is spent, or `last` ends the turn).
    pub fn next(&mut self, now: u64, last: u32, eos: u32, budget: CandleBudget) -> (r: Option<usize>)
        requires
            old(self).index_pos < usize::MAX,
        ensures
            (old(self).generated >= budget.max_tokens || elapsed_ms(now, old(self).started)
                >= budget.max_inference || last == eos) ==> r is None && *final(self) == *old(self),
            !(old(self).generated >= budget.max_tokens || elapsed_ms(now, old(self).started)
                >= budget.max_inference || last == eos) ==> r == Some(old(self).index_pos) && *final(self) == (Phi3Decode {
                generated: (old(self).generated + 1) as usize,
                index_pos: (old(self).index_pos + 1) as usize,
                ..*old(self)
            }),
    {
        if self.generated >= budget.max_tokens {
            return None;
        }
        let elapsed = if now >= self.started {
            now - self.started
        } else {
            0
        };
        if elapsed >= budget.max_inference {
            return None;
        }
        if last == eos {
            return None;
        }
        let pos = self.index_pos;
        self.index_pos = self.index_pos + 1;
        self.generated = self.generated + 1;
        Some(pos)
    }
}

/// The token to detokenize and hand on after a step: the new token,
/// unless there is none or it ends the turn.
pub fn token_to_emit(next: Option<u32>, eos: u32) -> (r: Option<u32>)
    ensures
        r == match next {
            Some(id) => if id == eos {
                None
            } else {
                Some(id)
            },
            None => None,
        },
{
    match next {
        Some(id) => if id == eos {
            None
        } else {
            Some(id)
        },
        None => None,
    }
}

/// How to bring a logits tensor down to one vector over the vocabulary.
#[derive(Debug, Clone, Copy, PartialEq, Eq, Structural)]
pub enum LogitsSqueeze {
    /// A `(1, seq, vocab)` prompt pass: take this (the last) position and
    /// drop the batch axis.
    LastPosition(usize),
    /// A `(1, vocab)` step: drop the batch axis.
    DropBatch,
    /// Any other shape: leave it as it is.
    Keep,
}

/// The squeeze for a logits tensor of shape `dims`.
pub fn logits_squeeze(dims: &[usize]) -> (r: LogitsSqueeze)
    requires
        dims@.len() == 3 ==> dims@[1] > 0,
    ensures
        dims@.len() == 3 ==> r == LogitsSqueeze::LastPosition((dims@[1] - 1) as usize),
        dims@.len() == 2 ==> r == LogitsSqueeze::DropBatch,
        dims@.len() != 3 && dims@.len() != 2 ==> r == LogitsSqueeze::Keep,
{
    if dims.len() == 3 {
        LogitsSqueeze::LastPosition(dims[1] - 1)
    } else if dims.len() == 2 {
        LogitsSqueeze::DropBatch
    } else {
        LogitsSqueeze::Keep
    }
}

} // verus!
