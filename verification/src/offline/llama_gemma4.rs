//! The llama.cpp Gemma 4 offline LLM tier: request budget and prompt
//! template.

use vstd::prelude::*;
use crate::offline::{history_view, ChatMessage};
use crate::text::{append, chars_of, string_from_chars};

verus! {

/// Per-request budget of the Gemma 4 model.
#[derive(Debug, Clone, Copy, PartialEq, Eq, Structural)]
pub struct Gemma4Budget {
    /// Largest number of generated tokens.
    pub max_tokens: usize,
    /// Wall-clock limit of one generation, in milliseconds.
    pub max_inference: u64,
    /// Context window in tokens (prompt and generation).
    pub ctx_size: u32,
}

impl Default for Gemma4Budget {
    /// 512 tokens, 30 seconds, a 2048-token context.
    fn default() -> (r: Self)
        ensures
            r == (Gemma4Budget { max_tokens: 512, max_inference: 30_000, ctx_size: 2048 }),
    {
        Gemma4Budget { max_tokens: 512, max_inference: 30_000, ctx_size: 2048 }
    }
}

/// Provider routing LLM requests to the in-process Gemma 4 model.
#[derive(Debug, Clone, Copy, PartialEq, Eq, Structural)]
pub struct LlamaGemma4Provider {
    pub budget: Gemma4Budget,
}

/// The Gemma role of a message role: `model` for assistant, `user` otherwise.
pub open spec fn gemma_role(role: Seq<char>) -> Seq<char> {
    if role == "assistant"@ {
        "model"@
    } else {
        "user"@
    }
}

/// The Gemma chat template of the first `n` turns.
pub open spec fn gemma_turns(h: Seq<(Seq<char>, Seq<char>)>, n: int) -> Seq<char>
    decreases n,
{
    if n <= 0 || n > h.len() {
        seq![]
    } else {
        gemma_turns(h, n - 1) + "<start_of_turn>"@ + gemma_role(h[n - 1].0) + "\n"@ + h[n - 1].1
            + "<end_of_turn>\n"@
    }
}

impl LlamaGemma4Provider {
    /// A provider with the default budget.
    pub fn new() -> (r: Self)
        ensures
            r.budget == (Gemma4Budget { max_tokens: 512, max_inference: 30_000, ctx_size: 2048 }),
    {
        LlamaGemma4Provider { budget: Gemma4Budget::default() }
    }

    /// A provider with the given budget.
    pub fn with_budget(budget: Gemma4Budget) -> (r: Self)
        ensures
            r.budget == budget,
    {
        LlamaGemma4Provider { budget }
    }

    /// Renders the chat history in Gemma's template, ending with the open
    /// model turn.
    pub fn render_prompt(history: &[ChatMessage]) -> (r: String)
        ensures
            r@ == gemma_turns(history_view(history@), history@.len() as int)
                + "<start_of_turn>model\n"@,
    {
        let ghost hv = history_view(history@);
        let mut s: Vec<char> = Vec::new();
        let mut i: usize = 0;
        while i < history.len()
            invariant
                i <= history@.len(),
                hv == history_view(history@),
                s@ == gemma_turns(hv, i as int),
            decreases history@.len() - i,
        {
            let role = chars_of(history[i].role.as_str());
            let r = if crate::text::is_text(&role, "assistant") {
                chars_of("model")
            } else {
                chars_of("user")
            };
            append(&mut s, &chars_of("<start_of_turn>"));
            append(&mut s, &r);
            append(&mut s, &chars_of("\n"));
            append(&mut s, &chars_of(history[i].content.as_str()));
            append(&mut s, &chars_of("<end_of_turn>\n"));
            i = i + 1;
        }
        append(&mut s, &chars_of("<start_of_turn>model\n"));
        string_from_chars(&s)
    }
}


/// The control of a Gemma 4 generation: tokens generated so far, the next
/// position in the sequence, and the start time (Unix milliseconds).
#[derive(Debug, Clone, Copy, PartialEq, Eq, Structural)]
pub struct Gemma4Decode {
    pub generated: usize,
    pub n_cur: usize,
    pub started: u64,
}

impl Gemma4Decode {
    /// Starts a generation over a prompt of `prompt_len` tokens; an empty
    /// prompt is an error.
    pub fn start(prompt_len: usize, started: u64) -> (r: Result<Self, String>)
        ensures
            prompt_len == 0 <==> r is Err,
            r matches Err(e) ==> e@ == "gemma4: empty token sequence after tokenization"@,
            r matches Ok(d) ==> d == (Gemma4Decode { generated: 0, n_cur: prompt_len, started }),
    {
        if prompt_len == 0 {
            Err("gemma4: empty token sequence after tokenization".to_owned())
        } else {
            Ok(Gemma4Decode { generated: 0, n_cur: prompt_len, started })
        }
    }

    /// Whether another token may be sampled at `now`: the token budget is
    /// not used up and the time budget not spent.
    pub fn may_sample(&self, now: u64, budget: Gemma4Budget) -> (r: bool)
        ensures
            r == (self.generated < budget.max_tokens && crate::offline::candle::elapsed_ms(now, self.started)
                < budget.max_inference),
    {
        let elapsed = if now >= self.started {
            now - self.started
        } else {
            0
        };
        self.generated < budget.max_tokens && elapsed < budget.max_inference
    }

    /// The sampled `token`: `None` when it ends the sequence, else the
    /// position to run it at (emitting its text first).
    pub fn on_token(&mut self, token: i32, eos: i32) -> (r: Option<usize>)
        requires
            old(self).generated < usize::MAX,
            old(self).n_cur < usize::MAX,
        ensures
            token == eos ==> r is None && *final(self) == *old(self),
            token != eos ==> r == Some(old(self).n_cur) && *final(self) == (Gemma4Decode {
                generated: (old(self).generated + 1) as usize,
                n_cur: (old(self).n_cur + 1) as usize,
                ..*old(self)
            }),
    {
        if token == eos {
            return None;
        }
        let pos = self.n_cur;
        self.n_cur = self.n_cur + 1;
        self.generated = self.generated + 1;
        Some(pos)
    }
}

} // verus!
