//! The generation engine: the autoregressive loop over the model slot.
//!
//! One call encodes the prompt, then repeatedly feeds the backend —
//! the whole prompt on the first step, the single newest token after
//! that — applies the sampling policy to the returned logits, and
//! collects each decoded fragment in order.  The loop stops at the
//! end-of-sequence token or after `max_tokens` steps, whichever comes
//! first.
//!
//! Generation runs as a session: `ModelSlot::begin_generation` borrows
//! the installed instance, `GenerationSession::step` advances one token
//! and hands out the decoded fragment at once, and `finish` reinstalls
//! the instance.  `ModelSlot::generate` drives a whole session in one
//! call; a streaming caller drains the session itself and acts on every
//! fragment before the next forward pass runs.

use vstd::prelude::*;
use vstd::slice::slice_subrange;

use crate::backend;
use crate::errors::EngineError;
use crate::model::{lemma_same_parts, ModelSlot, SmolLM2Model};
use crate::params::{GenerationParams, REPEAT_PENALTY_DISABLED_BITS};
use crate::tok;

verus! {

/// Token id assumed to mark the end of a sequence when the tokenizer
/// knows neither end marker.
pub const FALLBACK_EOS_TOKEN: u32 = 2;

/// The result of one `generate` call: the fragments in emission order,
/// their concatenation, and how the loop ended.
pub struct GenerationOutput {
    /// The full generated text.
    pub text: String,
    /// Every decoded fragment, in the order it was produced.
    pub fragments: Vec<String>,
    /// How many tokens were generated and appended to the history.
    pub tokens_generated: usize,
    /// Whether the loop stopped on the end-of-sequence token.
    pub eos_reached: bool,
}

/// The concatenation of a sequence of text fragments, in order.
pub open spec fn concat_fragments(frags: Seq<Seq<char>>) -> Seq<char>
    decreases frags.len(),
{
    if frags.len() == 0 {
        Seq::empty()
    } else {
        concat_fragments(frags.drop_last()) + frags.last()
    }
}

/// The fragment vector as a sequence of character sequences.
pub open spec fn fragment_views(frags: Seq<String>) -> Seq<Seq<char>> {
    frags.map_values(|f: String| f@)
}

/// Law (streaming order): the fragments handed out, concatenated in
/// emission order, are exactly the returned full text.
pub open spec fn streaming_consistent(out: GenerationOutput) -> bool {
    out.text@ == concat_fragments(fragment_views(out.fragments@))
}

/// Law (termination bound): never more than `max_tokens` tokens, and
/// strictly fewer only when the end-of-sequence token was produced.
pub open spec fn bounded_by_max(out: GenerationOutput, max_tokens: usize) -> bool {
    &&& out.tokens_generated <= max_tokens
    &&& (out.tokens_generated < max_tokens ==> out.eos_reached)
}

/// The end-of-sequence id: the primary marker's id, else the secondary
/// marker's id, else the fixed fallback.
pub open spec fn resolve_eos_spec(primary: Option<u32>, secondary: Option<u32>) -> u32 {
    if primary is Some {
        primary->0
    } else if secondary is Some {
        secondary->0
    } else {
        FALLBACK_EOS_TOKEN
    }
}

/// What the engine does with a sampled token: stop at the
/// end-of-sequence id without appending it, append anything else.
pub enum StepAction {
    /// The end-of-sequence token was produced: the loop is done.
    Stop,
    /// An ordinary token: append it to the history and decode it.
    Append(u32),
}

/// The decision the loop owes the sampled token.
pub open spec fn decide_step_spec(next_token: u32, eos_token: u32) -> StepAction {
    if next_token == eos_token {
        StepAction::Stop
    } else {
        StepAction::Append(next_token)
    }
}

/// Decide what one sampled token does to the session.
pub fn decide_step(next_token: u32, eos_token: u32) -> (r: StepAction)
    ensures
        r == decide_step_spec(next_token, eos_token),
{
    if next_token == eos_token {
        StepAction::Stop
    } else {
        StepAction::Append(next_token)
    }
}

/// Pick the end-of-sequence id from the two marker lookups.
pub fn resolve_eos_token(primary: Option<u32>, secondary: Option<u32>) -> (r: u32)
    ensures
        r == resolve_eos_spec(primary, secondary),
{
    match primary {
        Some(id) => id,
        None => match secondary {
            Some(id) => id,
            None => FALLBACK_EOS_TOKEN,
        },
    }
}

/// Where the backend input starts in the history: position zero on the
/// first step (the whole prompt), the last position afterwards (the
/// single newest token), so prior context is never recomputed.
pub fn context_start(first_step: bool, history_len: usize) -> (r: usize)
    requires
        first_step || history_len >= 1,
    ensures
        first_step ==> r == 0,
        !first_step ==> r == history_len - 1,
{
    if first_step {
        0
    } else {
        history_len - 1
    }
}

/// Where the repeat-penalty window starts: the last `repeat_last_n`
/// history positions, or the whole history when it is shorter.
pub fn penalty_window_start(history_len: usize, repeat_last_n: usize) -> (r: usize)
    ensures
        r == if repeat_last_n <= history_len {
            (history_len - repeat_last_n) as int
        } else {
            0
        },
        r <= history_len,
{
    if repeat_last_n <= history_len {
        history_len - repeat_last_n
    } else {
        0
    }
}

/// Apply the repeat penalty to a logits row over the recent history.
///
/// Law (repeat-penalty identity): with the penalty at 1.0 the logits are
/// returned unchanged — the very same value, not a recomputation.
pub fn apply_penalty(
    logits: candle_core::Tensor,
    penalty_bits: u64,
    history: &Vec<u32>,
    repeat_last_n: usize,
) -> (r: Result<candle_core::Tensor, EngineError>)
    ensures
        penalty_bits == REPEAT_PENALTY_DISABLED_BITS ==> r == Ok::<
            candle_core::Tensor,
            EngineError,
        >(logits),
        r matches Err(e) ==> e is Sampling,
{
    if penalty_bits == REPEAT_PENALTY_DISABLED_BITS {
        return Ok(logits);
    }
    let start = penalty_window_start(history.len(), repeat_last_n);
    let window = slice_subrange(history.as_slice(), start, history.len());
    match backend::penalize_logits(&logits, penalty_bits, window) {
        Ok(t) => Ok(t),
        Err(m) => Err(EngineError::Sampling(m)),
    }
}

/// One in-flight generation: the borrowed instance and sampling state,
/// together with the session's plain state — the token history, the
/// accumulated text and the fragments emitted so far.  Created by
/// `ModelSlot::begin_generation`, advanced one token per `step`, and
/// closed by `finish`, which reinstalls the instance and hands back the
/// output.  The session is not restartable; a caller may drain it lazily
/// and act on every fragment before the next forward pass runs.
pub struct GenerationSession {
    pub(crate) instance: SmolLM2Model,
    pub(crate) processor: candle_transformers::generation::LogitsProcessor,
    pub(crate) state: SessionState,
}

/// The plain state of one session: the settings fixed at its opening and
/// the history, text and fragments its steps advance.
pub struct SessionState {
    /// The token history: the prompt followed by every generated token.
    pub all_tokens: Vec<u32>,
    /// Number of prompt tokens at the head of the history.
    pub prompt_len: usize,
    /// The bound on generated tokens.
    pub max_tokens: usize,
    /// Bits of the repeat penalty.
    pub repeat_penalty_bits: u64,
    /// Size of the repeat-penalty window.
    pub repeat_last_n: usize,
    /// The end-of-sequence token id the session watches for.
    pub eos_token: u32,
    /// How many tokens were generated and appended to the history.
    pub tokens_generated: usize,
    /// Whether the end-of-sequence token was produced.
    pub eos_reached: bool,
    /// The accumulated text.
    pub text: String,
    /// Every decoded fragment, in emission order.
    pub fragments: Vec<String>,
}

impl SessionState {
    /// The state invariant: the history grows from the prompt, the bound
    /// is respected, and the accumulated text is the in-order
    /// concatenation of the emitted fragments.
    pub open spec fn wf(&self) -> bool {
        &&& self.prompt_len >= 1
        &&& self.all_tokens@.len() == self.prompt_len + self.tokens_generated
        &&& self.tokens_generated <= self.max_tokens
        &&& self.text@ == concat_fragments(fragment_views(self.fragments@))
        &&& self.fragments@.len() <= self.tokens_generated
    }

    /// Whether the session is over: the bound was reached or the
    /// end-of-sequence token was produced.
    pub open spec fn done(&self) -> bool {
        self.tokens_generated == self.max_tokens || self.eos_reached
    }

    /// The per-call settings, unchanged by every step.
    pub open spec fn same_settings(&self, other: SessionState) -> bool {
        &&& self.prompt_len == other.prompt_len
        &&& self.max_tokens == other.max_tokens
        &&& self.repeat_penalty_bits == other.repeat_penalty_bits
        &&& self.repeat_last_n == other.repeat_last_n
        &&& self.eos_token == other.eos_token
    }
}

/// What one step of the session produced.
pub enum StepOutcome {
    /// A token was generated and decoded: the newest text fragment.
    Fragment(String),
    /// A token was generated but not emitted: either it was the
    /// end-of-sequence token, or its decoding failed and it was dropped
    /// from the text while staying counted and in the history.
    Skipped,
    /// The session is over: the bound was reached or the
    /// end-of-sequence token had been produced.
    Finished,
}

impl GenerationSession {
    /// The parts of the borrowed instance, everything but its cache.
    pub closed spec fn instance_parts(&self) -> (
        candle_transformers::models::llama::Llama,
        tokenizers::Tokenizer,
        candle_transformers::models::llama::Config,
        candle_core::Device,
    ) {
        self.instance.parts()
    }

    /// The session's plain state.
    pub closed spec fn state_spec(&self) -> SessionState {
        self.state
    }

    /// Run one iteration of the autoregressive loop: feed the backend the
    /// whole prompt on the first step and the single newest token after
    /// that, penalize the logits, sample, and act on the sampled token.
    pub fn step(&mut self) -> (r: Result<StepOutcome, EngineError>)
        requires
            old(self).state_spec().wf(),
        ensures
            final(self).state_spec().wf(),
            final(self).instance_parts() == old(self).instance_parts(),
            final(self).state_spec().same_settings(old(self).state_spec()),
            r matches Ok(o) ==> ((o is Finished) <==> old(self).state_spec().done()),
            r matches Ok(o) ==> (o is Finished ==> *final(self) == *old(self)),
            r matches Ok(o) ==> (o matches StepOutcome::Fragment(f) ==> {
                &&& final(self).state_spec().tokens_generated == old(self).state_spec().tokens_generated + 1
                &&& final(self).state_spec().fragments@ == old(self).state_spec().fragments@.push(f)
                &&& final(self).state_spec().text@ == old(self).state_spec().text@ + f@
                &&& final(self).state_spec().eos_reached == old(self).state_spec().eos_reached
            }),
            r matches Ok(o) ==> (o is Skipped ==> final(self).state_spec().fragments@ == old(self).state_spec().fragments@ && final(self).state_spec().text@ == old(self).state_spec().text@ && ((final(self).state_spec().tokens_generated == old(self).state_spec().tokens_generated + 1 && final(self).state_spec().eos_reached == old(self).state_spec().eos_reached) || (final(self).state_spec().tokens_generated == old(self).state_spec().tokens_generated && final(self).state_spec().eos_reached && !old(self).state_spec().eos_reached))),
            r matches Err(e) ==> (e is ForwardPass || e is Sampling) && final(self).state_spec().tokens_generated == old(self).state_spec().tokens_generated && final(self).state_spec().eos_reached == old(self).state_spec().eos_reached && final(self).state_spec().fragments@ == old(self).state_spec().fragments@ && final(self).state_spec().text@ == old(self).state_spec().text@,
    {
        if self.state.tokens_generated == self.state.max_tokens || self.state.eos_reached {
            return Ok(StepOutcome::Finished);
        }
        let first_step = self.state.tokens_generated == 0;
        let start_pos = context_start(first_step, self.state.all_tokens.len());
        let window = slice_subrange(self.state.all_tokens.as_slice(), start_pos, self.state.all_tokens.len());
        let logits = match backend::forward_pass(
            &self.instance.model,
            window,
            start_pos,
            &mut self.instance.cache,
            &self.instance.device,
        ) {
            Ok(t) => t,
            Err(m) => {
                proof {
                    lemma_same_parts(old(self).instance, self.instance);
                }
                return Err(EngineError::ForwardPass(m));
            },
        };
        proof {
            lemma_same_parts(old(self).instance, self.instance);
        }
        let logits = match apply_penalty(
            logits,
            self.state.repeat_penalty_bits,
            &self.state.all_tokens,
            self.state.repeat_last_n,
        ) {
            Ok(t) => t,
            Err(e) => {
                return Err(e);
            },
        };
        let next_token = match backend::sample_token(&mut self.processor, &logits) {
            Ok(id) => id,
            Err(m) => {
                return Err(EngineError::Sampling(m));
            },
        };
        match decide_step(next_token, self.state.eos_token) {
            StepAction::Stop => {
                self.state.eos_reached = true;
                Ok(StepOutcome::Skipped)
            },
            StepAction::Append(token) => {
                self.state.all_tokens.push(token);
                self.state.tokens_generated = self.state.tokens_generated + 1;
                match tok::decode_token(&self.instance.tokenizer, token) {
                    Ok(frag) => {
                        let ghost frags_before = self.state.fragments@;
                        self.state.text.append(frag.as_str());
                        let emitted = clone_fragment(&frag);
                        self.state.fragments.push(frag);
                        proof {
                            assert(fragment_views(self.state.fragments@) =~= fragment_views(
                                frags_before,
                            ).push(self.state.fragments@.last()@));
                            assert(fragment_views(self.state.fragments@).drop_last() =~= fragment_views(
                                frags_before,
                            ));
                        }
                        Ok(StepOutcome::Fragment(emitted))
                    },
                    Err(_) => {
                        // A token that fails to decode is dropped from
                        // the emitted text but still counted and kept in
                        // the history; decoding failure is not
                        // generation failure.
                        Ok(StepOutcome::Skipped)
                    },
                }
            },
        }
    }

    /// Close the session: reinstall the borrowed instance into the slot
    /// and hand back the accumulated output.
    pub fn finish(self, slot: &mut ModelSlot) -> (out: GenerationOutput)
        requires
            self.state_spec().wf(),
        ensures
            final(slot).loaded(),
            final(slot).slot->0.parts() == self.instance_parts(),
            out.tokens_generated == self.state_spec().tokens_generated,
            out.eos_reached == self.state_spec().eos_reached,
            out.tokens_generated <= self.state_spec().max_tokens,
            streaming_consistent(out),
            out.fragments@.len() <= out.tokens_generated,
    {
        slot.slot = Some(self.instance);
        GenerationOutput {
            text: self.state.text,
            fragments: self.state.fragments,
            tokens_generated: self.state.tokens_generated,
            eos_reached: self.state.eos_reached,
        }
    }
}

/// Relies on `String::clone`: the emitted copy of a decoded fragment
/// equals the one kept in the session's fragment list.
#[verifier::external_body]
fn clone_fragment(f: &String) -> (r: String)
    ensures
        r == *f,
{
    f.clone()
}

impl ModelSlot {
    /// Open a generation session against the installed instance, taking
    /// it out of the slot for the session's lifetime: the prompt is
    /// encoded, the sampling policy is seeded, and the end-of-sequence
    /// id is resolved from the primary marker, the secondary marker, or
    /// the fixed fallback.  With nothing loaded, or on a prompt that
    /// encodes to no tokens, the slot is left exactly as it was.
    pub fn begin_generation(&mut self, prompt: &str, params: &GenerationParams) -> (r: Result<
        GenerationSession,
        EngineError,
    >)
        ensures
            !old(self).loaded() ==> (r matches Err(e) && e is ModelNotLoaded && *final(self)
                == *old(self)),
            r matches Err(e) ==> (e is ModelNotLoaded || e is Tokenization || e is Sampling),
            old(self).loaded() ==> (r matches Err(e) ==> (e is Tokenization || e is Sampling)),
            r matches Err(e) ==> final(self).loaded() == old(self).loaded(),
            old(self).loaded() && r is Err ==> (final(self).slot is Some && final(self).slot->0.parts() == old(self).slot->0.parts()),
            r matches Ok(s) ==> {
                &&& old(self).loaded()
                &&& !final(self).loaded()
                &&& s.instance_parts() == old(self).slot->0.parts()
                &&& s.state_spec().wf()
                &&& s.state_spec().tokens_generated == 0
                &&& !s.state_spec().eos_reached
                &&& s.state_spec().fragments@.len() == 0
                &&& s.state_spec().text@.len() == 0
                &&& s.state_spec().max_tokens == params.max_tokens
            },
    {
        let instance = match self.slot.take() {
            None => {
                return Err(
                    EngineError::ModelNotLoaded(String::from_str("no model is loaded")),
                );
            },
            Some(inst) => inst,
        };
        let tokens = match tok::encode_text(&instance.tokenizer, prompt) {
            Ok(t) => t,
            Err(m) => {
                self.slot = Some(instance);
                return Err(EngineError::Tokenization(m));
            },
        };
        if tokens.len() == 0 {
            self.slot = Some(instance);
            return Err(
                EngineError::Tokenization(String::from_str("prompt encoded to no tokens")),
            );
        }
        let processor = match backend::new_logits_processor(
            params.seed,
            params.temperature_bits,
            params.top_p_bits,
        ) {
            Ok(p) => p,
            Err(m) => {
                self.slot = Some(instance);
                return Err(EngineError::Sampling(m));
            },
        };
        let eos_token = resolve_eos_token(
            tok::find_token(&instance.tokenizer, "</s>"),
            tok::find_token(&instance.tokenizer, "<|endoftext|>"),
        );
        let prompt_len = tokens.len();
        Ok(
            GenerationSession {
                instance,
                processor,
                state: SessionState {
                    all_tokens: tokens,
                    prompt_len,
                    max_tokens: params.max_tokens,
                    repeat_penalty_bits: params.repeat_penalty_bits,
                    repeat_last_n: params.repeat_last_n,
                    eos_token,
                    tokens_generated: 0,
                    eos_reached: false,
                    text: String::new(),
                    fragments: Vec::new(),
                },
            },
        )
    }

    /// Generate text for a prompt against the installed instance,
    /// borrowing it for the whole call: a session is opened, driven to
    /// its end, and closed.
    ///
    /// With nothing loaded the call fails with `ModelNotLoaded` and the
    /// slot is untouched; it never installs or removes an instance, so
    /// the slot reports loaded afterwards exactly as before, and the very
    /// instance that was installed stays installed — on `Ok` and on
    /// `Err` alike, only its key/value cache may have advanced.  On
    /// success the output respects the termination bound and the
    /// streaming order.  The exclusive borrow of the slot serializes the
    /// call against every other lifecycle operation.
    pub fn generate(&mut self, prompt: &str, params: &GenerationParams) -> (r: Result<
        GenerationOutput,
        EngineError,
    >)
        ensures
            final(self).loaded() == old(self).loaded(),
            !old(self).loaded() ==> (r matches Err(e) && e is ModelNotLoaded && *final(self)
                == *old(self)),
            old(self).loaded() ==> (r matches Err(e) ==> (e is Tokenization || e is ForwardPass
                || e is Sampling)),
            old(self).loaded() ==> (final(self).slot is Some && old(self).slot is Some && final(self).slot->0.parts() == old(self).slot->0.parts()),
            r matches Ok(out) ==> {
                &&& bounded_by_max(out, params.max_tokens)
                &&& streaming_consistent(out)
                &&& out.fragments@.len() <= out.tokens_generated
            },
    {
        let mut session = match self.begin_generation(prompt, params) {
            Ok(s) => s,
            Err(e) => {
                return Err(e);
            },
        };
        let ghost parts = session.instance_parts();
        let ghost slot_after_begin = *self;
        let mut finished = false;
        while !finished
            invariant
                *self == slot_after_begin,
                old(self).loaded(),
                old(self).slot is Some,
                parts == old(self).slot->0.parts(),
                session.state_spec().wf(),
                session.instance_parts() == parts,
                session.state_spec().max_tokens == params.max_tokens,
                finished ==> session.state_spec().done(),
            decreases session.state_spec().max_tokens - session.state_spec().tokens_generated + (
            if session.state_spec().eos_reached {
                0int
            } else {
                1int
            }) + (if finished {
                0int
            } else {
                1int
            }),
        {
            match session.step() {
                Ok(StepOutcome::Finished) => {
                    finished = true;
                },
                Ok(_) => {},
                Err(e) => {
                    let _ = session.finish(self);
                    return Err(e);
                },
            }
        }
        let out = session.finish(self);
        Ok(out)
    }
}

} // verus!
