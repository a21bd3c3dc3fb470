//! The decoding controller: a state machine that drives one generation
//! request token by token. The controller owns the sampling policy and the
//! incremental detokenizer; the model's forward pass is outside work, so each
//! step returns the action the caller must perform (submit tokens to the
//! forward capability, sample externally, or reset the model cache) and the
//! caller hands the result back as the next event.
//!
//! Whatever ends a request — a natural stop, the token budget, or a failure —
//! the controller enters the reset state first, so the shared model's
//! positional cache is never left holding one request's state when the next
//! one begins. A failed request yields its error and no text: the contract is
//! answer or failure, never a half-built answer.
use vstd::prelude::*;

use crate::detok::{
    detok_step, empty_detok_state, flush_outcome, DetokState, PushOutcome, TokenOutputStream,
    push_outcome,
};
use crate::logits_wf;
use crate::sampling::{argmax, argmax_of, apply_repeat_penalty, penalty_map, SamplingParams};
use crate::tokenizer::{encode_text, lookup_token, vocab_id};

verus! {

/// Why a generation request failed.
#[derive(Clone, Copy, Debug, PartialEq, Eq, Structural)]
pub enum GenError {
    /// The tokenizer could not encode the prompt or decode the tokens.
    Tokenization,
    /// The vocabulary lacks the designated end-of-sequence token.
    Vocabulary,
    /// The external forward capability failed.
    Forward,
}

/// Where the controller stands between events.
pub enum GenPhase {
    /// A forward pass was requested; logits are awaited.
    AwaitLogits,
    /// Penalized logits went to the external sampler; a token is awaited.
    AwaitToken,
    /// The request is over; the model cache must be reset before the result
    /// is taken.
    AwaitReset,
    /// The result has been taken.
    Done,
}

/// The outside work the caller must perform next.
pub enum StepOutcome {
    /// Submit these token ids at this start position to the forward
    /// capability and hand back the last position's logits.
    Forward { ctxt: Vec<u32>, start_pos: usize },
    /// Non-greedy mode: sample a token from these penalized scores with the
    /// seeded external sampler and hand it back.
    Sample { logits: Vec<i64> },
    /// Reset the model cache, then take the result with `finish`.
    Reset,
}

/// The token string whose vocabulary id ends a generation.
pub open spec fn eos_label() -> Seq<char> {
    "<|endoftext|>"@
}

/// One in-flight generation request.
pub struct GenSession {
    pub detok: TokenOutputStream,
    pub tokens: Vec<u32>,
    pub params: SamplingParams,
    pub eos_token: u32,
    pub max_new_tokens: usize,
    pub generated: usize,
    pub answer: Vec<u8>,
    pub phase: GenPhase,
    pub pending_error: Option<GenError>,
    pub cache_dirty: bool,
}

impl GenSession {
    pub open spec fn wf(self) -> bool {
        &&& self.params.wf()
        &&& self.generated <= self.max_new_tokens
        &&& self.tokens@.len() >= 1
        &&& (self.phase is Done ==> !self.cache_dirty)
        &&& ((self.phase is AwaitLogits || self.phase is AwaitToken) ==> self.pending_error
            is None && self.generated < self.max_new_tokens)
    }
}

/// The fields one step never touches.
pub open spec fn session_base_kept(pre: GenSession, post: GenSession) -> bool {
    &&& post.params == pre.params
    &&& post.eos_token == pre.eos_token
    &&& post.max_new_tokens == pre.max_new_tokens
    &&& post.cache_dirty == pre.cache_dirty
    &&& post.detok.tokenizer == pre.detok.tokenizer
}

/// Entering the stopped state: flush the detokenizer over state `d` and
/// append whatever text was still pending to `answer_before`; a decode
/// failure on the flush is recorded as the request's error instead.
pub open spec fn finalize_rel(
    tkz: tokenizers::Tokenizer,
    d: DetokState,
    answer_before: Seq<u8>,
    post: GenSession,
) -> bool {
    &&& post.phase is AwaitReset
    &&& match flush_outcome(tkz, d.toks, d.emitted) {
        PushOutcome::Emit(frag) => post.answer@ == answer_before + frag && post.pending_error
            is None,
        PushOutcome::Hold => post.answer@ == answer_before && post.pending_error is None,
        PushOutcome::Fail => post.answer@ == answer_before && post.pending_error == Option::Some(
            GenError::Tokenization,
        ),
    }
}

/// What recording a sampled token `t` does: the token joins the history; the
/// end-of-sequence token stops the request without being detokenized; any
/// other token runs through the detokenizer, and the request either stops at
/// the token budget or asks for the next forward pass of the single new token
/// at the position the cache expects.
pub open spec fn advance_rel(pre: GenSession, post: GenSession, t: u32, r: StepOutcome) -> bool {
    let tkz = pre.detok.tokenizer;
    &&& session_base_kept(pre, post)
    &&& post.tokens@ == pre.tokens@.push(t)
    &&& post.generated == pre.generated + 1
    &&& if t == pre.eos_token {
        &&& post.detok.state() == pre.detok.state()
        &&& finalize_rel(tkz, pre.detok.state(), pre.answer@, post)
        &&& r is Reset
    } else {
        let d2 = detok_step(tkz, pre.detok.state(), t);
        &&& post.detok.state() == d2
        &&& match push_outcome(tkz, pre.detok.state().toks.push(t), pre.detok.state().emitted) {
            PushOutcome::Fail => {
                &&& post.phase is AwaitReset
                &&& post.pending_error == Option::Some(GenError::Tokenization)
                &&& post.answer@ == pre.answer@
                &&& r is Reset
            },
            PushOutcome::Emit(frag) => advance_continue_rel(pre, post, d2, pre.answer@ + frag, t, r),
            PushOutcome::Hold => advance_continue_rel(pre, post, d2, pre.answer@, t, r),
        }
    }
}

/// After a non-stop token: stop at the token budget, else request the next
/// forward pass.
pub open spec fn advance_continue_rel(
    pre: GenSession,
    post: GenSession,
    d2: DetokState,
    answer2: Seq<u8>,
    t: u32,
    r: StepOutcome,
) -> bool {
    if pre.generated + 1 == pre.max_new_tokens {
        &&& finalize_rel(pre.detok.tokenizer, d2, answer2, post)
        &&& r is Reset
    } else {
        &&& post.phase is AwaitLogits
        &&& post.answer@ == answer2
        &&& post.pending_error is None
        &&& (r matches StepOutcome::Forward { ctxt, start_pos } && ctxt@ == seq![t] && start_pos
            == pre.tokens@.len())
    }
}

fn copy_tokens(v: &Vec<u32>) -> (r: Vec<u32>)
    ensures
        r@ == v@,
{
    let mut out: Vec<u32> = Vec::new();
    let mut i: usize = 0;
    while i < v.len()
        invariant
            0 <= i <= v@.len(),
            out@ == v@.take(i as int),
        decreases v@.len() - i,
    {
        out.push(v[i]);
        proof {
            assert(v@.take(i as int).push(v@[i as int]) =~= v@.take(i + 1));
        }
        i += 1;
    }
    proof {
        assert(v@.take(i as int) =~= v@);
    }
    out
}

fn copy_bytes(v: &Vec<u8>) -> (r: Vec<u8>)
    ensures
        r@ == v@,
{
    let mut out: Vec<u8> = Vec::new();
    let mut i: usize = 0;
    while i < v.len()
        invariant
            0 <= i <= v@.len(),
            out@ == v@.take(i as int),
        decreases v@.len() - i,
    {
        out.push(v[i]);
        proof {
            assert(v@.take(i as int).push(v@[i as int]) =~= v@.take(i + 1));
        }
        i += 1;
    }
    proof {
        assert(v@.take(i as int) =~= v@);
    }
    out
}

impl GenSession {
    /// Open a generation request over already-encoded prompt tokens: look up
    /// the end-of-sequence token and ask for the prefill forward pass of the
    /// whole prompt at position zero.
    ///
    /// Fails with `Tokenization` when the prompt tokens are empty, and with
    /// `Vocabulary` when the vocabulary lacks the end-of-sequence token —
    /// each if and only if.
    pub fn start_with_tokens(
        tokenizer: tokenizers::Tokenizer,
        params: SamplingParams,
        prompt_tokens: Vec<u32>,
        max_new_tokens: usize,
    ) -> (r: Result<(GenSession, StepOutcome), GenError>)
        requires
            params.wf(),
            max_new_tokens >= 1,
        ensures
            match r {
                Result::Ok(pair) => {
                    let s = pair.0;
                    &&& prompt_tokens@.len() > 0
                    &&& vocab_id(tokenizer, eos_label()) is Some
                    &&& s.wf()
                    &&& s.tokens@ == prompt_tokens@
                    &&& s.eos_token == vocab_id(tokenizer, eos_label()).unwrap()
                    &&& s.params == params
                    &&& s.max_new_tokens == max_new_tokens
                    &&& s.generated == 0
                    &&& s.answer@ == Seq::<u8>::empty()
                    &&& s.phase is AwaitLogits
                    &&& s.pending_error is None
                    &&& s.cache_dirty
                    &&& s.detok.tokenizer == tokenizer
                    &&& s.detok.state() == empty_detok_state()
                    &&& (pair.1 matches StepOutcome::Forward { ctxt, start_pos } && ctxt@
                        == s.tokens@ && start_pos == 0)
                },
                Result::Err(GenError::Tokenization) => prompt_tokens@.len() == 0,
                Result::Err(GenError::Vocabulary) => prompt_tokens@.len() > 0 && vocab_id(
                    tokenizer,
                    eos_label(),
                ) is None,
                Result::Err(GenError::Forward) => false,
            },
    {
        if prompt_tokens.len() == 0 {
            return Result::Err(GenError::Tokenization);
        }
        let eos_token = match lookup_token(&tokenizer, "<|endoftext|>") {
            Option::None => {
                return Result::Err(GenError::Vocabulary);
            },
            Option::Some(e) => e,
        };
        let ctxt = copy_tokens(&prompt_tokens);
        let session = GenSession {
            detok: TokenOutputStream::new(tokenizer),
            tokens: prompt_tokens,
            params,
            eos_token,
            max_new_tokens,
            generated: 0,
            answer: Vec::new(),
            phase: GenPhase::AwaitLogits,
            pending_error: Option::None,
            cache_dirty: true,
        };
        Result::Ok((session, StepOutcome::Forward { ctxt, start_pos: 0 }))
    }

    /// Open a generation request from prompt text: encode it with the
    /// external tokenizer, then proceed as `start_with_tokens`.
    ///
    /// Encoding is an outside call whose result may depend on more than its
    /// arguments, so the contract states what holds of every outcome: on
    /// success the session holds exactly the ids the call returned (they are
    /// `s.tokens` and the prefill context), and a `Vocabulary` error still
    /// means exactly that the end-of-sequence token is missing. A
    /// `Tokenization` error means the encode call failed or encoded the
    /// prompt to nothing.
    pub fn start(
        tokenizer: tokenizers::Tokenizer,
        params: SamplingParams,
        prompt: &str,
        max_new_tokens: usize,
    ) -> (r: Result<(GenSession, StepOutcome), GenError>)
        requires
            params.wf(),
            max_new_tokens >= 1,
        ensures
            match r {
                Result::Ok(pair) => {
                    let s = pair.0;
                    &&& s.wf()
                    &&& s.tokens@.len() > 0
                    &&& vocab_id(tokenizer, eos_label()) is Some
                    &&& s.eos_token == vocab_id(tokenizer, eos_label()).unwrap()
                    &&& s.params == params
                    &&& s.max_new_tokens == max_new_tokens
                    &&& s.generated == 0
                    &&& s.answer@ == Seq::<u8>::empty()
                    &&& s.phase is AwaitLogits
                    &&& s.pending_error is None
                    &&& s.cache_dirty
                    &&& s.detok.tokenizer == tokenizer
                    &&& s.detok.state() == empty_detok_state()
                    &&& (pair.1 matches StepOutcome::Forward { ctxt, start_pos } && ctxt@
                        == s.tokens@ && start_pos == 0)
                },
                Result::Err(GenError::Vocabulary) => vocab_id(tokenizer, eos_label()) is None,
                Result::Err(GenError::Forward) => false,
                Result::Err(GenError::Tokenization) => true,
            },
    {
        let ids = match encode_text(&tokenizer, prompt) {
            Option::None => {
                return Result::Err(GenError::Tokenization);
            },
            Option::Some(v) => v,
        };
        GenSession::start_with_tokens(tokenizer, params, ids, max_new_tokens)
    }

    /// Flush the detokenizer, append any pending text, and enter the reset
    /// state.
    fn finalize_stop(&mut self) -> (r: StepOutcome)
        ensures
            session_base_kept(*old(self), *final(self)),
            final(self).tokens@ == old(self).tokens@,
            final(self).generated == old(self).generated,
            final(self).detok.state() == old(self).detok.state(),
            finalize_rel(
                old(self).detok.tokenizer,
                old(self).detok.state(),
                old(self).answer@,
                *final(self),
            ),
            r is Reset,
    {
        match self.detok.flush_remaining() {
            Result::Err(_) => {
                self.pending_error = Option::Some(GenError::Tokenization);
            },
            Result::Ok(Option::None) => {
                self.pending_error = Option::None;
            },
            Result::Ok(Option::Some(mut frag)) => {
                self.answer.append(&mut frag);
                self.pending_error = Option::None;
            },
        }
        self.phase = GenPhase::AwaitReset;
        StepOutcome::Reset
    }

    /// Record the next token, whatever sampled it.
    fn advance(&mut self, t: u32) -> (r: StepOutcome)
        requires
            old(self).wf(),
            old(self).phase is AwaitLogits || old(self).phase is AwaitToken,
        ensures
            final(self).wf(),
            advance_rel(*old(self), *final(self), t, r),
    {
        self.tokens.push(t);
        self.generated = self.generated + 1;
        if t == self.eos_token {
            self.finalize_stop()
        } else {
            match self.detok.push(t) {
                Result::Err(_) => {
                    self.pending_error = Option::Some(GenError::Tokenization);
                    self.phase = GenPhase::AwaitReset;
                    StepOutcome::Reset
                },
                Result::Ok(maybe_frag) => {
                    match maybe_frag {
                        Option::Some(mut frag) => {
                            self.answer.append(&mut frag);
                        },
                        Option::None => {},
                    }
                    if self.generated == self.max_new_tokens {
                        self.finalize_stop()
                    } else {
                        self.phase = GenPhase::AwaitLogits;
                        let mut ctxt: Vec<u32> = Vec::new();
                        ctxt.push(t);
                        let start_pos = self.tokens.len() - 1;
                        proof {
                            assert(ctxt@ =~= seq![t]);
                        }
                        StepOutcome::Forward { ctxt, start_pos }
                    }
                },
            }
        }
    }

    /// The forward capability produced the last position's logits: damp
    /// recently seen tokens, then either take the argmax (greedy) and record
    /// it, or hand the penalized scores out for external sampling.
    pub fn on_logits(&mut self, logits: &Vec<i64>) -> (r: StepOutcome)
        requires
            old(self).wf(),
            old(self).phase is AwaitLogits,
            logits_wf(logits@),
        ensures
            final(self).wf(),
            ({
                let pen = penalty_map(
                    logits@,
                    old(self).tokens@,
                    old(self).params.repeat_last_n as int,
                    old(self).params.repeat_penalty_micros as int,
                );
                if old(self).params.greedy() {
                    advance_rel(*old(self), *final(self), argmax_of(pen) as u32, r)
                } else {
                    &&& session_base_kept(*old(self), *final(self))
                    &&& final(self).tokens@ == old(self).tokens@
                    &&& final(self).generated == old(self).generated
                    &&& final(self).answer@ == old(self).answer@
                    &&& final(self).detok.state() == old(self).detok.state()
                    &&& final(self).pending_error is None
                    &&& final(self).phase is AwaitToken
                    &&& (r matches StepOutcome::Sample { logits: l } && l@ == pen)
                }
            }),
    {
        let penalized = apply_repeat_penalty(
            logits,
            &self.tokens,
            self.params.repeat_last_n,
            self.params.repeat_penalty_micros,
        );
        if self.params.is_greedy() {
            let idx = argmax(&penalized);
            self.advance(idx as u32)
        } else {
            self.phase = GenPhase::AwaitToken;
            StepOutcome::Sample { logits: penalized }
        }
    }

    /// The external sampler chose a token from the penalized scores.
    pub fn on_token(&mut self, t: u32) -> (r: StepOutcome)
        requires
            old(self).wf(),
            old(self).phase is AwaitToken,
        ensures
            final(self).wf(),
            advance_rel(*old(self), *final(self), t, r),
    {
        self.advance(t)
    }

    /// The forward capability failed: the request aborts with a generation
    /// error, but the cache reset still comes first.
    pub fn on_forward_failure(&mut self) -> (r: StepOutcome)
        requires
            old(self).wf(),
            old(self).phase is AwaitLogits || old(self).phase is AwaitToken,
        ensures
            final(self).wf(),
            session_base_kept(*old(self), *final(self)),
            final(self).tokens@ == old(self).tokens@,
            final(self).generated == old(self).generated,
            final(self).answer@ == old(self).answer@,
            final(self).detok.state() == old(self).detok.state(),
            final(self).phase is AwaitReset,
            final(self).pending_error == Option::Some(GenError::Forward),
            r is Reset,
    {
        self.pending_error = Option::Some(GenError::Forward);
        self.phase = GenPhase::AwaitReset;
        StepOutcome::Reset
    }

    /// Take the result, after the model cache has been reset. A successful
    /// request yields the whole answer text; a failed one yields its error
    /// and discards any partial text — never a half-built answer.
    pub fn finish(&mut self) -> (r: Result<Vec<u8>, GenError>)
        requires
            old(self).wf(),
            old(self).phase is AwaitReset,
        ensures
            final(self).wf(),
            final(self).phase is Done,
            !final(self).cache_dirty,
            match old(self).pending_error {
                Option::Some(e) => r == Result::<Vec<u8>, GenError>::Err(e),
                Option::None => r is Ok && r.unwrap()@ == old(self).answer@,
            },
    {
        self.phase = GenPhase::Done;
        self.cache_dirty = false;
        match self.pending_error {
            Option::Some(e) => Result::Err(e),
            Option::None => Result::Ok(copy_bytes(&self.answer)),
        }
    }
}

/// Law: the cache reset precedes completion — a session only ever reaches the
/// finished state with the model cache marked clean, on success and failure
/// alike, so the next request never inherits stale positional state.
pub proof fn lemma_reset_precedes_completion(s: GenSession)
    requires
        s.wf(),
        s.phase is Done,
    ensures
        !s.cache_dirty,
{
}

} // verus!
