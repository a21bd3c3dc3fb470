//! The incremental detokenizer. Sub-word vocabularies may split one displayed
//! character across several token ids, so decoding each token alone can yield
//! invalid partial text. The stream keeps every token seen so far, re-decodes
//! the whole sequence after each new token, and hands out only the suffix that
//! safely extends what was already handed out — never a fragment that ends in
//! the middle of a character.
use vstd::prelude::*;

use crate::tokenizer::{decode_tokens, decoded_bytes};

verus! {

/// The decoder could not produce text for the current token sequence.
#[derive(Clone, Copy, Debug, PartialEq, Eq, Structural)]
pub enum DetokError {
    DecodeFailed,
}

/// The abstract state of the stream: the tokens pushed since the last clear,
/// and the bytes already handed out.
#[verifier::ext_equal]
pub struct DetokState {
    pub toks: Seq<u32>,
    pub emitted: Seq<u8>,
}

pub open spec fn empty_detok_state() -> DetokState {
    DetokState { toks: Seq::empty(), emitted: Seq::empty() }
}

/// `a` is a prefix of `b`.
pub open spec fn prefix_of(a: Seq<u8>, b: Seq<u8>) -> bool {
    a.len() <= b.len() && b.take(a.len() as int) == a
}

/// The decoded text ends in the replacement character U+FFFD — the decoder's
/// sign that the final token ids stop in the middle of a character.
pub open spec fn ends_mid_char(text: Seq<u8>) -> bool {
    &&& text.len() >= 3
    &&& text[text.len() - 3] == 0xef
    &&& text[text.len() - 2] == 0xbf
    &&& text[text.len() - 1] == 0xbd
}

/// What one push yields: the decoder failed, the stream keeps buffering, or a
/// new fragment is handed out.
pub enum PushOutcome {
    Fail,
    Hold,
    Emit(Seq<u8>),
}

/// The outcome of pushing a token: with `toks` the whole sequence after the
/// push and `emitted` the bytes already handed out, the stream emits the
/// decoded text's new suffix exactly when that text strictly extends the
/// emitted bytes and does not end mid-character.
pub open spec fn push_outcome(t: tokenizers::Tokenizer, toks: Seq<u32>, emitted: Seq<u8>) -> PushOutcome {
    match decoded_bytes(t, toks) {
        Option::None => PushOutcome::Fail,
        Option::Some(full) => if full.len() > emitted.len() && prefix_of(emitted, full)
            && !ends_mid_char(full) {
            PushOutcome::Emit(full.skip(emitted.len() as int))
        } else {
            PushOutcome::Hold
        },
    }
}

/// The outcome of the final flush: any decoded text beyond the emitted bytes
/// is handed out as it stands, mid-character or not, since no more tokens
/// will arrive.
pub open spec fn flush_outcome(t: tokenizers::Tokenizer, toks: Seq<u32>, emitted: Seq<u8>) -> PushOutcome {
    match decoded_bytes(t, toks) {
        Option::None => PushOutcome::Fail,
        Option::Some(full) => if full.len() > emitted.len() && prefix_of(emitted, full) {
            PushOutcome::Emit(full.skip(emitted.len() as int))
        } else {
            PushOutcome::Hold
        },
    }
}

/// One step of the abstract stream.
pub open spec fn detok_step(t: tokenizers::Tokenizer, s: DetokState, token: u32) -> DetokState {
    let toks2 = s.toks.push(token);
    match push_outcome(t, toks2, s.emitted) {
        PushOutcome::Emit(frag) => DetokState { toks: toks2, emitted: s.emitted + frag },
        _ => DetokState { toks: toks2, emitted: s.emitted },
    }
}

/// The abstract stream after pushing a whole token sequence.
pub open spec fn detok_replay(t: tokenizers::Tokenizer, s: DetokState, ts: Seq<u32>) -> DetokState
    decreases ts.len(),
{
    if ts.len() == 0 {
        s
    } else {
        detok_replay(t, detok_step(t, s, ts[0]), ts.skip(1))
    }
}

/// A decoder behaves monotonically on a token sequence when decoding every
/// prefix succeeds and a longer prefix of tokens always decodes to an
/// extension of the shorter prefix's text. Ordinary sub-word vocabularies
/// behave this way; the round-trip law below holds under this condition.
pub open spec fn decode_monotone(t: tokenizers::Tokenizer, ts: Seq<u32>) -> bool {
    forall|i: int, j: int|
        0 <= i <= j <= ts.len() ==> {
            &&& #[trigger] decoded_bytes(t, ts.take(i)) is Some
            &&& #[trigger] decoded_bytes(t, ts.take(j)) is Some
            &&& prefix_of(
                decoded_bytes(t, ts.take(i)).unwrap(),
                decoded_bytes(t, ts.take(j)).unwrap(),
            )
        }
}

proof fn lemma_replay_snoc(t: tokenizers::Tokenizer, s: DetokState, ts: Seq<u32>, x: u32)
    ensures
        detok_replay(t, s, ts.push(x)) == detok_step(t, detok_replay(t, s, ts), x),
    decreases ts.len(),
{
    let ext = ts.push(x);
    if ts.len() == 0 {
        assert(ext[0] == x);
        assert(ext.skip(1) =~= Seq::<u32>::empty());
        assert(detok_replay(t, s, ext) == detok_replay(t, detok_step(t, s, x), ext.skip(1)));
        assert(detok_replay(t, detok_step(t, s, x), ext.skip(1)) == detok_step(t, s, x));
        assert(detok_replay(t, s, ts) == s);
    } else {
        assert(ext[0] == ts[0]);
        assert(ext.skip(1) =~= ts.skip(1).push(x));
        assert(detok_replay(t, s, ext) == detok_replay(t, detok_step(t, s, ts[0]), ext.skip(1)));
        lemma_replay_snoc(t, detok_step(t, s, ts[0]), ts.skip(1), x);
        assert(detok_replay(t, s, ts) == detok_replay(t, detok_step(t, s, ts[0]), ts.skip(1)));
    }
}

proof fn lemma_replay_prefix_invariant(t: tokenizers::Tokenizer, all: Seq<u32>, i: int)
    requires
        decode_monotone(t, all),
        0 <= i <= all.len(),
    ensures
        ({
            let st = detok_replay(t, empty_detok_state(), all.take(i));
            &&& st.toks == all.take(i)
            &&& (st.emitted == Seq::<u8>::empty() || exists|k: int|
                0 <= k <= i && #[trigger] decoded_bytes(t, all.take(k)) == Option::Some(st.emitted))
        }),
    decreases i,
{
    if i == 0 {
        assert(all.take(0) =~= Seq::<u32>::empty());
    } else {
        lemma_replay_prefix_invariant(t, all, i - 1);
        let st = detok_replay(t, empty_detok_state(), all.take(i - 1));
        assert(all.take(i) =~= all.take(i - 1).push(all[i - 1]));
        lemma_replay_snoc(t, empty_detok_state(), all.take(i - 1), all[i - 1]);
        let st2 = detok_step(t, st, all[i - 1]);
        assert(st.toks.push(all[i - 1]) =~= all.take(i));
        assert(decoded_bytes(t, all.take(i)) is Some);
        match push_outcome(t, all.take(i), st.emitted) {
            PushOutcome::Emit(frag) => {
                let full = decoded_bytes(t, all.take(i)).unwrap();
                assert(st.emitted + frag =~= full);
                assert(decoded_bytes(t, all.take(i)) == Option::Some(st2.emitted));
            },
            _ => {},
        }
    }
}

/// Law: round trip — pushing a token sequence one id at a time and then
/// flushing hands out, in order, exactly the text of decoding the whole
/// sequence at once: no bytes duplicated, dropped, or reordered. It holds
/// whenever the decoder is monotone on the sequence (see `decode_monotone`).
pub proof fn lemma_round_trip(t: tokenizers::Tokenizer, ts: Seq<u32>)
    requires
        decode_monotone(t, ts),
    ensures
        ({
            let st = detok_replay(t, empty_detok_state(), ts);
            &&& st.toks == ts
            &&& decoded_bytes(t, ts) is Some
            &&& match flush_outcome(t, st.toks, st.emitted) {
                PushOutcome::Emit(frag) => st.emitted + frag == decoded_bytes(t, ts).unwrap(),
                PushOutcome::Hold => st.emitted == decoded_bytes(t, ts).unwrap(),
                PushOutcome::Fail => false,
            }
        }),
{
    let n = ts.len() as int;
    lemma_replay_prefix_invariant(t, ts, n);
    assert(ts.take(n) =~= ts);
    let st = detok_replay(t, empty_detok_state(), ts);
    assert(decoded_bytes(t, ts.take(n)) is Some);
    let full = decoded_bytes(t, ts).unwrap();
    if st.emitted == Seq::<u8>::empty() {
        assert(full.take(0) =~= Seq::<u8>::empty());
        assert(prefix_of(st.emitted, full));
    } else {
        let k = choose|k: int|
            0 <= k <= n && #[trigger] decoded_bytes(t, ts.take(k)) == Option::Some(st.emitted);
        assert(prefix_of(
            decoded_bytes(t, ts.take(k)).unwrap(),
            decoded_bytes(t, ts.take(n)).unwrap(),
        ));
    }
    assert(prefix_of(st.emitted, full));
    if full.len() > st.emitted.len() {
        assert(st.emitted + full.skip(st.emitted.len() as int) =~= full);
    } else {
        assert(full.take(full.len() as int) =~= full);
        assert(st.emitted == full);
    }
}

/// Law: no leakage across requests — the stream's behaviour is a function of
/// its abstract state alone, and `clear` puts that state back to empty, so
/// the fragments produced for a fresh token sequence after a clear are
/// independent of whatever was pushed before it.
pub proof fn lemma_no_leakage_across_requests(
    t: tokenizers::Tokenizer,
    s1: DetokState,
    s2: DetokState,
    ts: Seq<u32>,
)
    requires
        s1.toks == s2.toks,
        s1.emitted == s2.emitted,
    ensures
        detok_replay(t, s1, ts) == detok_replay(t, s2, ts),
{
    assert(s1 =~= s2);
}

/// Are the first `acc.len()` bytes of `full` exactly `acc`?
fn bytes_start_with(full: &Vec<u8>, acc: &Vec<u8>) -> (r: bool)
    ensures
        r == prefix_of(acc@, full@),
{
    if acc.len() > full.len() {
        return false;
    }
    let mut i: usize = 0;
    while i < acc.len()
        invariant
            acc@.len() <= full@.len(),
            0 <= i <= acc@.len(),
            forall|j: int| 0 <= j < i ==> #[trigger] full@[j] == acc@[j],
        decreases acc@.len() - i,
    {
        if full[i] != acc[i] {
            assert(full@.take(acc@.len() as int)[i as int] != acc@[i as int]);
            return false;
        }
        i += 1;
    }
    assert(full@.take(acc@.len() as int) =~= acc@);
    true
}

/// The bytes of `full` from position `from` on.
fn bytes_suffix(full: &Vec<u8>, from: usize) -> (r: Vec<u8>)
    requires
        from <= full@.len(),
    ensures
        r@ == full@.skip(from as int),
{
    let mut out: Vec<u8> = Vec::new();
    let mut i: usize = from;
    while i < full.len()
        invariant
            from <= i <= full@.len(),
            out@.len() == i - from,
            forall|j: int| 0 <= j < out@.len() ==> #[trigger] out@[j] == full@[from + j],
        decreases full@.len() - i,
    {
        out.push(full[i]);
        i += 1;
    }
    assert(out@ =~= full@.skip(from as int));
    out
}

fn bytes_end_mid_char(full: &Vec<u8>) -> (r: bool)
    ensures
        r == ends_mid_char(full@),
{
    let n = full.len();
    n >= 3 && full[n - 3] == 0xef && full[n - 2] == 0xbf && full[n - 1] == 0xbd
}

/// The incremental detokenizer: tokens go in one at a time, complete text
/// fragments come out.
pub struct TokenOutputStream {
    pub tokenizer: tokenizers::Tokenizer,
    pub tokens: Vec<u32>,
    pub emitted: Vec<u8>,
}

impl TokenOutputStream {
    pub open spec fn state(self) -> DetokState {
        DetokState { toks: self.tokens@, emitted: self.emitted@ }
    }

    pub fn new(tokenizer: tokenizers::Tokenizer) -> (r: Self)
        ensures
            r.tokenizer == tokenizer,
            r.state() == empty_detok_state(),
    {
        let r = TokenOutputStream { tokenizer, tokens: Vec::new(), emitted: Vec::new() };
        proof {
            assert(r.state() =~= empty_detok_state());
        }
        r
    }

    /// Forget everything: called at the start of every generation request, so
    /// no text ever leaks from one request into the next.
    pub fn clear(&mut self)
        ensures
            final(self).tokenizer == old(self).tokenizer,
            final(self).state() == empty_detok_state(),
    {
        self.tokens.clear();
        self.emitted.clear();
        proof {
            assert(self.state() =~= empty_detok_state());
        }
    }

    /// Append a token and hand out the freshly completed text fragment, if
    /// any is ready.
    pub fn push(&mut self, token: u32) -> (r: Result<Option<Vec<u8>>, DetokError>)
        ensures
            final(self).tokenizer == old(self).tokenizer,
            final(self).state() == detok_step(old(self).tokenizer, old(self).state(), token),
            (match r {
                Result::Ok(Option::Some(frag)) => push_outcome(
                    old(self).tokenizer,
                    old(self).state().toks.push(token),
                    old(self).state().emitted,
                ) == PushOutcome::Emit(frag@),
                Result::Ok(Option::None) => push_outcome(
                    old(self).tokenizer,
                    old(self).state().toks.push(token),
                    old(self).state().emitted,
                ) is Hold,
                Result::Err(_) => push_outcome(
                    old(self).tokenizer,
                    old(self).state().toks.push(token),
                    old(self).state().emitted,
                ) is Fail,
            }),
    {
        self.tokens.push(token);
        let decoded = decode_tokens(&self.tokenizer, &self.tokens);
        match decoded {
            Option::None => Result::Err(DetokError::DecodeFailed),
            Option::Some(full) => {
                if full.len() > self.emitted.len() && bytes_start_with(&full, &self.emitted)
                    && !bytes_end_mid_char(&full) {
                    let frag = bytes_suffix(&full, self.emitted.len());
                    proof {
                        assert(self.emitted@ + frag@ =~= full@);
                    }
                    self.emitted = full;
                    Result::Ok(Option::Some(frag))
                } else {
                    Result::Ok(Option::None)
                }
            },
        }
    }

    /// Hand out whatever decoded text is still pending, once the loop is done
    /// and no more tokens will arrive.
    pub fn flush_remaining(&self) -> (r: Result<Option<Vec<u8>>, DetokError>)
        ensures
            (match r {
                Result::Ok(Option::Some(frag)) => flush_outcome(
                    self.tokenizer,
                    self.state().toks,
                    self.state().emitted,
                ) == PushOutcome::Emit(frag@),
                Result::Ok(Option::None) => flush_outcome(
                    self.tokenizer,
                    self.state().toks,
                    self.state().emitted,
                ) is Hold,
                Result::Err(_) => flush_outcome(
                    self.tokenizer,
                    self.state().toks,
                    self.state().emitted,
                ) is Fail,
            }),
    {
        let decoded = decode_tokens(&self.tokenizer, &self.tokens);
        match decoded {
            Option::None => Result::Err(DetokError::DecodeFailed),
            Option::Some(full) => {
                if full.len() > self.emitted.len() && bytes_start_with(&full, &self.emitted) {
                    Result::Ok(Option::Some(bytes_suffix(&full, self.emitted.len())))
                } else {
                    Result::Ok(Option::None)
                }
            },
        }
    }
}

} // verus!
