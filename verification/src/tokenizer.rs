//! The trusted boundary to the `tokenizers` crate. The tokenizer value is
//! opaque; what its pure methods return on given arguments is given names
//! that the verified code reasons over.
use vstd::prelude::*;

verus! {

/// Declares `tokenizers::Tokenizer` so the vocabulary handle can sit in
/// signatures and fields; its insides stay opaque.
#[verifier::external_type_specification]
#[verifier::external_body]
pub struct ExTokenizer(tokenizers::Tokenizer);

/// The UTF-8 text that `tokenizers::Tokenizer::decode` produces for an id
/// sequence (skipping special tokens), or `None` where it fails; a function
/// of the tokenizer value and the ids alone.
pub uninterp spec fn decoded_bytes(t: tokenizers::Tokenizer, ids: Seq<u32>) -> Option<Seq<u8>>;

/// The id that `tokenizers::Tokenizer::token_to_id` gives a token string; a
/// function of the tokenizer's vocabulary alone.
pub uninterp spec fn vocab_id(t: tokenizers::Tokenizer, token: Seq<char>) -> Option<u32>;

/// Relies on `tokenizers::Tokenizer::decode` (`skip_special_tokens = true`):
/// a pure function of the tokenizer and the ids, returning the decoded text.
#[verifier::external_body]
pub(crate) fn decode_tokens(t: &tokenizers::Tokenizer, ids: &Vec<u32>) -> (r: Option<Vec<u8>>)
    ensures
        match r {
            Option::Some(v) => decoded_bytes(*t, ids@) == Option::Some(v@),
            Option::None => decoded_bytes(*t, ids@) is None,
        },
{
    match t.decode(ids.as_slice(), true) {
        Ok(s) => Some(s.into_bytes()),
        Err(_) => None,
    }
}

/// Relies on `tokenizers::Tokenizer::encode` (`add_special_tokens = true`)
/// for the token ids of a text. Nothing is claimed of the result: encoding
/// may depend on more than the arguments (a byte-pair model with dropout set
/// draws randomness while merging), so the caller states what holds of every
/// outcome and carries the returned ids themselves.
#[verifier::external_body]
pub(crate) fn encode_text(t: &tokenizers::Tokenizer, text: &str) -> (r: Option<Vec<u32>>) {
    match t.encode(text, true) {
        Ok(e) => Some(e.get_ids().to_vec()),
        Err(_) => None,
    }
}

/// Relies on `tokenizers::Tokenizer::token_to_id`: a pure lookup in the
/// tokenizer's vocabulary.
#[verifier::external_body]
pub(crate) fn lookup_token(t: &tokenizers::Tokenizer, token: &str) -> (r: Option<u32>)
    ensures
        r == vocab_id(*t, token@),
{
    t.token_to_id(token)
}

} // verus!
