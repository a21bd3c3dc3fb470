//! Core logic of a retrieval-augmented generation service: the token sampling
//! policy, the incremental detokenizer, the decoding loop's state machine, the
//! resource coordinator that serializes access to the generation model, and
//! the service configuration.
//!
//! Logit scores are carried as fixed-point integers in millionths of a unit,
//! so the sampling arithmetic is exact and free of rounding surprises.
use vstd::prelude::*;

pub mod config;
pub mod coordinate;
pub mod detok;
pub mod generate;
pub mod requests;
pub mod retrieve;
pub mod sampling;
pub mod tokenizer;
pub mod weights;

verus! {

/// Upper bound on the magnitude of a fixed-point logit score (ten thousand
/// units, expressed in millionths). Keeping scores inside this bound keeps
/// every product taken while applying the repeat penalty inside `i64`.
pub const LOGIT_MAGNITUDE_MAX: i64 = 10_000_000_000;

/// A vector of fixed-point logit scores is well formed when it is non-empty,
/// each vocabulary entry is addressable by a token id, and every score is
/// bounded.
pub open spec fn logits_wf(l: Seq<i64>) -> bool {
    &&& l.len() >= 1
    &&& l.len() <= u32::MAX as int + 1
    &&& forall|i: int|
        0 <= i < l.len() ==> -LOGIT_MAGNITUDE_MAX <= #[trigger] l[i] <= LOGIT_MAGNITUDE_MAX
}

} // verus!
