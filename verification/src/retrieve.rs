//! Retrieval results and the orchestration of one query: embed the text,
//! search the vector index, then decode an answer. The embedding encoder and
//! the vector search service are outside capabilities; the orchestrator here
//! fixes the order of the steps and validates what the search hands back.
use vstd::prelude::*;

verus! {

/// Why a query's retrieval step failed.
#[derive(Clone, Copy, Debug, PartialEq, Eq, Structural)]
pub enum RetrievalError {
    /// The vector search capability is unavailable or answered with a
    /// failure.
    Unavailable,
    /// The response violates the ranking contract (scores must not increase).
    BadRanking,
}

/// One ranked match from the vector search: an identifier, a similarity
/// score in millionths of a unit, and the stored payload, serialized.
pub struct RespRetriever {
    pub id: String,
    pub score_micros: i64,
    pub payload: String,
}

/// Scores are monotonically non-increasing — the retrieval capability's
/// ranking contract.
pub open spec fn scores_descending(matches: Seq<RespRetriever>) -> bool {
    forall|i: int, j: int|
        0 <= i <= j < matches.len() ==> #[trigger] matches[i].score_micros
            >= #[trigger] matches[j].score_micros
}

/// Does the response respect the ranking contract?
pub fn ranking_descending(matches: &Vec<RespRetriever>) -> (r: bool)
    ensures
        r == scores_descending(matches@),
{
    let mut i: usize = 1;
    while i < matches.len()
        invariant
            1 <= i,
            i <= matches@.len() || matches@.len() == 0,
            forall|p: int, q: int|
                0 <= p <= q < i && q < matches@.len() ==> #[trigger] matches@[p].score_micros
                    >= #[trigger] matches@[q].score_micros,
        decreases matches@.len() - i,
    {
        if matches[i - 1].score_micros < matches[i].score_micros {
            return false;
        }
        proof {
            assert forall|p: int, q: int|
                0 <= p <= q < i + 1 && q < matches@.len() implies #[trigger] matches@[p].score_micros
                >= #[trigger] matches@[q].score_micros by {
                if q == i && p < i {
                    assert(matches@[p].score_micros >= matches@[i - 1].score_micros);
                }
            }
        }
        i += 1;
    }
    true
}

/// Where one query stands.
pub enum RagPhase {
    /// The query text awaits its embedding vector.
    AwaitEmbedding,
    /// The embedding went to the vector search; matches are awaited.
    AwaitRetrieval,
    /// The prompt awaits the decoding controller's answer.
    AwaitGeneration,
    /// The answer (or failure) has been delivered.
    Complete,
}

/// One query moving through embed, retrieve, and decode, in that order.
pub struct RagRequest {
    pub query: String,
    pub top_k: u64,
    pub phase: RagPhase,
}

impl RagRequest {
    pub fn new(query: String, top_k: u64) -> (r: Self)
        ensures
            r.query@ == query@,
            r.top_k == top_k,
            r.phase is AwaitEmbedding,
    {
        RagRequest { query, top_k, phase: RagPhase::AwaitEmbedding }
    }

    /// The embedding capability produced the query's vector; the vector
    /// search comes next.
    pub fn embedding_ready(&mut self)
        requires
            old(self).phase is AwaitEmbedding,
        ensures
            final(self).phase is AwaitRetrieval,
            final(self).query@ == old(self).query@,
            final(self).top_k == old(self).top_k,
    {
        self.phase = RagPhase::AwaitRetrieval;
    }

    /// The vector search answered. A response that violates the ranking
    /// contract is refused and the request stays where it was.
    pub fn retrieval_ready(&mut self, matches: &Vec<RespRetriever>) -> (r: Result<
        (),
        RetrievalError,
    >)
        requires
            old(self).phase is AwaitRetrieval,
        ensures
            r is Ok <==> scores_descending(matches@),
            r is Err ==> r == Result::<(), RetrievalError>::Err(RetrievalError::BadRanking),
            final(self).phase is AwaitGeneration <==> scores_descending(matches@),
            !scores_descending(matches@) ==> final(self).phase is AwaitRetrieval,
            final(self).query@ == old(self).query@,
            final(self).top_k == old(self).top_k,
    {
        if ranking_descending(matches) {
            self.phase = RagPhase::AwaitGeneration;
            Result::Ok(())
        } else {
            Result::Err(RetrievalError::BadRanking)
        }
    }

    /// The vector search is unavailable: the query aborts, and the caller
    /// surfaces the retrieval error.
    pub fn retrieval_failed(&mut self) -> (r: RetrievalError)
        requires
            old(self).phase is AwaitRetrieval,
        ensures
            final(self).phase is Complete,
            r == RetrievalError::Unavailable,
            final(self).query@ == old(self).query@,
            final(self).top_k == old(self).top_k,
    {
        self.phase = RagPhase::Complete;
        RetrievalError::Unavailable
    }

    /// The prompt handed to the decoding controller. Composing retrieved
    /// payloads into the prompt is the caller's policy; the request itself
    /// passes the query text through unchanged.
    pub fn prompt_text(&self) -> (r: &String)
        requires
            self.phase is AwaitGeneration,
        ensures
            r@ == self.query@,
    {
        &self.query
    }

    /// The decoding controller delivered the answer or its failure.
    pub fn generation_ready(&mut self)
        requires
            old(self).phase is AwaitGeneration,
        ensures
            final(self).phase is Complete,
            final(self).query@ == old(self).query@,
            final(self).top_k == old(self).top_k,
    {
        self.phase = RagPhase::Complete;
    }
}

} // verus!
