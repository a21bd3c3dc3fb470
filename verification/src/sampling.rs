//! The sampling policy: given the logits of the last position and the token
//! history, choose the next token. A repeat penalty first damps the scores of
//! tokens seen within a lookback window; greedy decoding then takes the
//! argmax (lowest index on ties). Non-greedy decoding (temperature set) is
//! performed by an external sampler on the penalized scores; it is driven
//! through the decoding controller's events.
use vstd::prelude::*;

use crate::logits_wf;
use crate::LOGIT_MAGNITUDE_MAX;

verus! {

/// One unit of score, expressed in millionths.
pub const SCORE_UNIT_MICROS: u64 = 1_000_000;

/// Upper bound on the repeat penalty (one hundred units, in millionths).
pub const PENALTY_MICROS_MAX: u32 = 100_000_000;

/// Immutable per-request sampling configuration.
///
/// `temperature_micros == None` selects greedy decoding; the seed and the
/// nucleus threshold only matter on the non-greedy path. The repeat penalty
/// is a fixed-point factor in millionths (`1_200_000` divides positive scores
/// by 1.2); `1_000_000` leaves the logits unchanged.
#[derive(Clone, Copy)]
pub struct SamplingParams {
    pub seed: u64,
    pub temperature_micros: Option<u64>,
    pub top_p_micros: Option<u64>,
    pub repeat_penalty_micros: u32,
    pub repeat_last_n: usize,
}

impl SamplingParams {
    pub open spec fn wf(self) -> bool {
        1 <= self.repeat_penalty_micros <= PENALTY_MICROS_MAX
    }

    /// Absent temperature means deterministic argmax decoding.
    pub open spec fn greedy(self) -> bool {
        self.temperature_micros is None
    }

    pub fn is_greedy(&self) -> (r: bool)
        ensures
            r == self.greedy(),
    {
        match self.temperature_micros {
            Option::None => true,
            Option::Some(_) => false,
        }
    }
}

/// First index of the lookback window of length `n` over a history of length
/// `len`: the last `n` entries, or the whole history if it is shorter.
pub open spec fn window_start(len: int, n: int) -> int {
    if len >= n {
        len - n
    } else {
        0
    }
}

/// Does token `t` occur within the last `n` entries of `history`?
pub open spec fn in_window(history: Seq<u32>, n: int, t: u32) -> bool {
    exists|i: int|
        window_start(history.len() as int, n) <= i < history.len() && #[trigger] history[i] == t
}

/// The repeat penalty on a single fixed-point score: a positive score is
/// divided by the penalty factor, a negative one multiplied by it, and zero
/// stays zero — previously seen tokens are damped symmetrically around zero.
/// Quotients are truncated toward zero, as the executable arithmetic does.
pub open spec fn penalized_score(v: int, penalty_micros: int) -> int {
    if v >= 0 {
        (v * SCORE_UNIT_MICROS) / penalty_micros
    } else {
        -(((-v) * penalty_micros) / SCORE_UNIT_MICROS as int)
    }
}

/// The whole penalized logit vector: entry `t` is damped exactly when token
/// `t` occurs in the lookback window, and is damped exactly once however many
/// times it recurs there.
pub open spec fn penalty_map(l: Seq<i64>, history: Seq<u32>, n: int, penalty_micros: int) -> Seq<
    i64,
> {
    Seq::new(
        l.len(),
        |i: int|
            if in_window(history, n, i as u32) {
                penalized_score(l[i] as int, penalty_micros) as i64
            } else {
                l[i]
            },
    )
}

/// Index `i` holds the greatest score and is the lowest such index.
pub open spec fn is_argmax(l: Seq<i64>, i: int) -> bool {
    &&& 0 <= i < l.len()
    &&& forall|j: int| 0 <= j < l.len() ==> #[trigger] l[j] <= l[i]
    &&& forall|j: int| 0 <= j < i ==> #[trigger] l[j] < l[i]
}

/// The index of the greatest score, ties broken toward the lowest index.
pub open spec fn argmax_of(l: Seq<i64>) -> int
    decreases l.len(),
{
    if l.len() <= 1 {
        0
    } else {
        let prev = argmax_of(l.drop_last());
        if l[l.len() - 1] > l[prev] {
            l.len() - 1
        } else {
            prev
        }
    }
}

/// Law: the repeat penalty touches each vocabulary entry according to whether
/// its token occurs in the lookback window at all; two histories whose
/// windows hold the same set of tokens are penalized identically, so a token
/// recurring in the window is penalized exactly once.
pub proof fn lemma_penalty_counts_once(
    l: Seq<i64>,
    h1: Seq<u32>,
    h2: Seq<u32>,
    n: int,
    penalty_micros: int,
)
    requires
        forall|t: u32| in_window(h1, n, t) <==> in_window(h2, n, t),
    ensures
        penalty_map(l, h1, n, penalty_micros) == penalty_map(l, h2, n, penalty_micros),
{
    let m1 = penalty_map(l, h1, n, penalty_micros);
    let m2 = penalty_map(l, h2, n, penalty_micros);
    assert forall|i: int| 0 <= i < l.len() implies m1[i] == m2[i] by {
        assert(in_window(h1, n, i as u32) <==> in_window(h2, n, i as u32));
    }
    assert(m1 =~= m2);
}

/// Law: greedy decoding is deterministic — the argmax contract pins a unique
/// index, with ties broken toward the lowest index.
pub proof fn lemma_greedy_deterministic(l: Seq<i64>, i: int, j: int)
    requires
        is_argmax(l, i),
        is_argmax(l, j),
    ensures
        i == j,
{
    if i < j {
        assert(l[i] < l[j]);
        assert(l[j] <= l[i]);
    }
    if j < i {
        assert(l[j] < l[i]);
        assert(l[i] <= l[j]);
    }
}

/// Does token `t` occur in `history[start..]`?
fn token_in_suffix(history: &Vec<u32>, start: usize, t: u32) -> (r: bool)
    requires
        start <= history@.len(),
    ensures
        r == exists|i: int| start <= i < history@.len() && #[trigger] history@[i] == t,
{
    let mut i: usize = start;
    while i < history.len()
        invariant
            start <= i <= history@.len(),
            forall|j: int| start <= j < i ==> #[trigger] history@[j] != t,
        decreases history@.len() - i,
    {
        if history[i] == t {
            return true;
        }
        i += 1;
    }
    false
}

/// Apply the repeat penalty to every vocabulary entry whose token occurs in
/// the last `repeat_last_n` entries of `history`.
pub fn apply_repeat_penalty(
    logits: &Vec<i64>,
    history: &Vec<u32>,
    repeat_last_n: usize,
    repeat_penalty_micros: u32,
) -> (r: Vec<i64>)
    requires
        logits_wf(logits@),
        1 <= repeat_penalty_micros <= PENALTY_MICROS_MAX,
    ensures
        r@ == penalty_map(logits@, history@, repeat_last_n as int, repeat_penalty_micros as int),
{
    let ghost target = penalty_map(
        logits@,
        history@,
        repeat_last_n as int,
        repeat_penalty_micros as int,
    );
    let start: usize = if history.len() >= repeat_last_n {
        history.len() - repeat_last_n
    } else {
        0
    };
    assert(start == window_start(history@.len() as int, repeat_last_n as int));
    let mut out: Vec<i64> = Vec::new();
    let mut i: usize = 0;
    while i < logits.len()
        invariant
            0 <= i <= logits@.len(),
            logits_wf(logits@),
            1 <= repeat_penalty_micros <= PENALTY_MICROS_MAX,
            start == window_start(history@.len() as int, repeat_last_n as int),
            target == penalty_map(
                logits@,
                history@,
                repeat_last_n as int,
                repeat_penalty_micros as int,
            ),
            out@.len() == i,
            forall|j: int| 0 <= j < i ==> #[trigger] out@[j] == target[j],
        decreases logits@.len() - i,
    {
        let v = logits[i];
        let seen = token_in_suffix(history, start, i as u32);
        assert(seen == in_window(history@, repeat_last_n as int, i as u32));
        if seen {
            assert(-LOGIT_MAGNITUDE_MAX <= logits@[i as int] <= LOGIT_MAGNITUDE_MAX);
            let mag: u64 = if v >= 0 {
                v as u64
            } else {
                (-v) as u64
            };
            assert(mag * (repeat_penalty_micros as u64) <= 1_000_000_000_000_000_000u64)
                by (nonlinear_arith)
                requires
                    mag <= 10_000_000_000u64,
                    repeat_penalty_micros <= 100_000_000u32,
            ;
            let damped: u64 = if v >= 0 {
                (mag * SCORE_UNIT_MICROS) / (repeat_penalty_micros as u64)
            } else {
                (mag * (repeat_penalty_micros as u64)) / SCORE_UNIT_MICROS
            };
            let w: i64 = if v >= 0 {
                damped as i64
            } else {
                -(damped as i64)
            };
            assert(w == penalized_score(v as int, repeat_penalty_micros as int));
            out.push(w);
        } else {
            out.push(v);
        }
        i += 1;
    }
    assert(out@ =~= target);
    out
}

/// The index of the greatest score, ties broken toward the lowest index.
pub fn argmax(logits: &Vec<i64>) -> (r: usize)
    requires
        logits@.len() >= 1,
    ensures
        r as int == argmax_of(logits@),
        is_argmax(logits@, r as int),
{
    let mut best: usize = 0;
    let mut i: usize = 1;
    assert(logits@.take(1).len() == 1 && argmax_of(logits@.take(1)) == 0);
    while i < logits.len()
        invariant
            0 <= best < i <= logits@.len(),
            logits@.len() >= 1,
            best as int == argmax_of(logits@.take(i as int)),
            forall|j: int| 0 <= j < i ==> #[trigger] logits@[j] <= logits@[best as int],
            forall|j: int| 0 <= j < best ==> #[trigger] logits@[j] < logits@[best as int],
        decreases logits@.len() - i,
    {
        proof {
            let pre = logits@.take(i as int);
            let ext = logits@.take(i + 1);
            assert(ext.drop_last() =~= pre);
            assert(ext[ext.len() - 1] == logits@[i as int]);
            assert(ext[argmax_of(pre)] == logits@[argmax_of(pre)]);
        }
        if logits[i] > logits[best] {
            best = i;
        }
        i += 1;
    }
    assert(logits@.take(i as int) =~= logits@);
    best
}

/// Select the next token under greedy decoding: damp recently seen tokens,
/// then take the argmax of the penalized scores.
pub fn select_next_greedy(logits: &Vec<i64>, history: &Vec<u32>, params: &SamplingParams) -> (t:
    u32)
    requires
        logits_wf(logits@),
        params.wf(),
    ensures
        t as int == argmax_of(
            penalty_map(
                logits@,
                history@,
                params.repeat_last_n as int,
                params.repeat_penalty_micros as int,
            ),
        ),
        is_argmax(
            penalty_map(
                logits@,
                history@,
                params.repeat_last_n as int,
                params.repeat_penalty_micros as int,
            ),
            t as int,
        ),
{
    let penalized = apply_repeat_penalty(
        logits,
        history,
        params.repeat_last_n,
        params.repeat_penalty_micros,
    );
    let idx = argmax(&penalized);
    idx as u32
}

} // verus!
