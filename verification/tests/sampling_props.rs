use rag_core::sampling::{apply_repeat_penalty, argmax, select_next_greedy, SamplingParams};

fn base_logits() -> Vec<i64> {
    vec![0i64; 10]
}

#[test]
fn penalty_divides_positive_scores() {
    // repeat_penalty = 1.2, lookback window 2, history [5,5,9]: the window is
    // [5,9], so entries 5 and 9 are each damped once.
    let mut logits = base_logits();
    logits[5] = 2_000_000; // 2.0
    logits[9] = 1_000_000; // 1.0
    let history: Vec<u32> = vec![5, 5, 9];
    let out = apply_repeat_penalty(&logits, &history, 2, 1_200_000);
    assert_eq!(out[5], 1_666_666); // 2.0 / 1.2
    assert_eq!(out[9], 833_333); // 1.0 / 1.2
    for i in 0..10 {
        if i != 5 && i != 9 {
            assert_eq!(out[i], 0);
        }
    }
}

#[test]
fn penalty_multiplies_negative_scores() {
    let mut logits = base_logits();
    logits[4] = -1_200_000;
    let history: Vec<u32> = vec![4];
    let out = apply_repeat_penalty(&logits, &history, 8, 1_200_000);
    assert_eq!(out[4], -1_440_000);
}

#[test]
fn penalty_counts_each_window_token_once() {
    // A token recurring in the window is damped exactly once: a window with
    // the same token set yields the same penalized scores.
    let mut logits = base_logits();
    logits[5] = 2_400_000;
    logits[9] = 1_200_000;
    let recurring: Vec<u32> = vec![5, 5, 9];
    let distinct: Vec<u32> = vec![9, 5];
    let out1 = apply_repeat_penalty(&logits, &recurring, 3, 1_200_000);
    let out2 = apply_repeat_penalty(&logits, &distinct, 2, 1_200_000);
    assert_eq!(out1, out2);
    assert_eq!(out1[5], 2_000_000); // damped once, not twice
}

#[test]
fn penalty_only_reaches_the_window() {
    // Token 5 sits outside the last-2 window [5,9]... token 2 does: history
    // [2,5,9], window 2 is [5,9]; entry 2 is untouched.
    let mut logits = base_logits();
    logits[2] = 1_200_000;
    logits[5] = 1_200_000;
    let history: Vec<u32> = vec![2, 5, 9];
    let out = apply_repeat_penalty(&logits, &history, 2, 1_200_000);
    assert_eq!(out[2], 1_200_000);
    assert_eq!(out[5], 1_000_000);
}

#[test]
fn penalty_of_one_passes_logits_through() {
    let mut logits = base_logits();
    logits[3] = 777_777;
    logits[6] = -555_555;
    let history: Vec<u32> = vec![3, 6];
    let out = apply_repeat_penalty(&logits, &history, 4, 1_000_000);
    assert_eq!(out, logits);
}

#[test]
fn empty_history_changes_nothing() {
    let mut logits = base_logits();
    logits[1] = 123_456;
    let history: Vec<u32> = vec![];
    let out = apply_repeat_penalty(&logits, &history, 64, 1_200_000);
    assert_eq!(out, logits);
}

#[test]
fn argmax_breaks_ties_toward_lowest_index() {
    let logits: Vec<i64> = vec![3, 7, 7, 1];
    assert_eq!(argmax(&logits), 1);
}

#[test]
fn greedy_selection_is_deterministic() {
    let mut logits = base_logits();
    logits[5] = 2_000_000;
    logits[9] = 1_999_999;
    let history: Vec<u32> = vec![];
    let params = SamplingParams {
        seed: 42,
        temperature_micros: None,
        top_p_micros: None,
        repeat_penalty_micros: 1_100_000,
        repeat_last_n: 64,
    };
    let a = select_next_greedy(&logits, &history, &params);
    let b = select_next_greedy(&logits, &history, &params);
    assert_eq!(a, 5);
    assert_eq!(a, b);
}

#[test]
fn greedy_selection_respects_penalty() {
    // Token 5 leads, but it was just emitted; damping it hands the argmax to
    // token 9.
    let mut logits = base_logits();
    logits[5] = 2_000_000;
    logits[9] = 1_900_000;
    let history: Vec<u32> = vec![5];
    let params = SamplingParams {
        seed: 0,
        temperature_micros: None,
        top_p_micros: None,
        repeat_penalty_micros: 1_200_000,
        repeat_last_n: 64,
    };
    assert_eq!(select_next_greedy(&logits, &history, &params), 9);
}
