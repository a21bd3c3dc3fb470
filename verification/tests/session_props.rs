use rag_core::generate::{GenError, GenSession, StepOutcome};
use rag_core::sampling::SamplingParams;

fn test_tokenizer() -> tokenizers::Tokenizer {
    let json = "{\"version\":\"1.0\",\"model\":{\"type\":\"WordLevel\",\"vocab\":{\
\"Hello\":0,\"w1\":1,\"w2\":2,\"<|endoftext|>\":3,\"w4\":4,\"w5\":5,\"w6\":6,\
\"w7\":7,\"w8\":8,\"w9\":9,\"<unk>\":10},\"unk_token\":\"<unk>\"}}";
    tokenizers::Tokenizer::from_bytes(json.as_bytes()).unwrap()
}

fn tokenizer_without_eos() -> tokenizers::Tokenizer {
    let json = "{\"version\":\"1.0\",\"model\":{\"type\":\"WordLevel\",\"vocab\":{\
\"Hello\":0,\"w1\":1,\"<unk>\":2},\"unk_token\":\"<unk>\"}}";
    tokenizers::Tokenizer::from_bytes(json.as_bytes()).unwrap()
}

fn greedy_params() -> SamplingParams {
    SamplingParams {
        seed: 299792458,
        temperature_micros: None,
        top_p_micros: None,
        repeat_penalty_micros: 1_000_000,
        repeat_last_n: 64,
    }
}

fn logits_favoring(token: usize) -> Vec<i64> {
    let mut l = vec![0i64; 10];
    l[token] = 2_000_000;
    l
}

#[test]
fn greedy_run_stops_at_end_of_sequence() {
    // Prompt "Hello", budget of five new tokens, greedy mode, a stubbed
    // forward capability favoring token 7 on every step but the fourth, which
    // favors the end-of-sequence token 3: the run samples [7,7,7,3] and stops
    // at step four without reaching the budget.
    let (mut session, first) =
        GenSession::start(test_tokenizer(), greedy_params(), "Hello", 5).unwrap();
    match first {
        StepOutcome::Forward { ctxt, start_pos } => {
            assert_eq!(ctxt, vec![0u32]);
            assert_eq!(start_pos, 0);
        }
        _ => panic!("expected a prefill forward request"),
    }

    let mut sampled: Vec<u32> = Vec::new();
    let mut step = 0usize;
    let mut outcome = session.on_logits(&logits_favoring(7));
    loop {
        step += 1;
        match outcome {
            StepOutcome::Forward { ctxt, start_pos } => {
                assert_eq!(ctxt.len(), 1);
                assert_eq!(start_pos, session.tokens.len() - 1);
                sampled.push(ctxt[0]);
                let next = if step == 3 { 3 } else { 7 };
                outcome = session.on_logits(&logits_favoring(next));
            }
            StepOutcome::Reset => break,
            StepOutcome::Sample { .. } => panic!("greedy mode never samples externally"),
        }
    }
    // The reset request arrives after the fourth sampled token; only the
    // first three went back to the forward capability.
    assert_eq!(sampled, vec![7, 7, 7]);
    assert_eq!(session.tokens, vec![0, 7, 7, 7, 3]);
    assert_eq!(session.generated, 4);

    let answer = session.finish().unwrap();
    assert_eq!(String::from_utf8(answer).unwrap(), "w7 w7 w7");
    assert!(!session.cache_dirty);
}

#[test]
fn budget_stops_generation_without_eos() {
    let (mut session, _) =
        GenSession::start(test_tokenizer(), greedy_params(), "Hello", 2).unwrap();
    let out1 = session.on_logits(&logits_favoring(7));
    assert!(matches!(out1, StepOutcome::Forward { .. }));
    let out2 = session.on_logits(&logits_favoring(9));
    assert!(matches!(out2, StepOutcome::Reset));
    assert_eq!(session.tokens, vec![0, 7, 9]);
    assert_eq!(session.generated, 2);
    let answer = session.finish().unwrap();
    assert_eq!(String::from_utf8(answer).unwrap(), "w7 w9");
}

#[test]
fn forward_failure_discards_partial_text_but_resets_first() {
    let (mut session, _) =
        GenSession::start(test_tokenizer(), greedy_params(), "Hello", 5).unwrap();
    let out = session.on_logits(&logits_favoring(7));
    assert!(matches!(out, StepOutcome::Forward { .. }));
    // The device fails mid-request: the controller still demands the cache
    // reset, and the request yields the error, not the partial answer.
    let out = session.on_forward_failure();
    assert!(matches!(out, StepOutcome::Reset));
    let r = session.finish();
    assert_eq!(r, Err(GenError::Forward));
    assert!(!session.cache_dirty);
}

#[test]
fn next_request_is_unaffected_by_prior_failure() {
    // Cache-reset invariant, observably: a request that follows a failed one
    // behaves exactly like a request against a fresh instance.
    let (mut failed, _) =
        GenSession::start(test_tokenizer(), greedy_params(), "Hello", 5).unwrap();
    failed.on_logits(&logits_favoring(7));
    failed.on_forward_failure();
    assert_eq!(failed.finish(), Err(GenError::Forward));

    let (mut after, _) = GenSession::start(test_tokenizer(), greedy_params(), "Hello", 2).unwrap();
    let (mut fresh, _) = GenSession::start(test_tokenizer(), greedy_params(), "Hello", 2).unwrap();
    for s in [&mut after, &mut fresh] {
        s.on_logits(&logits_favoring(7));
        s.on_logits(&logits_favoring(9));
    }
    assert_eq!(after.finish(), fresh.finish());
}

#[test]
fn non_greedy_mode_asks_for_external_sampling() {
    let params = SamplingParams {
        seed: 7,
        temperature_micros: Some(800_000),
        top_p_micros: Some(950_000),
        repeat_penalty_micros: 1_200_000,
        repeat_last_n: 64,
    };
    let (mut session, _) = GenSession::start(test_tokenizer(), params, "Hello", 3).unwrap();
    let mut logits = vec![0i64; 10];
    logits[0] = 1_200_000; // the prompt token 0 sits in the window: damped
    logits[9] = 500_000;
    match session.on_logits(&logits) {
        StepOutcome::Sample { logits: penalized } => {
            assert_eq!(penalized[0], 1_000_000);
            assert_eq!(penalized[9], 500_000);
        }
        _ => panic!("expected an external sampling request"),
    }
    // The external sampler answers; the loop goes on.
    match session.on_token(9) {
        StepOutcome::Forward { ctxt, start_pos } => {
            assert_eq!(ctxt, vec![9u32]);
            assert_eq!(start_pos, 1);
        }
        _ => panic!("expected the next forward request"),
    }
}

#[test]
fn start_with_tokens_holds_exactly_those_tokens() {
    let (session, first) =
        GenSession::start_with_tokens(test_tokenizer(), greedy_params(), vec![0, 7, 9], 4)
            .unwrap();
    assert_eq!(session.tokens, vec![0, 7, 9]);
    assert_eq!(session.eos_token, 3);
    assert_eq!(session.generated, 0);
    match first {
        StepOutcome::Forward { ctxt, start_pos } => {
            assert_eq!(ctxt, vec![0, 7, 9]);
            assert_eq!(start_pos, 0);
        }
        _ => panic!("expected a prefill forward request"),
    }
}

#[test]
fn empty_prompt_tokens_are_a_tokenization_error() {
    let r = GenSession::start_with_tokens(test_tokenizer(), greedy_params(), Vec::new(), 4);
    assert!(matches!(r, Err(GenError::Tokenization)));
}

#[test]
fn empty_prompt_is_a_tokenization_error() {
    let r = GenSession::start(test_tokenizer(), greedy_params(), "", 5);
    assert!(matches!(r, Err(GenError::Tokenization)));
}

#[test]
fn missing_eos_token_is_a_vocabulary_error() {
    let r = GenSession::start(tokenizer_without_eos(), greedy_params(), "Hello", 5);
    assert!(matches!(r, Err(GenError::Vocabulary)));
}
