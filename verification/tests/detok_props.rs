use rag_core::detok::TokenOutputStream;

// A small word-level tokenizer: ids 0..=10, with an end-of-sequence token at
// id 3 and one vocabulary entry whose text ends in U+FFFD.
fn test_tokenizer() -> tokenizers::Tokenizer {
    let json = "{\"version\":\"1.0\",\"model\":{\"type\":\"WordLevel\",\"vocab\":{\
\"Hello\":0,\"w1\":1,\"w2\":2,\"<|endoftext|>\":3,\"w4\":4,\"w5\":5,\"w6\":6,\
\"w7\":7,\"w8\":8,\"w9\":9,\"a\\uFFFD\":10,\"<unk>\":11},\"unk_token\":\"<unk>\"}}";
    tokenizers::Tokenizer::from_bytes(json.as_bytes()).unwrap()
}

fn decode_whole(t: &tokenizers::Tokenizer, ids: &[u32]) -> String {
    t.decode(ids, true).unwrap()
}

#[test]
fn round_trip_matches_whole_decode() {
    let tokenizer = test_tokenizer();
    let ids: Vec<u32> = vec![0, 7, 9, 4];
    let expected = decode_whole(&tokenizer, &ids);

    let mut stream = TokenOutputStream::new(test_tokenizer());
    let mut collected: Vec<u8> = Vec::new();
    for id in &ids {
        if let Some(frag) = stream.push(*id).unwrap() {
            collected.extend_from_slice(&frag);
        }
    }
    if let Some(rest) = stream.flush_remaining().unwrap() {
        collected.extend_from_slice(&rest);
    }
    assert_eq!(String::from_utf8(collected).unwrap(), expected);
}

#[test]
fn fragments_stream_out_in_order() {
    let mut stream = TokenOutputStream::new(test_tokenizer());
    let first = stream.push(0).unwrap().unwrap();
    assert_eq!(String::from_utf8(first).unwrap(), "Hello");
    let second = stream.push(7).unwrap().unwrap();
    assert_eq!(String::from_utf8(second).unwrap(), " w7");
    assert!(stream.flush_remaining().unwrap().is_none());
}

#[test]
fn text_ending_mid_character_is_held_until_flush() {
    // The entry at id 10 decodes to text ending in U+FFFD, the decoder's sign
    // of an incomplete character: push buffers it, flush hands it out.
    let tokenizer = test_tokenizer();
    let ids: Vec<u32> = vec![0, 10];
    let expected = decode_whole(&tokenizer, &ids);

    let mut stream = TokenOutputStream::new(test_tokenizer());
    let mut collected: Vec<u8> = Vec::new();
    if let Some(frag) = stream.push(0).unwrap() {
        collected.extend_from_slice(&frag);
    }
    assert!(stream.push(10).unwrap().is_none()); // held: ends mid-character
    let rest = stream.flush_remaining().unwrap().unwrap();
    collected.extend_from_slice(&rest);
    assert_eq!(String::from_utf8(collected).unwrap(), expected);
}

#[test]
fn clear_leaves_no_state_behind() {
    // Push one sequence, clear, push a fresh sequence: the fragments must be
    // exactly those of a stream that never saw the first sequence.
    let mut reused = TokenOutputStream::new(test_tokenizer());
    reused.push(0).unwrap();
    reused.push(7).unwrap();
    reused.clear();

    let mut fresh = TokenOutputStream::new(test_tokenizer());

    let ids: Vec<u32> = vec![9, 4, 5];
    for id in &ids {
        let a = reused.push(*id).unwrap();
        let b = fresh.push(*id).unwrap();
        assert_eq!(a, b);
    }
    assert_eq!(
        reused.flush_remaining().unwrap(),
        fresh.flush_remaining().unwrap()
    );
}
