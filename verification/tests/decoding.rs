use canary_engine::action::{Action, SessionKind, Slot};
use canary_engine::decoder::{decode_autoregressive, empty_cache_shape, DecodeLoop};
use canary_engine::error::CanaryError;
use canary_engine::tensor::FloatTensor;

const EOS: i64 = 3;

fn floats(shape: &[i64], values: &[f32]) -> FloatTensor {
    FloatTensor {
        shape: shape.to_vec(),
        bits: values.iter().map(|v| v.to_bits()).collect(),
    }
}

/// Scores of one time step, with the greatest one at `token`.
fn logits(token: usize) -> FloatTensor {
    let mut values = vec![-1.0f32; 8];
    values[token] = 2.5;
    floats(&[1, 1, 8], &values)
}

fn hidden(cache_len: i64) -> FloatTensor {
    floats(&[2, 1, cache_len, 1], &vec![0.5; 2 * cache_len as usize])
}

fn begun(prompt: &[i64], max: usize) -> DecodeLoop {
    let mut d = decode_autoregressive(prompt.to_vec(), EOS, max);
    assert!(matches!(d.action(), Action::InspectDecoder));
    d.on_decoder_shape(Ok((2, 1))).unwrap();
    match d.action() {
        Action::CreateEmpty { slot, shape } => {
            assert_eq!(slot, Slot::DecoderMems);
            assert_eq!(shape, vec![2, 1, 0, 1]);
        }
        _ => panic!("the empty cache is due"),
    }
    d.on_created(Ok(())).unwrap();
    d
}

fn expect_ids(d: &DecodeLoop, shape: &[i64], data: &[i64]) {
    match d.action() {
        Action::CreateInt { slot, ints } => {
            assert_eq!(slot, Slot::InputIds);
            assert_eq!(ints.shape, shape);
            assert_eq!(ints.data, data);
        }
        _ => panic!("input ids are due"),
    }
}

fn expect_tokens(d: &DecodeLoop, expected: &[i64]) {
    match d.action() {
        Action::Detokenize { tokens } => assert_eq!(tokens.as_slice(), expected),
        _ => panic!("the text is due"),
    }
}

fn run(d: &mut DecodeLoop, token: usize) {
    d.on_created(Ok(())).unwrap();
    match d.action() {
        Action::Run { session, inputs } => {
            assert_eq!(session, SessionKind::Decoder);
            let bound: Vec<(&str, Slot)> = inputs.iter().map(|b| (b.input, b.slot)).collect();
            assert_eq!(
                bound,
                vec![
                    ("input_ids", Slot::InputIds),
                    ("encoder_embeddings", Slot::EncoderEmbeddings),
                    ("encoder_mask", Slot::EncoderMask),
                    ("decoder_mems", Slot::DecoderMems),
                ]
            );
        }
        _ => panic!("a run is due"),
    }
    d.on_run(Ok(())).unwrap();
    assert!(matches!(d.action(), Action::ReadFloat { output: "logits" }));
    let scores = logits(token);
    assert!(d.accepts_float(&scores));
    d.on_float(Ok(scores)).unwrap();
}

fn keep(d: &mut DecodeLoop, cache_len: i64) {
    assert!(matches!(d.action(), Action::ReadFloat { output: "decoder_hidden_states" }));
    let states = hidden(cache_len);
    assert!(d.accepts_float(&states));
    d.on_float(Ok(states)).unwrap();
    match d.action() {
        Action::CreateFloat { slot, floats } => {
            assert_eq!(slot, Slot::DecoderMems);
            assert_eq!(floats.shape, vec![2, 1, cache_len, 1]);
            assert_eq!(floats.bits, hidden(cache_len).bits);
        }
        _ => panic!("the cache is due"),
    }
    d.on_created(Ok(())).unwrap();
}

#[test]
fn the_prompt_is_fed_first_and_then_single_tokens() {
    let mut d = begun(&[11, 12, 13], 10);
    expect_ids(&d, &[1, 3], &[11, 12, 13]);
    run(&mut d, 5);
    keep(&mut d, 3);
    expect_ids(&d, &[1, 1], &[5]);
    run(&mut d, 6);
    keep(&mut d, 4);
    expect_ids(&d, &[1, 1], &[6]);
    run(&mut d, EOS as usize);
    expect_tokens(&d, &[11, 12, 13, 5, 6]);
}

#[test]
fn a_cache_of_length_zero_changes_nothing_in_what_is_fed() {
    let mut d = begun(&[11, 12], 10);
    run(&mut d, 5);
    keep(&mut d, 0);
    expect_ids(&d, &[1, 1], &[5]);
}

#[test]
fn decoding_stops_at_the_limit() {
    let mut d = begun(&[11], 2);
    run(&mut d, 5);
    keep(&mut d, 1);
    run(&mut d, 5);
    keep(&mut d, 2);
    expect_tokens(&d, &[11, 5, 5]);
}

#[test]
fn decoding_stops_at_once_on_eos() {
    let mut d = begun(&[11], 5);
    run(&mut d, EOS as usize);
    expect_tokens(&d, &[11]);
}

#[test]
fn a_limit_of_zero_runs_nothing() {
    let d = begun(&[11, 12], 0);
    expect_tokens(&d, &[11, 12]);
}

#[test]
fn the_last_time_step_of_the_first_sequence_decides() {
    let scores = floats(&[2, 2, 3], &[9.0, 0.0, 0.0, 0.0, 0.0, 4.0, 0.0, 9.0, 0.0, 9.0, 0.0, 0.0]);
    assert!(scores.has_last_step());
    assert_eq!(scores.greedy_token(), 2);
}

#[test]
fn scores_without_a_last_step_are_told_apart() {
    assert!(!floats(&[1, 1], &[0.0]).has_last_step());
    assert!(!floats(&[1, 0, 4], &[]).has_last_step());
    assert!(!floats(&[1, 2, 4], &[0.0; 7]).has_last_step());
    assert!(!floats(&[1, i64::MAX, i64::MAX], &[0.0]).has_last_step());
    assert!(floats(&[1, 2, 4], &[0.0; 8]).has_last_step());
    let empty = floats(&[1, 2, 0], &[]);
    assert!(empty.has_last_step());
    assert_eq!(empty.greedy_token(), 0);
}

fn expect_failure(d: &DecodeLoop, r: Result<(), CanaryError>, text: &str) {
    assert_eq!(r.unwrap_err().to_string(), text);
    assert!(matches!(d.action(), Action::Stopped));
}

#[test]
fn an_empty_cache_has_one_sequence_of_length_zero() {
    assert_eq!(empty_cache_shape(10, 1024), vec![10, 1, 0, 1024]);
}

#[test]
fn a_refused_decoder_stops_the_loop() {
    let mut d = decode_autoregressive(vec![1], EOS, 4);
    let r = d.on_decoder_shape(Err(CanaryError::InferenceError("shape".to_string())));
    expect_failure(&d, r, "Inference error: shape");
}

#[test]
fn a_tensor_that_cannot_be_created_stops_the_loop() {
    let mut d = begun(&[1], 4);
    let r = d.on_created(Err(ort::Error::new("ids")));
    expect_failure(&d, r, "ONNX runtime error: ids");

    let mut d = begun(&[1], 4);
    run(&mut d, 5);
    d.on_float(Ok(hidden(1))).unwrap();
    let r = d.on_created(Err(ort::Error::new("mems")));
    expect_failure(&d, r, "ONNX runtime error: mems");
}

#[test]
fn no_run_follows_a_failed_run() {
    let mut d = begun(&[1], 4);
    run(&mut d, 5);
    keep(&mut d, 1);
    d.on_created(Ok(())).unwrap();
    let r = d.on_run(Err(ort::Error::new("run")));
    expect_failure(&d, r, "ONNX runtime error: run");
}

#[test]
fn an_output_that_cannot_be_read_stops_the_loop() {
    let mut d = begun(&[1], 4);
    d.on_created(Ok(())).unwrap();
    d.on_run(Ok(())).unwrap();
    let r = d.on_float(Err(ort::Error::new("type")));
    expect_failure(&d, r, "Inference error: Failed to extract logits: type");

    let mut d = begun(&[1], 4);
    run(&mut d, 5);
    let r = d.on_float(Err(ort::Error::new("type")));
    expect_failure(
        &d,
        r,
        "Inference error: Failed to extract decoder_hidden_states: type",
    );
}
