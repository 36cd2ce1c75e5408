use canary_engine::action::{Action, SessionKind, Slot};
use canary_engine::engine::{CanaryConfig, CanaryEngine};
use canary_engine::error::CanaryError;
use canary_engine::loader::LoadedModels;
use canary_engine::tensor::{FloatTensor, IntTensor};
use canary_engine::transcription::Transcription;

const EOS: i64 = 1;

fn engine() -> CanaryEngine<u8, u8> {
    let mut engine = CanaryEngine::new();
    engine
        .load_model(Ok(LoadedModels { preprocessor: 0, encoder: 1, decoder: 2, vocab: 3 }))
        .unwrap();
    engine
}

fn start(samples: &[u32]) -> Transcription {
    engine().transcribe(samples.to_vec(), None, None, &CanaryConfig::default()).unwrap()
}

fn floats(shape: &[i64], bits: &[u32]) -> FloatTensor {
    FloatTensor { shape: shape.to_vec(), bits: bits.to_vec() }
}

fn ints(shape: &[i64], data: &[i64]) -> IntTensor {
    IntTensor { shape: shape.to_vec(), data: data.to_vec() }
}

fn expect_float(t: &Transcription, slot: Slot, expected: &FloatTensor) {
    match t.action() {
        Action::CreateFloat { slot: s, floats } => {
            assert_eq!(s, slot);
            assert_eq!(floats.shape, expected.shape);
            assert_eq!(floats.bits, expected.bits);
        }
        _ => panic!("a tensor of numbers is due"),
    }
}

fn expect_int(t: &Transcription, slot: Slot, expected: &IntTensor) {
    match t.action() {
        Action::CreateInt { slot: s, ints } => {
            assert_eq!(s, slot);
            assert_eq!(ints.shape, expected.shape);
            assert_eq!(ints.data, expected.data);
        }
        _ => panic!("a tensor of integers is due"),
    }
}

fn expect_run(t: &Transcription, session: SessionKind, expected: &[(&str, Slot)]) {
    match t.action() {
        Action::Run { session: s, inputs } => {
            assert_eq!(s, session);
            let bound: Vec<(&str, Slot)> = inputs.iter().map(|b| (b.input, b.slot)).collect();
            assert_eq!(bound, expected);
        }
        _ => panic!("a run is due"),
    }
}

fn encode(t: &mut Transcription, samples: &[u32]) {
    let n = samples.len() as i64;
    expect_float(t, Slot::Waveforms, &floats(&[1, n], samples));
    t.on_created(Ok(())).unwrap();
    expect_int(t, Slot::WaveformsLens, &ints(&[1], &[n]));
    t.on_created(Ok(())).unwrap();
    expect_run(
        t,
        SessionKind::Preprocessor,
        &[("waveforms", Slot::Waveforms), ("waveforms_lens", Slot::WaveformsLens)],
    );
    t.on_run(Ok(())).unwrap();
    assert!(matches!(t.action(), Action::ReadFloat { output: "features" }));
    t.on_float(Ok(floats(&[1, 2, 2], &[5, 6, 7, 8]))).unwrap();
    assert!(matches!(t.action(), Action::ReadInt { output: "features_lens" }));
    t.on_int(Ok(ints(&[1], &[2]))).unwrap();
    expect_float(t, Slot::Features, &floats(&[1, 2, 2], &[5, 6, 7, 8]));
    t.on_created(Ok(())).unwrap();
    expect_int(t, Slot::FeaturesLens, &ints(&[1], &[2]));
    t.on_created(Ok(())).unwrap();
    expect_run(
        t,
        SessionKind::Encoder,
        &[("audio_signal", Slot::Features), ("length", Slot::FeaturesLens)],
    );
    t.on_run(Ok(())).unwrap();
    assert!(matches!(t.action(), Action::ReadFloat { output: "encoder_embeddings" }));
    t.on_float(Ok(floats(&[1, 1, 3], &[1, 2, 3]))).unwrap();
    assert!(matches!(t.action(), Action::ReadInt { output: "encoder_mask" }));
    t.on_int(Ok(ints(&[1, 1], &[1]))).unwrap();
    expect_float(t, Slot::EncoderEmbeddings, &floats(&[1, 1, 3], &[1, 2, 3]));
    t.on_created(Ok(())).unwrap();
    expect_int(t, Slot::EncoderMask, &ints(&[1, 1], &[1]));
    t.on_created(Ok(())).unwrap();
}

#[test]
fn a_transcription_from_samples_to_text() {
    let config = CanaryConfig { use_pnc: false, max_sequence_length: 7 };
    let samples = [0.5f32.to_bits(), 0.25f32.to_bits(), 0];
    let mut t = engine().transcribe(samples.to_vec(), Some("fr"), None, &config).unwrap();
    encode(&mut t, &samples);
    assert!(matches!(
        t.action(),
        Action::BuildPrompt { source: "fr", target: "en", use_pnc: false }
    ));
    t.on_prompt(Ok((vec![40, 41], EOS))).unwrap();
    assert!(matches!(t.action(), Action::InspectDecoder));
    t.on_decoder_shape(Ok((1, 1))).unwrap();
    match t.action() {
        Action::CreateEmpty { slot, shape } => {
            assert_eq!(slot, Slot::DecoderMems);
            assert_eq!(shape, vec![1, 1, 0, 1]);
        }
        _ => panic!("the empty cache is due"),
    }
    t.on_created(Ok(())).unwrap();
    expect_int(&t, Slot::InputIds, &ints(&[1, 2], &[40, 41]));
    t.on_created(Ok(())).unwrap();
    t.on_run(Ok(())).unwrap();
    let one = 1.0f32.to_bits();
    t.on_float(Ok(floats(&[1, 2, 3], &[one, 0, 0, 0, 0, one]))).unwrap();
    t.on_float(Ok(floats(&[1, 1, 2, 1], &[9, 9]))).unwrap();
    expect_float(&t, Slot::DecoderMems, &floats(&[1, 1, 2, 1], &[9, 9]));
    t.on_created(Ok(())).unwrap();
    expect_int(&t, Slot::InputIds, &ints(&[1, 1], &[2]));
    t.on_created(Ok(())).unwrap();
    t.on_run(Ok(())).unwrap();
    t.on_float(Ok(floats(&[1, 1, 3], &[0, one, 0]))).unwrap();
    match t.action() {
        Action::Detokenize { tokens } => assert_eq!(*tokens, vec![40, 41, 2]),
        _ => panic!("the text is due"),
    }
    assert_eq!(t.on_text("bonjour".to_string()).text, "bonjour");
}

#[test]
fn languages_default_to_english() {
    let mut t = start(&[1, 2, 3, 4]);
    encode(&mut t, &[1, 2, 3, 4]);
    assert!(matches!(
        t.action(),
        Action::BuildPrompt { source: "en", target: "en", use_pnc: true }
    ));
}

fn expect_failure(t: &Transcription, r: Result<(), CanaryError>, text: &str) {
    assert_eq!(r.unwrap_err().to_string(), text);
    assert!(matches!(t.action(), Action::Stopped));
}

/// A transcription whose preprocessor has been run.
fn preprocessed() -> Transcription {
    let mut t = start(&[7]);
    t.on_created(Ok(())).unwrap();
    t.on_created(Ok(())).unwrap();
    t.on_run(Ok(())).unwrap();
    t
}

/// A transcription whose encoder has been run.
fn encoder_run() -> Transcription {
    let mut t = preprocessed();
    t.on_float(Ok(floats(&[1], &[1]))).unwrap();
    t.on_int(Ok(ints(&[1], &[1]))).unwrap();
    t.on_created(Ok(())).unwrap();
    t.on_created(Ok(())).unwrap();
    t.on_run(Ok(())).unwrap();
    t
}

#[test]
fn failures_to_create_or_run_stop_the_transcription() {
    let mut t = start(&[]);
    expect_float(&t, Slot::Waveforms, &floats(&[1, 0], &[]));
    let r = t.on_created(Err(ort::Error::new("empty")));
    expect_failure(&t, r, "ONNX runtime error: empty");

    let mut t = start(&[7]);
    t.on_created(Ok(())).unwrap();
    t.on_created(Ok(())).unwrap();
    let r = t.on_run(Err(ort::Error::new("run")));
    expect_failure(&t, r, "ONNX runtime error: run");
}

#[test]
fn failures_to_read_stop_the_transcription() {
    let mut t = preprocessed();
    let r = t.on_float(Err(ort::Error::new("t")));
    expect_failure(&t, r, "Inference error: Failed to extract features: t");

    let mut t = preprocessed();
    t.on_float(Ok(floats(&[1], &[1]))).unwrap();
    let r = t.on_int(Err(ort::Error::new("t")));
    expect_failure(&t, r, "Inference error: Failed to extract features_lens: t");

    let mut t = encoder_run();
    let r = t.on_float(Err(ort::Error::new("t")));
    expect_failure(&t, r, "Inference error: Failed to extract encoder_embeddings: t");

    let mut t = encoder_run();
    t.on_float(Ok(floats(&[1], &[1]))).unwrap();
    let r = t.on_int(Err(ort::Error::new("t")));
    expect_failure(&t, r, "Inference error: Failed to extract encoder_mask: t");
}

#[test]
fn a_refused_prompt_stops_the_transcription() {
    let mut t = start(&[7]);
    encode(&mut t, &[7]);
    let r = t.on_prompt(Err(CanaryError::VocabError("xx".to_string())));
    expect_failure(&t, r, "Vocabulary error: xx");
}

#[test]
fn failures_while_decoding_stop_the_transcription() {
    let mut t = start(&[7]);
    encode(&mut t, &[7]);
    t.on_prompt(Ok((vec![40], EOS))).unwrap();
    let r = t.on_decoder_shape(Err(CanaryError::InferenceError("no".to_string())));
    expect_failure(&t, r, "Inference error: no");

    let mut t = start(&[7]);
    encode(&mut t, &[7]);
    t.on_prompt(Ok((vec![40], EOS))).unwrap();
    t.on_decoder_shape(Ok((1, 1))).unwrap();
    t.on_created(Ok(())).unwrap();
    t.on_created(Ok(())).unwrap();
    let r = t.on_run(Err(ort::Error::new("run")));
    expect_failure(&t, r, "ONNX runtime error: run");
}

#[test]
fn a_transcription_ends() {
    let limit = 7;
    let config = CanaryConfig { use_pnc: true, max_sequence_length: limit };
    let mut t = engine().transcribe(vec![7], None, None, &config).unwrap();
    let mut actions = 0;
    let mut runs = 0;
    loop {
        match t.action() {
            Action::CreateFloat { .. }
            | Action::CreateInt { .. }
            | Action::CreateEmpty { .. } => t.on_created(Ok(())).unwrap(),
            Action::Run { session, .. } => {
                runs += (session == SessionKind::Decoder) as usize;
                t.on_run(Ok(())).unwrap()
            }
            Action::ReadFloat { .. } => t.on_float(Ok(floats(&[1, 1, 1], &[5]))).unwrap(),
            Action::ReadInt { .. } => t.on_int(Ok(ints(&[1], &[1]))).unwrap(),
            Action::BuildPrompt { .. } => t.on_prompt(Ok((vec![40], EOS))).unwrap(),
            Action::InspectDecoder => t.on_decoder_shape(Ok((1, 1))).unwrap(),
            Action::Detokenize { tokens } => {
                assert_eq!(*tokens, vec![40, 0, 0, 0, 0, 0, 0, 0]);
                break;
            }
            Action::Stopped => panic!("nothing has failed"),
        }
        actions += 1;
        assert!(actions <= 6 * limit + 15);
    }
    assert_eq!(runs, limit);
}
