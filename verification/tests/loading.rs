use canary_engine::action::SessionKind;
use canary_engine::engine::{CanaryConfig, CanaryEngine};
use canary_engine::error::CanaryError;
use canary_engine::loader::{LoadAction, LoadedModels, ModelFile, ModelLoader};

fn models(first: u32) -> LoadedModels<u32, &'static str> {
    LoadedModels { preprocessor: first, encoder: first + 1, decoder: first + 2, vocab: "v" }
}

#[test]
fn defaults_of_the_configuration() {
    let config = CanaryConfig::default();
    assert!(config.use_pnc);
    assert_eq!(config.max_sequence_length, 1024);
}

#[test]
fn files_have_their_names() {
    assert_eq!(ModelFile::Preprocessor.file_name(), "nemo128.onnx");
    assert_eq!(ModelFile::Encoder.file_name(), "encoder-model.int8.onnx");
    assert_eq!(ModelFile::Decoder.file_name(), "decoder-model.int8.onnx");
    assert_eq!(ModelFile::Vocab.file_name(), "vocab.txt");
}

#[test]
fn a_load_probes_everything_before_it_opens_anything() {
    let mut load: ModelLoader<u32, &str> = ModelLoader::new();
    for file in [ModelFile::Preprocessor, ModelFile::Encoder, ModelFile::Decoder, ModelFile::Vocab]
    {
        assert_eq!(load.action(), LoadAction::Probe(file));
        load.on_probe(true, "unused").unwrap();
    }
    for (i, file) in
        [ModelFile::Preprocessor, ModelFile::Encoder, ModelFile::Decoder].into_iter().enumerate()
    {
        assert_eq!(load.action(), LoadAction::Open(file));
        load.on_session(Ok(i as u32 + 1)).unwrap();
    }
    assert_eq!(load.action(), LoadAction::ReadVocab);
    load.on_vocab(Ok("words")).unwrap();
    assert_eq!(load.action(), LoadAction::Done);
    let loaded = load.into_models();
    assert_eq!((loaded.preprocessor, loaded.encoder, loaded.decoder), (1, 2, 3));
    assert_eq!(loaded.vocab, "words");
}

#[test]
fn missing_files_are_named() {
    let roles = ["preprocessor", "encoder", "decoder", "vocab"];
    for (found, role) in roles.iter().enumerate() {
        let mut load: ModelLoader<u32, u32> = ModelLoader::new();
        for _ in 0..found {
            load.on_probe(true, "").unwrap();
        }
        let e = load.on_probe(false, "/models/x").unwrap_err();
        let kind = if *role == "vocab" { "Vocabulary error" } else { "ONNX runtime error" };
        assert_eq!(e.to_string(), format!("{kind}: {role} file not found: /models/x"));
        assert_eq!(matches!(e, CanaryError::VocabError(_)), *role == "vocab");
        assert_eq!(load.action(), LoadAction::Stopped);
    }
}

#[test]
fn failures_while_opening_are_reported() {
    let mut load: ModelLoader<u32, u32> = ModelLoader::new();
    for _ in 0..4 {
        load.on_probe(true, "").unwrap();
    }
    let e = load.on_session(Err(ort::Error::new("no graph"))).unwrap_err();
    assert_eq!(e.to_string(), "ONNX runtime error: no graph");
    assert_eq!(load.action(), LoadAction::Stopped);

    let mut load: ModelLoader<u32, u32> = ModelLoader::new();
    for _ in 0..4 {
        load.on_probe(true, "").unwrap();
    }
    for i in 0..3 {
        load.on_session(Ok(i)).unwrap();
    }
    let e = load.on_vocab(Err(CanaryError::VocabError("empty".to_string()))).unwrap_err();
    assert_eq!(e.to_string(), "Vocabulary error: empty");
    assert_eq!(load.action(), LoadAction::Stopped);
}

#[test]
fn an_engine_is_loaded_between_load_and_unload() {
    let mut engine = CanaryEngine::new();
    assert!(!engine.is_loaded());
    engine.load_model(Ok(models(10))).unwrap();
    assert!(engine.is_loaded());
    assert_eq!(engine.session(SessionKind::Preprocessor), Some(&10));
    assert_eq!(engine.session(SessionKind::Encoder), Some(&11));
    assert_eq!(engine.session(SessionKind::Decoder), Some(&12));
    assert_eq!(engine.vocab(), Some(&"v"));
    engine.unload_model();
    assert!(!engine.is_loaded());
    assert_eq!(engine.session(SessionKind::Encoder), None);
    assert_eq!(engine.vocab(), None);
    assert!(engine.session_mut(SessionKind::Decoder).is_none());
}

#[test]
fn a_failed_load_changes_nothing() {
    let mut engine = CanaryEngine::default();
    let e = engine.load_model(Err(CanaryError::OnnxError("x".to_string()))).unwrap_err();
    assert_eq!(e.to_string(), "ONNX runtime error: x");
    assert!(!engine.is_loaded());
    engine.load_model(Ok(models(20))).unwrap();
    assert!(engine.load_model(Err(CanaryError::VocabError("y".to_string()))).is_err());
    assert!(engine.is_loaded());
    assert_eq!(engine.session(SessionKind::Decoder), Some(&22));
    engine.load_model(Ok(models(30))).unwrap();
    assert_eq!(engine.session(SessionKind::Decoder), Some(&32));
}

#[test]
fn sessions_can_be_changed_in_place() {
    let mut engine = CanaryEngine::new();
    engine.load_model(Ok(models(1))).unwrap();
    *engine.session_mut(SessionKind::Encoder).unwrap() = 99;
    assert_eq!(engine.session(SessionKind::Preprocessor), Some(&1));
    assert_eq!(engine.session(SessionKind::Encoder), Some(&99));
    assert_eq!(engine.session(SessionKind::Decoder), Some(&3));
    assert!(engine.is_loaded());
}

#[test]
fn an_empty_engine_refuses_to_transcribe() {
    let engine: CanaryEngine<u32, u32> = CanaryEngine::new();
    let r = engine.transcribe(vec![1, 2], None, None, &CanaryConfig::default());
    assert!(matches!(r, Err(CanaryError::ModelNotLoaded)));
}
