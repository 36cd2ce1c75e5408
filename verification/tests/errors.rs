use canary_engine::error::{extraction_error, CanaryError};
use canary_engine::text::{decimal_string, signed_decimal_string};

#[test]
fn each_error_has_its_sentence() {
    assert_eq!(
        CanaryError::ModelNotLoaded.to_string(),
        "Model not loaded: call load_model() first"
    );
    assert_eq!(
        CanaryError::OnnxError("a".to_string()).to_string(),
        "ONNX runtime error: a"
    );
    assert_eq!(
        CanaryError::VocabError("b".to_string()).to_string(),
        "Vocabulary error: b"
    );
    assert_eq!(
        CanaryError::InferenceError("c".to_string()).to_string(),
        "Inference error: c"
    );
}

#[test]
fn runtime_errors_keep_their_message() {
    let e = CanaryError::from(ort::Error::new("bad graph"));
    assert_eq!(e.to_string(), "ONNX runtime error: bad graph");
    assert!(matches!(e, CanaryError::OnnxError(ref s) if s == "bad graph"));
}

#[test]
fn extraction_errors_name_the_output() {
    let e = extraction_error("logits", ort::Error::new("wrong type"));
    assert_eq!(
        e.to_string(),
        "Inference error: Failed to extract logits: wrong type"
    );
}

#[test]
fn integers_are_written_in_decimal() {
    for n in [0u64, 1, 9, 10, 11, 99, 100, 1024, u64::MAX] {
        assert_eq!(decimal_string(n), n.to_string());
    }
    for i in [0i64, 5, -1, -10, 123456, i64::MAX, i64::MIN] {
        assert_eq!(signed_decimal_string(i), i.to_string());
    }
}
