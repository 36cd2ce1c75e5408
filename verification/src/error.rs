//! The errors of the engine.
use crate::runtime::error_message;
use vstd::prelude::*;

verus! {

/// Errors that can occur during Canary model operations.
#[derive(Debug)]
pub enum CanaryError {
    /// One or more ONNX model sessions have not been loaded.
    ModelNotLoaded,
    /// An error originating from the ONNX Runtime.
    OnnxError(String),
    /// An error related to vocabulary loading or token lookup.
    VocabError(String),
    /// An error during the inference pipeline.
    InferenceError(String),
}

/// A [`CanaryError`] with its message as a sequence of characters.
pub enum ErrorView {
    ModelNotLoaded,
    OnnxError(Seq<char>),
    VocabError(Seq<char>),
    InferenceError(Seq<char>),
}

impl View for CanaryError {
    type V = ErrorView;

    open spec fn view(&self) -> ErrorView {
        match self {
            CanaryError::ModelNotLoaded => ErrorView::ModelNotLoaded,
            CanaryError::OnnxError(s) => ErrorView::OnnxError(s@),
            CanaryError::VocabError(s) => ErrorView::VocabError(s@),
            CanaryError::InferenceError(s) => ErrorView::InferenceError(s@),
        }
    }
}

impl ErrorView {
    /// The sentence that is shown to a user for this error.
    pub open spec fn text(self) -> Seq<char> {
        match self {
            ErrorView::ModelNotLoaded => "Model not loaded: call load_model() first"@,
            ErrorView::OnnxError(s) => "ONNX runtime error: "@ + s,
            ErrorView::VocabError(s) => "Vocabulary error: "@ + s,
            ErrorView::InferenceError(s) => "Inference error: "@ + s,
        }
    }
}

impl CanaryError {
    /// The sentence that is shown to a user for this error.
    pub fn to_string(&self) -> (r: String)
        ensures
            r@ == self@.text(),
            match *self {
                CanaryError::ModelNotLoaded => r@ == "Model not loaded: call load_model() first"@,
                CanaryError::OnnxError(s) => r@ == "ONNX runtime error: "@ + s@,
                CanaryError::VocabError(s) => r@ == "Vocabulary error: "@ + s@,
                CanaryError::InferenceError(s) => r@ == "Inference error: "@ + s@,
            },
    {
        match self {
            CanaryError::ModelNotLoaded => "Model not loaded: call load_model() first".to_string(),
            CanaryError::OnnxError(s) => "ONNX runtime error: ".to_string().concat(s.as_str()),
            CanaryError::VocabError(s) => "Vocabulary error: ".to_string().concat(s.as_str()),
            CanaryError::InferenceError(s) => "Inference error: ".to_string().concat(s.as_str()),
        }
    }
}

/// An error of ONNX Runtime becomes a [`CanaryError::OnnxError`] with the
/// runtime's own message.
impl From<ort::Error> for CanaryError {
    fn from(e: ort::Error) -> (r: Self)
        ensures
            r@ == ErrorView::OnnxError(crate::runtime::error_text(e)),
            r matches CanaryError::OnnxError(s) && s@ == crate::runtime::error_text(e),
    {
        CanaryError::OnnxError(error_message(&e))
    }
}

/// The error for an output that could not be extracted: it names the output
/// and gives the runtime's message.
pub open spec fn extraction_failure(output: Seq<char>, message: Seq<char>) -> ErrorView {
    ErrorView::InferenceError("Failed to extract "@ + output + ": "@ + message)
}

/// The error for an output that could not be extracted.
pub fn extraction_error(output: &str, e: ort::Error) -> (r: CanaryError)
    ensures
        r@ == extraction_failure(output@, crate::runtime::error_text(e)),
        r matches CanaryError::InferenceError(s) && s@ == "Failed to extract "@ + output@ + ": "@
            + crate::runtime::error_text(e),
{
    let text = "Failed to extract ".to_string().concat(output).concat(": ").concat(
        error_message(&e).as_str(),
    );
    CanaryError::InferenceError(text)
}

// The result of `from` is described by its own `ensures`, over the view.
impl vstd::std_specs::convert::FromSpecImpl<ort::Error> for CanaryError {
    open spec fn obeys_from_spec() -> bool {
        false
    }

    open spec fn from_spec(e: ort::Error) -> Self {
        arbitrary()
    }
}

/// The view of an error is of the same kind and has the same message.
pub proof fn law_error_views(s: String)
    ensures
        CanaryError::ModelNotLoaded@ == ErrorView::ModelNotLoaded,
        CanaryError::OnnxError(s)@ == ErrorView::OnnxError(s@),
        CanaryError::VocabError(s)@ == ErrorView::VocabError(s@),
        CanaryError::InferenceError(s)@ == ErrorView::InferenceError(s@),
{
}

/// The sentence of an error is that of its kind, followed by its message.
pub proof fn law_error_sentences(s: Seq<char>)
    ensures
        ErrorView::ModelNotLoaded.text() == "Model not loaded: call load_model() first"@,
        ErrorView::OnnxError(s).text() == "ONNX runtime error: "@ + s,
        ErrorView::VocabError(s).text() == "Vocabulary error: "@ + s,
        ErrorView::InferenceError(s).text() == "Inference error: "@ + s,
{
}

/// An output that could not be extracted is an inference error that names the
/// output and gives the runtime's message.
pub proof fn law_extraction_failure(output: Seq<char>, message: Seq<char>)
    ensures
        extraction_failure(output, message) == ErrorView::InferenceError(
            "Failed to extract "@ + output + ": "@ + message,
        ),
{
}

} // verus!
