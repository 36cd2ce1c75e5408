//! Speech-to-text engine for the Canary 1B v2 ONNX models.
//!
//! The engine decides and its caller performs: a
//! [`transcription::Transcription`] (or a [`loader::ModelLoader`]) says which
//! action is due, the caller performs it with ONNX Runtime and hands the
//! outcome back.  What the crate itself takes from ONNX Runtime is in
//! [`runtime`]; what each single step does is stated in [`step_laws`], and what
//! holds of whole runs in [`decode_laws`], [`pipeline_laws`] and [`slot_laws`].
pub mod action;
pub mod decode_laws;
pub mod decoder;
pub mod engine;
pub mod error;
pub mod loader;
pub mod logits;
pub mod pipeline_laws;
pub mod runtime;
pub mod slot_laws;
pub mod slots;
pub mod step_laws;
pub mod tensor;
pub mod text;
pub mod transcription;

pub use decoder::decode_autoregressive;
pub use engine::{CanaryConfig, CanaryEngine};
pub use error::CanaryError;
pub use transcription::TranscriptionResult;
