//! The engine: the loaded models, and the start of a transcription.
use crate::action::SessionKind;
use crate::error::{CanaryError, ErrorView};
use crate::loader::LoadedModels;
use crate::transcription::{language_or_default, Phase, Transcription, TranscriptionView};
use vstd::prelude::*;

verus! {

/// Configuration for a transcription request.
pub struct CanaryConfig {
    /// Whether the output has punctuation.
    pub use_pnc: bool,
    /// Maximum number of tokens the decoder will generate.
    pub max_sequence_length: usize,
}

impl Default for CanaryConfig {
    fn default() -> (r: Self)
        ensures
            r.use_pnc,
            r.max_sequence_length == 1024,
    {
        CanaryConfig { use_pnc: true, max_sequence_length: 1024 }
    }
}

/// Canary 1B v2 speech-to-text inference engine.
///
/// Manages three ONNX Runtime sessions (preprocessor, encoder, decoder) and
/// a vocabulary. Call [`load_model`](Self::load_model) before
/// [`transcribe`](Self::transcribe).
pub struct CanaryEngine<S, V> {
    preprocessor: Option<S>,
    encoder: Option<S>,
    decoder: Option<S>,
    vocab: Option<V>,
}

/// What an engine holds.
pub struct EngineView<S, V> {
    pub preprocessor: Option<S>,
    pub encoder: Option<S>,
    pub decoder: Option<S>,
    pub vocab: Option<V>,
}

impl<S, V> EngineView<S, V> {
    /// An engine with no models loaded.
    pub open spec fn empty() -> EngineView<S, V> {
        EngineView { preprocessor: None, encoder: None, decoder: None, vocab: None }
    }

    /// An engine with everything loaded.
    pub open spec fn loaded_with(models: LoadedModels<S, V>) -> EngineView<S, V> {
        EngineView {
            preprocessor: Some(models.preprocessor),
            encoder: Some(models.encoder),
            decoder: Some(models.decoder),
            vocab: Some(models.vocab),
        }
    }

    /// Whether all three models and the vocabulary are loaded.
    pub open spec fn is_loaded(self) -> bool {
        self.preprocessor is Some && self.encoder is Some && self.decoder is Some
            && self.vocab is Some
    }

    /// What holds of an engine at every point: it is loaded in full or empty.
    pub open spec fn wf(self) -> bool {
        self.is_loaded() || self == Self::empty()
    }

    /// The session of a kind.
    pub open spec fn session(self, kind: SessionKind) -> Option<S> {
        match kind {
            SessionKind::Preprocessor => self.preprocessor,
            SessionKind::Encoder => self.encoder,
            SessionKind::Decoder => self.decoder,
        }
    }

    /// The engine with another session of a kind.
    pub open spec fn with_session(self, kind: SessionKind, session: Option<S>) -> EngineView<S, V> {
        match kind {
            SessionKind::Preprocessor => EngineView { preprocessor: session, ..self },
            SessionKind::Encoder => EngineView { encoder: session, ..self },
            SessionKind::Decoder => EngineView { decoder: session, ..self },
        }
    }
}

impl<S, V> CanaryEngine<S, V> {
    /// What the engine holds.
    pub closed spec fn view(&self) -> EngineView<S, V> {
        EngineView {
            preprocessor: self.preprocessor,
            encoder: self.encoder,
            decoder: self.decoder,
            vocab: self.vocab,
        }
    }

    /// Create a new engine with no models loaded.
    pub fn new() -> (r: Self)
        ensures
            r@ == EngineView::<S, V>::empty(),
            r@.wf(),
            r@.preprocessor is None && r@.encoder is None && r@.decoder is None,
            r@.vocab is None,
    {
        CanaryEngine { preprocessor: None, encoder: None, decoder: None, vocab: None }
    }

    /// Takes the outcome of loading the three ONNX models and the vocabulary.
    ///
    /// What was loaded replaces what the engine held; after a failure the
    /// engine holds what it held before.
    pub fn load_model(&mut self, loaded: Result<LoadedModels<S, V>, CanaryError>) -> (r: Result<
        (),
        CanaryError,
    >)
        ensures
            match loaded {
                Ok(models) => {
                    &&& r is Ok
                    &&& final(self)@ == EngineView::loaded_with(models)
                    &&& final(self)@.is_loaded()
                    &&& final(self)@.preprocessor == Some(models.preprocessor)
                    &&& final(self)@.encoder == Some(models.encoder)
                    &&& final(self)@.decoder == Some(models.decoder)
                    &&& final(self)@.vocab == Some(models.vocab)
                },
                Err(e) => r == Err::<(), CanaryError>(e) && *final(self) == *old(self),
            },
            old(self)@.wf() ==> final(self)@.wf(),
    {
        match loaded {
            Ok(models) => {
                self.preprocessor = Some(models.preprocessor);
                self.encoder = Some(models.encoder);
                self.decoder = Some(models.decoder);
                self.vocab = Some(models.vocab);
                Ok(())
            },
            Err(e) => Err(e),
        }
    }

    /// Unload all models and free associated resources.
    pub fn unload_model(&mut self)
        ensures
            final(self)@ == EngineView::<S, V>::empty(),
            final(self)@.wf(),
            final(self)@.preprocessor is None && final(self)@.encoder is None,
            final(self)@.decoder is None && final(self)@.vocab is None,
    {
        self.preprocessor = None;
        self.encoder = None;
        self.decoder = None;
        self.vocab = None;
    }

    /// Returns `true` if all three models and the vocabulary are loaded.
    pub fn is_loaded(&self) -> (r: bool)
        ensures
            r == self@.is_loaded(),
            r <==> self@.preprocessor is Some && self@.encoder is Some && self@.decoder is Some
                && self@.vocab is Some,
    {
        self.preprocessor.is_some() && self.encoder.is_some() && self.decoder.is_some()
            && self.vocab.is_some()
    }

    /// Begin to transcribe raw audio samples into text.
    ///
    /// # Arguments
    /// * `audio_samples` -- the bit patterns of PCM single-precision samples
    ///   (mono, 16 kHz expected by the preprocessor model).
    /// * `source_language` -- BCP-47 language tag for the audio (defaults to `"en"`).
    /// * `target_language` -- BCP-47 language tag for the output text (defaults to `"en"`).
    /// * `config` -- Decoding configuration.
    pub fn transcribe(
        &self,
        audio_samples: Vec<u32>,
        source_language: Option<&str>,
        target_language: Option<&str>,
        config: &CanaryConfig,
    ) -> (r: Result<Transcription, CanaryError>)
        ensures
            self@.is_loaded() ==> {
                &&& r is Ok
                &&& r->Ok_0@ == TranscriptionView::start(
                    audio_samples@,
                    language_or_default(source_language),
                    language_or_default(target_language),
                    config.use_pnc,
                    config.max_sequence_length,
                )
                &&& r->Ok_0@.wf()
            },
            !self@.is_loaded() ==> r is Err && r->Err_0@ == ErrorView::ModelNotLoaded,
            match r {
                Ok(t) => {
                    &&& self@.preprocessor is Some && self@.encoder is Some
                    &&& self@.decoder is Some && self@.vocab is Some
                    &&& t@.phase == Phase::CreateWaveforms
                    &&& t@.floats.shape == seq![1i64, audio_samples@.len() as i64]
                    &&& t@.floats.bits == audio_samples@
                    &&& t@.ints.shape == seq![1i64]
                    &&& t@.ints.data == seq![audio_samples@.len() as i64]
                    &&& match source_language {
                        Some(tag) => t@.source == tag@,
                        None => t@.source == "en"@,
                    }
                    &&& match target_language {
                        Some(tag) => t@.target == tag@,
                        None => t@.target == "en"@,
                    }
                    &&& t@.use_pnc == config.use_pnc
                    &&& t@.max_sequence_length == config.max_sequence_length
                    &&& t@.decode is None
                },
                Err(e) => {
                    &&& e is ModelNotLoaded
                    &&& self@.preprocessor is None || self@.encoder is None || self@.decoder is None
                        || self@.vocab is None
                },
            },
    {
        if !self.is_loaded() {
            return Err(CanaryError::ModelNotLoaded);
        }
        Ok(
            Transcription::start(
                audio_samples,
                source_language.unwrap_or("en"),
                target_language.unwrap_or("en"),
                config.use_pnc,
                config.max_sequence_length,
            ),
        )
    }

    /// The session of a kind, where it is loaded.
    pub fn session(&self, kind: SessionKind) -> (r: Option<&S>)
        ensures
            match r {
                Some(s) => self@.session(kind) == Some(*s),
                None => self@.session(kind) is None,
            },
            match kind {
                SessionKind::Preprocessor => match r {
                    Some(s) => self@.preprocessor == Some(*s),
                    None => self@.preprocessor is None,
                },
                SessionKind::Encoder => match r {
                    Some(s) => self@.encoder == Some(*s),
                    None => self@.encoder is None,
                },
                SessionKind::Decoder => match r {
                    Some(s) => self@.decoder == Some(*s),
                    None => self@.decoder is None,
                },
            },
    {
        match kind {
            SessionKind::Preprocessor => self.preprocessor.as_ref(),
            SessionKind::Encoder => self.encoder.as_ref(),
            SessionKind::Decoder => self.decoder.as_ref(),
        }
    }

    /// The session of a kind, where it is loaded, to be run.
    pub fn session_mut(&mut self, kind: SessionKind) -> (r: Option<&mut S>)
        ensures
            match r {
                Some(s) => {
                    &&& old(self)@.session(kind) == Some(*s)
                    &&& final(self)@ == old(self)@.with_session(kind, Some(*final(s)))
                },
                None => old(self)@.session(kind) is None && final(self)@ == old(self)@,
            },
            old(self)@.wf() ==> final(self)@.wf(),
    {
        match kind {
            SessionKind::Preprocessor => self.preprocessor.as_mut(),
            SessionKind::Encoder => self.encoder.as_mut(),
            SessionKind::Decoder => self.decoder.as_mut(),
        }
    }

    /// The vocabulary, where it is loaded.
    pub fn vocab(&self) -> (r: Option<&V>)
        ensures
            match r {
                Some(v) => self@.vocab == Some(*v),
                None => self@.vocab is None,
            },
    {
        self.vocab.as_ref()
    }
}

impl<S, V> Default for CanaryEngine<S, V> {
    fn default() -> (r: Self)
        ensures
            r@ == EngineView::<S, V>::empty(),
    {
        CanaryEngine::new()
    }
}

/// A load makes any engine a loaded one and an unload makes any engine an
/// empty one, and an empty engine is not loaded.
pub proof fn law_loaded_or_empty<S, V>(models: LoadedModels<S, V>)
    ensures
        EngineView::loaded_with(models).is_loaded(),
        EngineView::loaded_with(models).wf(),
        !EngineView::<S, V>::empty().is_loaded(),
        EngineView::<S, V>::empty().wf(),
{
}

/// An engine is in order exactly where it holds all four parts or none, it is
/// loaded where it holds all four, each kind of session has its own place, and
/// to exchange one session leaves the others and the vocabulary alone.
pub proof fn law_engine_parts<S, V>(engine: EngineView<S, V>, session: Option<S>)
    ensures
        engine.is_loaded() <==> engine.preprocessor is Some && engine.encoder is Some
            && engine.decoder is Some && engine.vocab is Some,
        engine.wf() <==> (engine.preprocessor is Some && engine.encoder is Some && engine.decoder
            is Some && engine.vocab is Some) || (engine.preprocessor is None && engine.encoder
            is None && engine.decoder is None && engine.vocab is None),
        engine.session(SessionKind::Preprocessor) == engine.preprocessor,
        engine.session(SessionKind::Encoder) == engine.encoder,
        engine.session(SessionKind::Decoder) == engine.decoder,
        engine.with_session(SessionKind::Preprocessor, session) == (EngineView {
            preprocessor: session,
            ..engine
        }),
        engine.with_session(SessionKind::Encoder, session) == (EngineView {
            encoder: session,
            ..engine
        }),
        engine.with_session(SessionKind::Decoder, session) == (EngineView {
            decoder: session,
            ..engine
        }),
{
}

/// A load puts each part in its own place.
pub proof fn law_load_fills_every_part<S, V>(models: LoadedModels<S, V>)
    ensures
        EngineView::loaded_with(models).preprocessor == Some(models.preprocessor),
        EngineView::loaded_with(models).encoder == Some(models.encoder),
        EngineView::loaded_with(models).decoder == Some(models.decoder),
        EngineView::loaded_with(models).vocab == Some(models.vocab),
{
}

} // verus!
