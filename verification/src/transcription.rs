//! One transcription, from audio samples to text.
use crate::action::{bindings_view, Action, ActionView, Binding, SessionKind, Slot};
use crate::decoder::{
    decode_autoregressive, input_infos, mems_shape_of, DecodeLoop, DecodePhase, DecodeView,
};
use crate::error::{extraction_error, extraction_failure, CanaryError, ErrorView};
use crate::runtime::{error_text, session_input_list};
use crate::tensor::{FloatTensor, FloatTensorView, IntTensor, IntTensorView};
use vstd::prelude::*;

verus! {

/// The result of a transcription.
pub struct TranscriptionResult {
    /// Decoded text output.
    pub text: String,
}

/// Where a transcription stands.
#[derive(Debug, Clone, Copy, PartialEq, Eq, Structural)]
pub enum Phase {
    CreateWaveforms,
    CreateWaveformsLens,
    RunPreprocessor,
    ReadFeatures,
    ReadFeaturesLens,
    CreateFeatures,
    CreateFeaturesLens,
    RunEncoder,
    ReadEmbeddings,
    ReadMask,
    CreateEmbeddings,
    CreateMask,
    BuildPrompt,
    /// Decoding; the decoding loop says what is due.
    Decode,
    /// An action failed: nothing more is done.
    Failed,
}

/// The state of a transcription.
#[verifier::ext_equal]
pub struct TranscriptionView {
    /// Where the transcription stands.
    pub phase: Phase,
    /// The numbers on their way to the next session.
    pub floats: FloatTensorView,
    /// The integers on their way to the next session.
    pub ints: IntTensorView,
    /// The language of the audio.
    pub source: Seq<char>,
    /// The language of the output.
    pub target: Seq<char>,
    /// Whether the output has punctuation.
    pub use_pnc: bool,
    /// How many tokens the decoder may generate.
    pub max_sequence_length: usize,
    /// The decoding loop, once there is one.
    pub decode: Option<DecodeView>,
}

/// The language that is meant by an optional tag.
pub open spec fn language_or_default(tag: Option<&str>) -> Seq<char> {
    match tag {
        Some(t) => t@,
        None => "en"@,
    }
}

/// The inputs of a run of the preprocessor.
pub open spec fn preprocessor_bindings() -> Seq<(Seq<char>, Slot)> {
    seq![("waveforms"@, Slot::Waveforms), ("waveforms_lens"@, Slot::WaveformsLens)]
}

/// The inputs of a run of the encoder.
pub open spec fn encoder_bindings() -> Seq<(Seq<char>, Slot)> {
    seq![("audio_signal"@, Slot::Features), ("length"@, Slot::FeaturesLens)]
}

impl TranscriptionView {
    /// A transcription that has not begun: the samples as one waveform
    /// `[1, n]`, and its length `[n]`.
    pub open spec fn start(
        samples: Seq<u32>,
        source: Seq<char>,
        target: Seq<char>,
        use_pnc: bool,
        max_sequence_length: usize,
    ) -> TranscriptionView {
        TranscriptionView {
            phase: Phase::CreateWaveforms,
            floats: FloatTensorView {
                shape: seq![1i64, samples.len() as i64],
                bits: samples,
            },
            ints: IntTensorView { shape: seq![1i64], data: seq![samples.len() as i64] },
            source,
            target,
            use_pnc,
            max_sequence_length,
            decode: None,
        }
    }

    /// What holds of a transcription at every point.
    pub open spec fn wf(self) -> bool {
        &&& self.phase == Phase::Decode ==> self.decode is Some
        &&& self.decode is Some ==> self.phase == Phase::Decode || self.phase == Phase::Failed
        &&& self.decode matches Some(d) ==> d.wf()
    }

    /// The name of the output that is to be read before decoding.
    pub open spec fn encoding_output(self) -> Seq<char> {
        match self.phase {
            Phase::ReadFeatures => "features"@,
            Phase::ReadFeaturesLens => "features_lens"@,
            Phase::ReadEmbeddings => "encoder_embeddings"@,
            _ => "encoder_mask"@,
        }
    }

    /// The name of the output that is to be read.
    pub open spec fn output_name(self) -> Seq<char> {
        match self.decode {
            Some(d) => d.output_name(),
            None => self.encoding_output(),
        }
    }

    /// The action that is due.
    pub open spec fn action(self) -> ActionView {
        match self.phase {
            Phase::CreateWaveforms => ActionView::CreateFloat {
                slot: Slot::Waveforms,
                floats: self.floats,
            },
            Phase::CreateWaveformsLens => ActionView::CreateInt {
                slot: Slot::WaveformsLens,
                ints: self.ints,
            },
            Phase::RunPreprocessor => ActionView::Run {
                session: SessionKind::Preprocessor,
                inputs: preprocessor_bindings(),
            },
            Phase::ReadFeatures => ActionView::ReadFloat { output: self.encoding_output() },
            Phase::ReadFeaturesLens => ActionView::ReadInt { output: self.encoding_output() },
            Phase::CreateFeatures => ActionView::CreateFloat {
                slot: Slot::Features,
                floats: self.floats,
            },
            Phase::CreateFeaturesLens => ActionView::CreateInt {
                slot: Slot::FeaturesLens,
                ints: self.ints,
            },
            Phase::RunEncoder => ActionView::Run {
                session: SessionKind::Encoder,
                inputs: encoder_bindings(),
            },
            Phase::ReadEmbeddings => ActionView::ReadFloat { output: self.encoding_output() },
            Phase::ReadMask => ActionView::ReadInt { output: self.encoding_output() },
            Phase::CreateEmbeddings => ActionView::CreateFloat {
                slot: Slot::EncoderEmbeddings,
                floats: self.floats,
            },
            Phase::CreateMask => ActionView::CreateInt {
                slot: Slot::EncoderMask,
                ints: self.ints,
            },
            Phase::BuildPrompt => ActionView::BuildPrompt {
                source: self.source,
                target: self.target,
                use_pnc: self.use_pnc,
            },
            Phase::Decode => self.decode.unwrap().action(),
            Phase::Failed => ActionView::Stopped,
        }
    }

    /// The transcription after an action failed: nothing more is done.
    pub open spec fn failed(self) -> TranscriptionView {
        TranscriptionView {
            phase: Phase::Failed,
            decode: match self.decode {
                Some(d) => Some(d.failed()),
                None => None,
            },
            ..self
        }
    }

    /// The transcription after the tensor that was due has been created.
    pub open spec fn after_created(self) -> TranscriptionView {
        match self.phase {
            Phase::CreateWaveforms => TranscriptionView {
                phase: Phase::CreateWaveformsLens,
                ..self
            },
            Phase::CreateWaveformsLens => TranscriptionView {
                phase: Phase::RunPreprocessor,
                ..self
            },
            Phase::CreateFeatures => TranscriptionView {
                phase: Phase::CreateFeaturesLens,
                ..self
            },
            Phase::CreateFeaturesLens => TranscriptionView { phase: Phase::RunEncoder, ..self },
            Phase::CreateEmbeddings => TranscriptionView { phase: Phase::CreateMask, ..self },
            Phase::CreateMask => TranscriptionView { phase: Phase::BuildPrompt, ..self },
            _ => TranscriptionView {
                decode: Some(self.decode.unwrap().after_created()),
                ..self
            },
        }
    }

    /// The transcription after the run that was due.
    pub open spec fn after_run(self) -> TranscriptionView {
        match self.phase {
            Phase::RunPreprocessor => TranscriptionView { phase: Phase::ReadFeatures, ..self },
            Phase::RunEncoder => TranscriptionView { phase: Phase::ReadEmbeddings, ..self },
            _ => TranscriptionView { decode: Some(self.decode.unwrap().after_run()), ..self },
        }
    }

    /// Whether a tensor has the dimensions of the output that is due.
    pub open spec fn accepts_float(self, tensor: FloatTensorView) -> bool {
        self.decode matches Some(d) ==> d.accepts_float(tensor)
    }

    /// The transcription after the numbers that were due have been read.
    pub open spec fn after_float(self, tensor: FloatTensorView) -> TranscriptionView {
        match self.phase {
            Phase::ReadFeatures => TranscriptionView {
                phase: Phase::ReadFeaturesLens,
                floats: tensor,
                ..self
            },
            Phase::ReadEmbeddings => TranscriptionView {
                phase: Phase::ReadMask,
                floats: tensor,
                ..self
            },
            _ => TranscriptionView {
                decode: Some(self.decode.unwrap().after_float(tensor)),
                ..self
            },
        }
    }

    /// The transcription after the integers that were due have been read.
    pub open spec fn after_int(self, tensor: IntTensorView) -> TranscriptionView {
        TranscriptionView {
            phase: if self.phase == Phase::ReadFeaturesLens {
                Phase::CreateFeatures
            } else {
                Phase::CreateEmbeddings
            },
            ints: tensor,
            ..self
        }
    }

    /// The transcription after the prompt was built.
    pub open spec fn after_prompt(
        self,
        prompt_tokens: Seq<i64>,
        eos_id: i64,
    ) -> TranscriptionView {
        TranscriptionView {
            phase: Phase::Decode,
            decode: Some(DecodeView::start(prompt_tokens, eos_id, self.max_sequence_length)),
            ..self
        }
    }

    /// The transcription after the dimensions of the cache were read.
    pub open spec fn after_shape(self, num_layers: usize, hidden_dim: usize) -> TranscriptionView {
        TranscriptionView {
            decode: Some(self.decode.unwrap().after_shape(num_layers, hidden_dim)),
            ..self
        }
    }
}

/// One transcription.
pub struct Transcription {
    phase: Phase,
    floats: FloatTensor,
    ints: IntTensor,
    source: String,
    target: String,
    use_pnc: bool,
    max_sequence_length: usize,
    decode: Option<DecodeLoop>,
}

impl View for Transcription {
    type V = TranscriptionView;

    closed spec fn view(&self) -> TranscriptionView {
        TranscriptionView {
            phase: self.phase,
            floats: self.floats@,
            ints: self.ints@,
            source: self.source@,
            target: self.target@,
            use_pnc: self.use_pnc,
            max_sequence_length: self.max_sequence_length,
            decode: match self.decode {
                Some(d) => Some(d@),
                None => None,
            },
        }
    }
}

impl Transcription {
    /// Begins a transcription of samples given by their bit patterns.
    pub(crate) fn start(
        samples: Vec<u32>,
        source: &str,
        target: &str,
        use_pnc: bool,
        max_sequence_length: usize,
    ) -> (r: Transcription)
        ensures
            r@ == TranscriptionView::start(
                samples@,
                source@,
                target@,
                use_pnc,
                max_sequence_length,
            ),
            r@.wf(),
    {
        let num_samples: usize = samples.len();
        Transcription {
            phase: Phase::CreateWaveforms,
            floats: FloatTensor { shape: vec![1i64, num_samples as i64], bits: samples },
            ints: IntTensor { shape: vec![1i64], data: vec![num_samples as i64] },
            source: source.to_string(),
            target: target.to_string(),
            use_pnc,
            max_sequence_length,
            decode: None,
        }
    }

    /// The name of the output that is to be read before decoding.
    fn encoding_output(&self) -> (r: &'static str)
        ensures
            r@ == self@.encoding_output(),
    {
        match self.phase {
            Phase::ReadFeatures => "features",
            Phase::ReadFeaturesLens => "features_lens",
            Phase::ReadEmbeddings => "encoder_embeddings",
            _ => "encoder_mask",
        }
    }

    /// The action that is due.
    pub fn action(&self) -> (r: Action<'_>)
        requires
            self@.wf(),
        ensures
            r@ == self@.action(),
    {
        match self.phase {
            Phase::CreateWaveforms => Action::CreateFloat {
                slot: Slot::Waveforms,
                floats: &self.floats,
            },
            Phase::CreateWaveformsLens => Action::CreateInt {
                slot: Slot::WaveformsLens,
                ints: self.ints.copy(),
            },
            Phase::RunPreprocessor => {
                let inputs = vec![
                    Binding { input: "waveforms", slot: Slot::Waveforms },
                    Binding { input: "waveforms_lens", slot: Slot::WaveformsLens },
                ];
                assert(bindings_view(inputs@) =~= preprocessor_bindings());
                Action::Run { session: SessionKind::Preprocessor, inputs }
            },
            Phase::ReadFeatures => Action::ReadFloat { output: self.encoding_output() },
            Phase::ReadFeaturesLens => Action::ReadInt { output: self.encoding_output() },
            Phase::CreateFeatures => Action::CreateFloat {
                slot: Slot::Features,
                floats: &self.floats,
            },
            Phase::CreateFeaturesLens => Action::CreateInt {
                slot: Slot::FeaturesLens,
                ints: self.ints.copy(),
            },
            Phase::RunEncoder => {
                let inputs = vec![
                    Binding { input: "audio_signal", slot: Slot::Features },
                    Binding { input: "length", slot: Slot::FeaturesLens },
                ];
                assert(bindings_view(inputs@) =~= encoder_bindings());
                Action::Run { session: SessionKind::Encoder, inputs }
            },
            Phase::ReadEmbeddings => Action::ReadFloat { output: self.encoding_output() },
            Phase::ReadMask => Action::ReadInt { output: self.encoding_output() },
            Phase::CreateEmbeddings => Action::CreateFloat {
                slot: Slot::EncoderEmbeddings,
                floats: &self.floats,
            },
            Phase::CreateMask => Action::CreateInt {
                slot: Slot::EncoderMask,
                ints: self.ints.copy(),
            },
            Phase::BuildPrompt => Action::BuildPrompt {
                source: self.source.as_str(),
                target: self.target.as_str(),
                use_pnc: self.use_pnc,
            },
            Phase::Decode => self.decode.as_ref().unwrap().action(),
            Phase::Failed => Action::Stopped,
        }
    }

    /// Fails where the decoding loop has failed.
    fn after_decoding(&mut self, result: Result<(), CanaryError>) -> (r: Result<(), CanaryError>)
        ensures
            r == result,
            final(self)@ == (TranscriptionView {
                phase: if result is Err {
                    Phase::Failed
                } else {
                    old(self)@.phase
                },
                ..old(self)@
            }),
    {
        if result.is_err() {
            self.phase = Phase::Failed;
        }
        result
    }

    /// Takes the outcome of creating the tensor that was due.
    pub fn on_created(&mut self, outcome: Result<(), ort::Error>) -> (r: Result<(), CanaryError>)
        requires
            old(self)@.wf(),
            old(self)@.action().is_create(),
        ensures
            final(self)@.wf(),
            match outcome {
                Ok(_) => r is Ok && final(self)@ == old(self)@.after_created(),
                Err(e) => {
                    &&& r is Err
                    &&& r->Err_0@ == ErrorView::OnnxError(error_text(e))
                    &&& final(self)@ == old(self)@.failed()
                },
            },
    {
        if self.phase == Phase::Decode {
            let r = self.decode.as_mut().unwrap().on_created(outcome);
            return self.after_decoding(r);
        }
        match outcome {
            Ok(_) => {
                self.phase = match self.phase {
                    Phase::CreateWaveforms => Phase::CreateWaveformsLens,
                    Phase::CreateWaveformsLens => Phase::RunPreprocessor,
                    Phase::CreateFeatures => Phase::CreateFeaturesLens,
                    Phase::CreateFeaturesLens => Phase::RunEncoder,
                    Phase::CreateEmbeddings => Phase::CreateMask,
                    _ => Phase::BuildPrompt,
                };
                Ok(())
            },
            Err(e) => {
                self.phase = Phase::Failed;
                Err(CanaryError::from(e))
            },
        }
    }

    /// Takes the outcome of the run that was due.
    pub fn on_run(&mut self, outcome: Result<(), ort::Error>) -> (r: Result<(), CanaryError>)
        requires
            old(self)@.wf(),
            old(self)@.action() is Run,
        ensures
            final(self)@.wf(),
            match outcome {
                Ok(_) => r is Ok && final(self)@ == old(self)@.after_run(),
                Err(e) => {
                    &&& r is Err
                    &&& r->Err_0@ == ErrorView::OnnxError(error_text(e))
                    &&& final(self)@ == old(self)@.failed()
                },
            },
    {
        if self.phase == Phase::Decode {
            let r = self.decode.as_mut().unwrap().on_run(outcome);
            return self.after_decoding(r);
        }
        match outcome {
            Ok(_) => {
                self.phase = if self.phase == Phase::RunPreprocessor {
                    Phase::ReadFeatures
                } else {
                    Phase::ReadEmbeddings
                };
                Ok(())
            },
            Err(e) => {
                self.phase = Phase::Failed;
                Err(CanaryError::from(e))
            },
        }
    }

    /// Whether a tensor has the dimensions of the output that is due.
    pub fn accepts_float(&self, tensor: &FloatTensor) -> (r: bool)
        ensures
            r == self@.accepts_float(tensor@),
            self@.decode is None ==> r,
            self@.decode matches Some(d) ==> {
                &&& d.phase == DecodePhase::ReadLogits ==> (r <==> {
                    &&& tensor.shape@.len() >= 3
                    &&& tensor.shape@[1] as usize >= 1
                    &&& (tensor.shape@[1] as usize) * (tensor.shape@[2] as usize)
                        <= tensor.bits@.len()
                })
                &&& d.phase == DecodePhase::ReadHiddenStates ==> (r <==> tensor.shape@.len() >= 3)
            },
    {
        match &self.decode {
            Some(d) => d.accepts_float(tensor),
            None => true,
        }
    }

    /// Takes the outcome of reading the numbers that were due.
    pub fn on_float(&mut self, outcome: Result<FloatTensor, ort::Error>) -> (r: Result<
        (),
        CanaryError,
    >)
        requires
            old(self)@.wf(),
            old(self)@.action() is ReadFloat,
            outcome matches Ok(tensor) ==> old(self)@.accepts_float(tensor@),
        ensures
            final(self)@.wf(),
            match outcome {
                Ok(tensor) => r is Ok && final(self)@ == old(self)@.after_float(tensor@),
                Err(e) => {
                    &&& r is Err
                    &&& r->Err_0@ == extraction_failure(old(self)@.output_name(), error_text(e))
                    &&& final(self)@ == old(self)@.failed()
                },
            },
    {
        if self.phase == Phase::Decode {
            let r = self.decode.as_mut().unwrap().on_float(outcome);
            return self.after_decoding(r);
        }
        match outcome {
            Ok(tensor) => {
                self.floats = tensor;
                self.phase = if self.phase == Phase::ReadFeatures {
                    Phase::ReadFeaturesLens
                } else {
                    Phase::ReadMask
                };
                Ok(())
            },
            Err(e) => {
                let output = self.encoding_output();
                self.phase = Phase::Failed;
                Err(extraction_error(output, e))
            },
        }
    }

    /// Takes the outcome of reading the integers that were due.
    pub fn on_int(&mut self, outcome: Result<IntTensor, ort::Error>) -> (r: Result<
        (),
        CanaryError,
    >)
        requires
            old(self)@.wf(),
            old(self)@.action() is ReadInt,
        ensures
            final(self)@.wf(),
            match outcome {
                Ok(tensor) => r is Ok && final(self)@ == old(self)@.after_int(tensor@),
                Err(e) => {
                    &&& r is Err
                    &&& r->Err_0@ == extraction_failure(old(self)@.output_name(), error_text(e))
                    &&& final(self)@ == old(self)@.failed()
                },
            },
    {
        match outcome {
            Ok(tensor) => {
                self.ints = tensor;
                self.phase = if self.phase == Phase::ReadFeaturesLens {
                    Phase::CreateFeatures
                } else {
                    Phase::CreateEmbeddings
                };
                Ok(())
            },
            Err(e) => {
                let output = self.encoding_output();
                self.phase = Phase::Failed;
                Err(extraction_error(output, e))
            },
        }
    }

    /// Takes the outcome of building the prompt: its tokens, and the token that
    /// ends the output.
    pub fn on_prompt(&mut self, outcome: Result<(Vec<i64>, i64), CanaryError>) -> (r: Result<
        (),
        CanaryError,
    >)
        requires
            old(self)@.wf(),
            old(self)@.action() is BuildPrompt,
        ensures
            final(self)@.wf(),
            match outcome {
                Ok(prompt) => r is Ok && final(self)@ == old(self)@.after_prompt(
                    prompt.0@,
                    prompt.1,
                ),
                Err(e) => r == Err::<(), CanaryError>(e) && final(self)@ == old(self)@.failed(),
            },
    {
        match outcome {
            Ok(prompt) => {
                self.decode =
                Some(decode_autoregressive(prompt.0, prompt.1, self.max_sequence_length));
                self.phase = Phase::Decode;
                Ok(())
            },
            Err(e) => {
                self.phase = Phase::Failed;
                Err(e)
            },
        }
    }

    /// Takes the dimensions of the cache.
    pub fn on_decoder_shape(&mut self, outcome: Result<(usize, usize), CanaryError>) -> (r: Result<
        (),
        CanaryError,
    >)
        requires
            old(self)@.wf(),
            old(self)@.action() is InspectDecoder,
        ensures
            final(self)@.wf(),
            match outcome {
                Ok(dims) => r is Ok && final(self)@ == old(self)@.after_shape(dims.0, dims.1),
                Err(e) => r == Err::<(), CanaryError>(e) && final(self)@ == old(self)@.failed(),
            },
    {
        let r = self.decode.as_mut().unwrap().on_decoder_shape(outcome);
        self.after_decoding(r)
    }

    /// Reads the dimensions of the cache off the decoder session.
    pub fn inspect_decoder(&mut self, decoder: &ort::session::Session) -> (r: Result<
        (),
        CanaryError,
    >)
        requires
            old(self)@.wf(),
            old(self)@.action() is InspectDecoder,
        ensures
            final(self)@.wf(),
            match mems_shape_of(input_infos(session_input_list(*decoder))) {
                Ok(dims) => r is Ok && final(self)@ == old(self)@.after_shape(dims.0, dims.1),
                Err(e) => {
                    &&& r is Err
                    &&& r->Err_0@ == e
                    &&& final(self)@ == old(self)@.failed()
                },
            },
    {
        let r = self.decode.as_mut().unwrap().inspect_decoder(decoder);
        self.after_decoding(r)
    }

    /// Takes the text of the tokens, which is the result.
    pub fn on_text(self, text: String) -> (r: TranscriptionResult)
        requires
            self@.wf(),
            self@.action() is Detokenize,
        ensures
            r.text == text,
    {
        TranscriptionResult { text }
    }
}

/// A language that is asked for is taken as it is, whatever its tag; without
/// one it is English.
pub proof fn law_language_or_default(tag: &str)
    ensures
        language_or_default(Some(tag)) == tag@,
        language_or_default(None) == "en"@,
{
}

/// Every tensor is accepted as features or embeddings, scores exactly where
/// they have three dimensions, a time step and all its elements, and hidden
/// states exactly where they have three dimensions.
pub proof fn law_accepted_tensors(t: TranscriptionView, tensor: FloatTensorView)
    requires
        t.wf(),
    ensures
        t.phase == Phase::ReadFeatures || t.phase == Phase::ReadEmbeddings ==> t.accepts_float(
            tensor,
        ),
        t.phase == Phase::Decode && t.decode.unwrap().phase == DecodePhase::ReadLogits ==> (
        t.accepts_float(tensor) <==> {
            &&& tensor.shape.len() >= 3
            &&& tensor.shape[1] as usize >= 1
            &&& (tensor.shape[1] as usize) * (tensor.shape[2] as usize) <= tensor.bits.len()
        }),
        t.phase == Phase::Decode && t.decode.unwrap().phase == DecodePhase::ReadHiddenStates ==> (
        t.accepts_float(tensor) <==> tensor.shape.len() >= 3),
{
}

} // verus!
