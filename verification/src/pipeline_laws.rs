//! What a transcription does as a whole.
use crate::action::{ActionView, SessionKind, Slot};
use crate::decode_laws::{generated, law_decode_output, predictions, StepOutcome};
use crate::decoder::{decoder_bindings, DecodePhase, DecodeView};
use crate::tensor::{FloatTensorView, IntTensorView};
use crate::transcription::{
    encoder_bindings, preprocessor_bindings, Phase, TranscriptionView,
};
use vstd::prelude::*;

verus! {

impl DecodeView {
    /// A bound on the actions that are still due.
    pub open spec fn work_left(self) -> int {
        let runs = self.max_sequence_length - self.step;
        match self.phase {
            DecodePhase::InspectDecoder => 6 * runs + 2,
            DecodePhase::CreateCache => 6 * runs + 1,
            DecodePhase::CreateInputIds => 6 * runs,
            DecodePhase::RunDecoder => 6 * runs - 1,
            DecodePhase::ReadLogits => 6 * runs - 2,
            DecodePhase::ReadHiddenStates => 6 * runs - 3,
            DecodePhase::CreateMems => 6 * runs - 4,
            DecodePhase::Finished | DecodePhase::Failed => 0,
        }
    }
}

impl TranscriptionView {
    /// A bound on the actions that are still due.
    pub open spec fn work_left(self) -> int {
        let decoding = 6 * self.max_sequence_length + 2;
        match self.phase {
            Phase::CreateWaveforms => decoding + 13,
            Phase::CreateWaveformsLens => decoding + 12,
            Phase::RunPreprocessor => decoding + 11,
            Phase::ReadFeatures => decoding + 10,
            Phase::ReadFeaturesLens => decoding + 9,
            Phase::CreateFeatures => decoding + 8,
            Phase::CreateFeaturesLens => decoding + 7,
            Phase::RunEncoder => decoding + 6,
            Phase::ReadEmbeddings => decoding + 5,
            Phase::ReadMask => decoding + 4,
            Phase::CreateEmbeddings => decoding + 3,
            Phase::CreateMask => decoding + 2,
            Phase::BuildPrompt => decoding + 1,
            Phase::Decode => self.decode.unwrap().work_left(),
            Phase::Failed => 0,
        }
    }

    /// The transcription after both tensors for a session were created and
    /// the session was run.
    pub open spec fn after_session(self) -> TranscriptionView {
        self.after_created().after_created().after_run()
    }

    /// A transcription whose decoding is about to begin, given what the
    /// preprocessor and the encoder returned and the prompt.
    pub open spec fn encoded(
        self,
        features: FloatTensorView,
        features_lens: IntTensorView,
        embeddings: FloatTensorView,
        mask: IntTensorView,
    ) -> TranscriptionView {
        self.after_session().after_float(features).after_int(
            features_lens,
        ).after_session().after_float(embeddings).after_int(mask).after_created().after_created()
    }

    /// The transcription after one more run of the decoder, where a run is
    /// due.
    pub open spec fn after_step(self, outcome: StepOutcome) -> TranscriptionView {
        if self.decode.unwrap().phase == DecodePhase::CreateInputIds {
            let scored = self.after_created().after_run().after_float(outcome.logits);
            if scored.decode.unwrap().phase == DecodePhase::Finished {
                scored
            } else {
                scored.after_float(outcome.hidden_states).after_created()
            }
        } else {
            self
        }
    }

    /// The transcription after a list of runs of the decoder.
    pub open spec fn after_steps(self, outcomes: Seq<StepOutcome>) -> TranscriptionView
        decreases outcomes.len(),
    {
        if outcomes.len() == 0 {
            self
        } else {
            self.after_step(outcomes[0]).after_steps(outcomes.drop_first())
        }
    }
}

/// The preprocessor is run on the samples as one waveform and on their number.
pub proof fn law_preprocessor_gets_samples(
    samples: Seq<u32>,
    source: Seq<char>,
    target: Seq<char>,
    use_pnc: bool,
    max_sequence_length: usize,
)
    ensures
        ({
            let t = TranscriptionView::start(
                samples,
                source,
                target,
                use_pnc,
                max_sequence_length,
            );
            &&& t.action() == ActionView::CreateFloat {
                slot: Slot::Waveforms,
                floats: FloatTensorView {
                    shape: seq![1i64, samples.len() as i64],
                    bits: samples,
                },
            }
            &&& t.after_created().action() == ActionView::CreateInt {
                slot: Slot::WaveformsLens,
                ints: IntTensorView { shape: seq![1i64], data: seq![samples.len() as i64] },
            }
            &&& t.after_created().after_created().action() == ActionView::Run {
                session: SessionKind::Preprocessor,
                inputs: preprocessor_bindings(),
            }
        }),
{
}

/// The encoder is run on exactly what the preprocessor returned.
pub proof fn law_encoder_gets_features(
    t: TranscriptionView,
    features: FloatTensorView,
    features_lens: IntTensorView,
)
    requires
        t.phase == Phase::RunPreprocessor,
    ensures
        t.after_run().action() == (ActionView::ReadFloat { output: "features"@ }),
        t.after_run().after_float(features).action() == (ActionView::ReadInt {
            output: "features_lens"@,
        }),
        ({
            let read = t.after_run().after_float(features).after_int(features_lens);
            &&& read.action() == ActionView::CreateFloat { slot: Slot::Features, floats: features }
            &&& read.after_created().action() == ActionView::CreateInt {
                slot: Slot::FeaturesLens,
                ints: features_lens,
            }
            &&& read.after_created().after_created().action() == ActionView::Run {
                session: SessionKind::Encoder,
                inputs: encoder_bindings(),
            }
        }),
{
}

/// The decoder is given exactly what the encoder returned, and the prompt is
/// built after that, for the languages and the punctuation asked for.
pub proof fn law_decoder_gets_embeddings(
    t: TranscriptionView,
    embeddings: FloatTensorView,
    mask: IntTensorView,
)
    requires
        t.phase == Phase::RunEncoder,
    ensures
        t.after_run().action() == (ActionView::ReadFloat { output: "encoder_embeddings"@ }),
        t.after_run().after_float(embeddings).action() == (ActionView::ReadInt {
            output: "encoder_mask"@,
        }),
        ({
            let read = t.after_run().after_float(embeddings).after_int(mask);
            &&& read.action() == ActionView::CreateFloat {
                slot: Slot::EncoderEmbeddings,
                floats: embeddings,
            }
            &&& read.after_created().action() == ActionView::CreateInt {
                slot: Slot::EncoderMask,
                ints: mask,
            }
            &&& read.after_created().after_created().action() == ActionView::BuildPrompt {
                source: t.source,
                target: t.target,
                use_pnc: t.use_pnc,
            }
        }),
{
}

/// Every run of the decoder reads the slots of the encoder's outputs, of the
/// tokens and of the cache.
pub proof fn law_decoder_run_inputs(t: TranscriptionView)
    requires
        t.wf(),
        t.phase == Phase::Decode,
        t.action() is Run,
    ensures
        t.action() == (ActionView::Run {
            session: SessionKind::Decoder,
            inputs: decoder_bindings(),
        }),
{
}

proof fn lemma_steps_are_lifted(t: TranscriptionView, outcomes: Seq<StepOutcome>)
    requires
        t.wf(),
        t.phase == Phase::Decode,
        t.decode.unwrap().phase == DecodePhase::CreateInputIds || t.decode.unwrap().phase
            == DecodePhase::Finished,
    ensures
        t.after_steps(outcomes).phase == Phase::Decode,
        t.after_steps(outcomes).decode == Some(t.decode.unwrap().after_steps(outcomes)),
    decreases outcomes.len(),
{
    if outcomes.len() > 0 {
        let next = t.after_step(outcomes[0]);
        assert(next.phase == Phase::Decode);
        assert(next.decode == Some(t.decode.unwrap().after_step(outcomes[0])));
        lemma_steps_are_lifted(next, outcomes.drop_first());
    }
}

/// From samples to tokens: the prompt is asked for with the languages and the
/// punctuation of the request, and the text is made of the prompt followed by
/// the predictions before the first end-of-sequence token, at most
/// `max_sequence_length` of them, exactly when that token was predicted or the
/// limit is reached.
pub proof fn law_transcription(
    samples: Seq<u32>,
    source: Seq<char>,
    target: Seq<char>,
    use_pnc: bool,
    max_sequence_length: usize,
    features: FloatTensorView,
    features_lens: IntTensorView,
    embeddings: FloatTensorView,
    mask: IntTensorView,
    prompt_tokens: Seq<i64>,
    eos_id: i64,
    num_layers: usize,
    hidden_dim: usize,
    outcomes: Seq<StepOutcome>,
)
    ensures
        ({
            let encoded = TranscriptionView::start(
                samples,
                source,
                target,
                use_pnc,
                max_sequence_length,
            ).encoded(features, features_lens, embeddings, mask);
            let end = encoded.after_prompt(prompt_tokens, eos_id).after_shape(
                num_layers,
                hidden_dim,
            ).after_created().after_steps(outcomes);
            let tokens = prompt_tokens + generated(
                predictions(outcomes),
                eos_id,
                max_sequence_length as nat,
            );
            &&& encoded.action() == ActionView::BuildPrompt { source, target, use_pnc }
            &&& outcomes.len() >= max_sequence_length || predictions(outcomes).contains(eos_id)
                ==> end.action() == ActionView::Detokenize { tokens }
            &&& !(outcomes.len() >= max_sequence_length || predictions(outcomes).contains(eos_id))
                ==> end.action() is CreateInt
        }),
{
    let encoded = TranscriptionView::start(
        samples,
        source,
        target,
        use_pnc,
        max_sequence_length,
    ).encoded(features, features_lens, embeddings, mask);
    let begun = encoded.after_prompt(prompt_tokens, eos_id).after_shape(
        num_layers,
        hidden_dim,
    ).after_created();
    assert(begun.decode == Some(
        DecodeView::begun(prompt_tokens, eos_id, max_sequence_length, num_layers, hidden_dim),
    ));
    lemma_steps_are_lifted(begun, outcomes);
    law_decode_output(
        prompt_tokens,
        eos_id,
        max_sequence_length,
        num_layers,
        hidden_dim,
        outcomes,
    );
}

/// After a failure nothing is due, and no text is made of what was there.
pub proof fn law_failed_transcription_stops(t: TranscriptionView)
    requires
        t.wf(),
    ensures
        t.failed().wf(),
        t.failed().action() == ActionView::Stopped,
{
}

/// A transcription ends: every outcome that is taken lowers the bound on what
/// is left to do, the bound is never negative, and nothing is left but at most
/// the text when it is zero.
pub proof fn law_every_outcome_is_progress(t: TranscriptionView)
    requires
        t.wf(),
    ensures
        t.work_left() >= 0,
        t.work_left() == 0 <==> t.action() is Detokenize || t.action() is Stopped,
        t.failed().work_left() == 0,
        t.action().is_create() ==> t.after_created().work_left() < t.work_left(),
        t.action() is Run ==> t.after_run().work_left() < t.work_left(),
        t.action() is ReadFloat ==> forall|tensor: FloatTensorView|
            (#[trigger] t.after_float(tensor)).work_left() < t.work_left(),
        t.action() is ReadInt ==> forall|tensor: IntTensorView|
            (#[trigger] t.after_int(tensor)).work_left() < t.work_left(),
        t.action() is BuildPrompt ==> forall|tokens: Seq<i64>, eos_id: i64|
            (#[trigger] t.after_prompt(tokens, eos_id)).work_left() < t.work_left(),
        t.action() is InspectDecoder ==> forall|num_layers: usize, hidden_dim: usize|
            (#[trigger] t.after_shape(num_layers, hidden_dim)).work_left() < t.work_left(),
{
}

} // verus!
