//! What is due at each point, and what each single outcome changes.
use crate::action::{ActionView, SessionKind, Slot};
use crate::decode_laws::{predictions, StepOutcome};
use crate::decoder::{DecodePhase, DecodeView};
use crate::slot_laws::{Outcome, Trace};
use crate::tensor::{FloatTensorView, IntTensorView};
use crate::transcription::{Phase, TranscriptionView};
use vstd::prelude::*;

verus! {

/// A loop begins with the prompt, the ending token and the limit that it was
/// given, and with no run completed.
pub proof fn law_decode_begins(prompt_tokens: Seq<i64>, eos_id: i64, max_sequence_length: usize)
    ensures
        ({
            let v = DecodeView::start(prompt_tokens, eos_id, max_sequence_length);
            &&& v.phase == DecodePhase::InspectDecoder
            &&& v.tokens == prompt_tokens
            &&& v.eos_id == eos_id
            &&& v.max_sequence_length == max_sequence_length
            &&& v.step == 0
            &&& v.mems.shape.len() == 0 && v.mems.bits.len() == 0
            &&& v.wf()
        }),
{
}

/// What a loop asks for at each point.
pub proof fn law_decode_actions(v: DecodeView)
    ensures
        match v.phase {
            DecodePhase::InspectDecoder => v.action() is InspectDecoder,
            DecodePhase::CreateCache => v.action() == (ActionView::CreateEmpty {
                slot: Slot::DecoderMems,
                shape: seq![v.num_layers, 1, 0, v.hidden_dim],
            }),
            DecodePhase::CreateInputIds => {
                &&& v.action() matches ActionView::CreateInt { slot, ints }
                &&& slot == Slot::InputIds
                &&& v.step == 0 ==> ints.data == v.tokens && ints.shape == seq![
                    1i64,
                    v.tokens.len() as i64,
                ]
                &&& v.step > 0 ==> ints.data == seq![v.tokens[v.tokens.len() - 1]] && ints.shape
                    == seq![1i64, 1i64]
            },
            DecodePhase::RunDecoder => v.action() == (ActionView::Run {
                session: SessionKind::Decoder,
                inputs: seq![
                    ("input_ids"@, Slot::InputIds),
                    ("encoder_embeddings"@, Slot::EncoderEmbeddings),
                    ("encoder_mask"@, Slot::EncoderMask),
                    ("decoder_mems"@, Slot::DecoderMems),
                ],
            }),
            DecodePhase::ReadLogits => v.action() == (ActionView::ReadFloat { output: "logits"@ })
                && v.output_name() == "logits"@,
            DecodePhase::ReadHiddenStates => v.action() == (ActionView::ReadFloat {
                output: "decoder_hidden_states"@,
            }) && v.output_name() == "decoder_hidden_states"@,
            DecodePhase::CreateMems => v.action() == (ActionView::CreateFloat {
                slot: Slot::DecoderMems,
                floats: v.mems,
            }),
            DecodePhase::Finished => v.action() == (ActionView::Detokenize { tokens: v.tokens }),
            DecodePhase::Failed => v.action() is Stopped,
        },
{
}

/// The dimensions of the cache are kept as they were read, and nothing else
/// changes.
pub proof fn law_decode_takes_shape(v: DecodeView, num_layers: usize, hidden_dim: usize)
    ensures
        v.after_shape(num_layers, hidden_dim) == (DecodeView {
            phase: DecodePhase::CreateCache,
            num_layers,
            hidden_dim,
            ..v
        }),
{
}

/// Once the cache is there a run is due where the limit allows one; the tokens
/// to feed are followed by the run; and a new cache completes the run, after
/// which another is due exactly while fewer runs than the limit are complete.
/// Tokens, limit and cache stay as they are.
pub proof fn law_decode_takes_created(v: DecodeView)
    requires
        v.wf(),
    ensures
        v.phase == DecodePhase::CreateCache ==> v.after_created() == (DecodeView {
            phase: if v.max_sequence_length > 0 {
                DecodePhase::CreateInputIds
            } else {
                DecodePhase::Finished
            },
            step: 0,
            ..v
        }),
        v.phase == DecodePhase::CreateInputIds ==> v.after_created() == (DecodeView {
            phase: DecodePhase::RunDecoder,
            ..v
        }),
        v.phase == DecodePhase::CreateMems ==> {
            let next = v.after_created();
            &&& next.step == v.step + 1
            &&& next.phase == DecodePhase::CreateInputIds <==> v.step + 1 < v.max_sequence_length
            &&& next.phase == DecodePhase::Finished <==> v.step + 1 == v.max_sequence_length
            &&& next == DecodeView { phase: next.phase, step: next.step, ..v }
        },
{
}

/// A run is followed by its scores, and changes nothing by itself.
pub proof fn law_decode_takes_run(v: DecodeView)
    ensures
        v.after_run() == (DecodeView { phase: DecodePhase::ReadLogits, ..v }),
{
}

/// The ending token ends the loop and is not kept; any other token is put
/// behind the tokens that were there, and the hidden states are due.  Hidden
/// states are kept as they were read for the next cache.
pub proof fn law_decode_takes_output(v: DecodeView, tensor: FloatTensorView)
    ensures
        v.phase == DecodePhase::ReadLogits && tensor.greedy_token() == v.eos_id ==> v.after_float(
            tensor,
        ) == (DecodeView { phase: DecodePhase::Finished, ..v }),
        v.phase == DecodePhase::ReadLogits && tensor.greedy_token() != v.eos_id ==> v.after_float(
            tensor,
        ) == (DecodeView {
            phase: DecodePhase::ReadHiddenStates,
            tokens: v.tokens + seq![tensor.greedy_token()],
            ..v
        }),
        v.phase == DecodePhase::ReadHiddenStates ==> v.after_float(tensor) == (DecodeView {
            phase: DecodePhase::CreateMems,
            mems: tensor,
            ..v
        }),
        v.phase == DecodePhase::ReadLogits ==> (v.accepts_float(tensor) <==> {
            &&& tensor.shape.len() >= 3
            &&& tensor.shape[1] as usize >= 1
            &&& (tensor.shape[1] as usize) * (tensor.shape[2] as usize) <= tensor.bits.len()
        }),
        v.phase == DecodePhase::ReadHiddenStates ==> (v.accepts_float(tensor)
            <==> tensor.shape.len() >= 3),
{
    assert(v.tokens.push(tensor.greedy_token()) =~= v.tokens + seq![tensor.greedy_token()]);
}

/// A failure changes nothing but that nothing more is due.
pub proof fn law_decode_takes_failure(v: DecodeView)
    ensures
        v.failed() == (DecodeView { phase: DecodePhase::Failed, ..v }),
{
}

/// Each run predicts the token of its own scores.
pub proof fn law_predictions(outcomes: Seq<StepOutcome>, i: int)
    requires
        0 <= i < outcomes.len(),
    ensures
        predictions(outcomes).len() == outcomes.len(),
        predictions(outcomes)[i] == outcomes[i].logits.greedy_token(),
{
}

/// A transcription begins with the samples as one row and with their number,
/// and with the request as it was made.
pub proof fn law_transcription_begins(
    samples: Seq<u32>,
    source: Seq<char>,
    target: Seq<char>,
    use_pnc: bool,
    max_sequence_length: usize,
)
    ensures
        ({
            let t = TranscriptionView::start(
                samples,
                source,
                target,
                use_pnc,
                max_sequence_length,
            );
            &&& t.phase == Phase::CreateWaveforms
            &&& t.floats.shape == seq![1i64, samples.len() as i64]
            &&& t.floats.bits == samples
            &&& t.ints.shape == seq![1i64]
            &&& t.ints.data == seq![samples.len() as i64]
            &&& t.source == source
            &&& t.target == target
            &&& t.use_pnc == use_pnc
            &&& t.max_sequence_length == max_sequence_length
            &&& t.decode is None
            &&& t.wf()
        }),
{
}

/// What a transcription asks for at each point.
pub proof fn law_transcription_actions(t: TranscriptionView)
    requires
        t.wf(),
    ensures
        match t.phase {
            Phase::CreateWaveforms => t.action() == (ActionView::CreateFloat {
                slot: Slot::Waveforms,
                floats: t.floats,
            }),
            Phase::CreateWaveformsLens => t.action() == (ActionView::CreateInt {
                slot: Slot::WaveformsLens,
                ints: t.ints,
            }),
            Phase::RunPreprocessor => t.action() == (ActionView::Run {
                session: SessionKind::Preprocessor,
                inputs: seq![
                    ("waveforms"@, Slot::Waveforms),
                    ("waveforms_lens"@, Slot::WaveformsLens),
                ],
            }),
            Phase::ReadFeatures => t.action() == (ActionView::ReadFloat { output: "features"@ })
                && t.output_name() == "features"@,
            Phase::ReadFeaturesLens => t.action() == (ActionView::ReadInt {
                output: "features_lens"@,
            }) && t.output_name() == "features_lens"@,
            Phase::CreateFeatures => t.action() == (ActionView::CreateFloat {
                slot: Slot::Features,
                floats: t.floats,
            }),
            Phase::CreateFeaturesLens => t.action() == (ActionView::CreateInt {
                slot: Slot::FeaturesLens,
                ints: t.ints,
            }),
            Phase::RunEncoder => t.action() == (ActionView::Run {
                session: SessionKind::Encoder,
                inputs: seq![("audio_signal"@, Slot::Features), ("length"@, Slot::FeaturesLens)],
            }),
            Phase::ReadEmbeddings => t.action() == (ActionView::ReadFloat {
                output: "encoder_embeddings"@,
            }) && t.output_name() == "encoder_embeddings"@,
            Phase::ReadMask => t.action() == (ActionView::ReadInt { output: "encoder_mask"@ })
                && t.output_name() == "encoder_mask"@,
            Phase::CreateEmbeddings => t.action() == (ActionView::CreateFloat {
                slot: Slot::EncoderEmbeddings,
                floats: t.floats,
            }),
            Phase::CreateMask => t.action() == (ActionView::CreateInt {
                slot: Slot::EncoderMask,
                ints: t.ints,
            }),
            Phase::BuildPrompt => t.action() == (ActionView::BuildPrompt {
                source: t.source,
                target: t.target,
                use_pnc: t.use_pnc,
            }),
            Phase::Decode => {
                &&& t.decode matches Some(d)
                &&& t.action() == d.action()
                &&& t.output_name() == d.output_name()
            },
            Phase::Failed => t.action() is Stopped,
        },
{
}

/// The tensors for a session are created one after the other and followed by
/// its run, those of the decoder by the prompt; the tensors, the request and
/// the limit stay as they are.  While decoding, the loop alone moves.
pub proof fn law_transcription_takes_created(t: TranscriptionView)
    requires
        t.wf(),
    ensures
        match t.phase {
            Phase::CreateWaveforms => t.after_created() == (TranscriptionView {
                phase: Phase::CreateWaveformsLens,
                ..t
            }),
            Phase::CreateWaveformsLens => t.after_created() == (TranscriptionView {
                phase: Phase::RunPreprocessor,
                ..t
            }),
            Phase::CreateFeatures => t.after_created() == (TranscriptionView {
                phase: Phase::CreateFeaturesLens,
                ..t
            }),
            Phase::CreateFeaturesLens => t.after_created() == (TranscriptionView {
                phase: Phase::RunEncoder,
                ..t
            }),
            Phase::CreateEmbeddings => t.after_created() == (TranscriptionView {
                phase: Phase::CreateMask,
                ..t
            }),
            Phase::CreateMask => t.after_created() == (TranscriptionView {
                phase: Phase::BuildPrompt,
                ..t
            }),
            Phase::Decode => t.after_created() == (TranscriptionView {
                decode: Some(t.decode.unwrap().after_created()),
                ..t
            }),
            _ => true,
        },
{
}

/// A run is followed by its first output, and changes nothing by itself.
pub proof fn law_transcription_takes_run(t: TranscriptionView)
    requires
        t.wf(),
    ensures
        match t.phase {
            Phase::RunPreprocessor => t.after_run() == (TranscriptionView {
                phase: Phase::ReadFeatures,
                ..t
            }),
            Phase::RunEncoder => t.after_run() == (TranscriptionView {
                phase: Phase::ReadEmbeddings,
                ..t
            }),
            Phase::Decode => t.after_run() == (TranscriptionView {
                decode: Some(t.decode.unwrap().after_run()),
                ..t
            }),
            _ => true,
        },
{
}

/// Outputs are kept as they were read, the numbers first and then the
/// integers, and nothing else changes.  While decoding, the loop alone moves.
pub proof fn law_transcription_takes_output(
    t: TranscriptionView,
    floats: FloatTensorView,
    ints: IntTensorView,
)
    requires
        t.wf(),
    ensures
        match t.phase {
            Phase::ReadFeatures => t.after_float(floats) == (TranscriptionView {
                phase: Phase::ReadFeaturesLens,
                floats,
                ..t
            }),
            Phase::ReadFeaturesLens => t.after_int(ints) == (TranscriptionView {
                phase: Phase::CreateFeatures,
                ints,
                ..t
            }),
            Phase::ReadEmbeddings => t.after_float(floats) == (TranscriptionView {
                phase: Phase::ReadMask,
                floats,
                ..t
            }),
            Phase::ReadMask => t.after_int(ints) == (TranscriptionView {
                phase: Phase::CreateEmbeddings,
                ints,
                ..t
            }),
            Phase::Decode => t.after_float(floats) == (TranscriptionView {
                decode: Some(t.decode.unwrap().after_float(floats)),
                ..t
            }),
            _ => true,
        },
{
}

/// The prompt begins a decoding loop with its tokens, its ending token and the
/// limit of the request, and nothing else changes.
pub proof fn law_transcription_takes_prompt(
    t: TranscriptionView,
    prompt_tokens: Seq<i64>,
    eos_id: i64,
)
    ensures
        ({
            let next = t.after_prompt(prompt_tokens, eos_id);
            &&& next.phase == Phase::Decode
            &&& next.decode matches Some(d)
            &&& d.phase == DecodePhase::InspectDecoder
            &&& d.tokens == prompt_tokens
            &&& d.eos_id == eos_id
            &&& d.max_sequence_length == t.max_sequence_length
            &&& d.step == 0
            &&& next == TranscriptionView { phase: next.phase, decode: next.decode, ..t }
        }),
{
}

/// The dimensions of the cache go to the decoding loop, and nothing else
/// changes.
pub proof fn law_transcription_takes_shape(
    t: TranscriptionView,
    num_layers: usize,
    hidden_dim: usize,
)
    requires
        t.wf(),
        t.phase == Phase::Decode,
    ensures
        t.after_shape(num_layers, hidden_dim) == (TranscriptionView {
            decode: Some(
                DecodeView {
                    phase: DecodePhase::CreateCache,
                    num_layers,
                    hidden_dim,
                    ..t.decode.unwrap()
                },
            ),
            ..t
        }),
{
}

/// A failure changes nothing but that nothing more is due, in the
/// transcription and in its decoding loop.
pub proof fn law_transcription_takes_failure(t: TranscriptionView)
    ensures
        t.decode is None ==> t.failed() == (TranscriptionView { phase: Phase::Failed, ..t }),
        t.decode matches Some(d) ==> t.failed() == (TranscriptionView {
            phase: Phase::Failed,
            decode: Some(DecodeView { phase: DecodePhase::Failed, ..d }),
            ..t
        }),
{
}

/// Whatever is due, there is an outcome that is taken for it: creating and
/// running always can succeed, and so can reading, whatever integers are read,
/// and whatever numbers are read before decoding.
pub proof fn law_outcomes_are_expected(
    trace: Trace,
    floats: FloatTensorView,
    ints: IntTensorView,
    tokens: Seq<i64>,
    eos_id: i64,
    num_layers: usize,
    hidden_dim: usize,
)
    requires
        trace.state.wf(),
    ensures
        match trace.state.action() {
            ActionView::CreateFloat { .. } => trace.expects(Outcome::Created),
            ActionView::CreateInt { .. } => trace.expects(Outcome::Created),
            ActionView::CreateEmpty { .. } => trace.expects(Outcome::Created),
            ActionView::Run { .. } => trace.expects(Outcome::Ran),
            ActionView::ReadFloat { .. } => {
                &&& trace.state.phase != Phase::Decode ==> trace.expects(Outcome::Floats(floats))
                &&& trace.state.phase == Phase::Decode && floats.shape.len() >= 3
                    && floats.shape[1] as usize >= 1 && (floats.shape[1] as usize) * (
                floats.shape[2] as usize) <= floats.bits.len() ==> trace.expects(
                    Outcome::Floats(floats),
                )
            },
            ActionView::ReadInt { .. } => trace.expects(Outcome::Ints(ints)),
            ActionView::BuildPrompt { .. } => trace.expects(Outcome::Prompt(tokens, eos_id)),
            ActionView::InspectDecoder => trace.expects(Outcome::Shape(num_layers, hidden_dim)),
            ActionView::Detokenize { .. } => !trace.expects(Outcome::Failure),
            ActionView::Stopped => !trace.expects(Outcome::Failure),
        },
{
}

} // verus!
