//! What the sessions of a transcription are run on.
use crate::action::{ActionView, SessionKind, Slot};
use crate::decoder::{decoder_bindings, empty_cache_dims, DecodePhase, DecodeView};
use crate::tensor::{FloatTensorView, IntTensorView};
use crate::transcription::{
    encoder_bindings, preprocessor_bindings, Phase, TranscriptionView,
};
use vstd::prelude::*;

verus! {

/// The outcome of an action.
pub enum Outcome {
    /// The tensor was created.
    Created,
    /// The session was run.
    Ran,
    /// Numbers were read.
    Floats(FloatTensorView),
    /// Integers were read.
    Ints(IntTensorView),
    /// The prompt was built; with the token that ends the output.
    Prompt(Seq<i64>, i64),
    /// The dimensions of the cache were read.
    Shape(usize, usize),
    /// The action failed.
    Failure,
}

/// A transcription, and for each slot the action that filled it last.
#[verifier::ext_equal]
pub struct Trace {
    pub state: TranscriptionView,
    pub created: Map<Slot, ActionView>,
}

impl Trace {
    /// A transcription that has not begun.
    pub open spec fn start(state: TranscriptionView) -> Trace {
        Trace { state, created: Map::empty() }
    }

    /// Whether an outcome is one of the action that is due.
    pub open spec fn expects(self, outcome: Outcome) -> bool {
        let action = self.state.action();
        match outcome {
            Outcome::Created => action.is_create(),
            Outcome::Ran => action is Run,
            Outcome::Floats(tensor) => action is ReadFloat && self.state.accepts_float(tensor),
            Outcome::Ints(_) => action is ReadInt,
            Outcome::Prompt(_, _) => action is BuildPrompt,
            Outcome::Shape(_, _) => action is InspectDecoder,
            Outcome::Failure => !(action is Detokenize) && !(action is Stopped),
        }
    }

    /// The transcription after an outcome, with the slot that it filled.
    pub open spec fn after(self, outcome: Outcome) -> Trace {
        let state = self.state;
        match outcome {
            Outcome::Created => Trace {
                state: state.after_created(),
                created: self.created.insert(state.action().created_slot(), state.action()),
            },
            Outcome::Ran => Trace { state: state.after_run(), ..self },
            Outcome::Floats(tensor) => Trace { state: state.after_float(tensor), ..self },
            Outcome::Ints(tensor) => Trace { state: state.after_int(tensor), ..self },
            Outcome::Prompt(tokens, eos_id) => Trace {
                state: state.after_prompt(tokens, eos_id),
                ..self
            },
            Outcome::Shape(num_layers, hidden_dim) => Trace {
                state: state.after_shape(num_layers, hidden_dim),
                ..self
            },
            Outcome::Failure => Trace { state: state.failed(), ..self },
        }
    }

    /// Whether each outcome of a list is one of the action that is due by then.
    pub open spec fn expects_all(self, outcomes: Seq<Outcome>) -> bool
        decreases outcomes.len(),
    {
        outcomes.len() == 0 || {
            &&& self.expects(outcomes[0])
            &&& self.after(outcomes[0]).expects_all(outcomes.drop_first())
        }
    }

    /// The transcription after a list of outcomes.
    pub open spec fn after_all(self, outcomes: Seq<Outcome>) -> Trace
        decreases outcomes.len(),
    {
        if outcomes.len() == 0 {
            self
        } else {
            self.after(outcomes[0]).after_all(outcomes.drop_first())
        }
    }

    /// Whether a slot was filled last with these numbers.
    pub open spec fn has_floats(self, slot: Slot, floats: FloatTensorView) -> bool {
        self.created.contains_key(slot) && self.created[slot] == (ActionView::CreateFloat {
            slot,
            floats,
        })
    }

    /// Whether a slot was filled last with these integers.
    pub open spec fn has_ints(self, slot: Slot, ints: IntTensorView) -> bool {
        self.created.contains_key(slot) && self.created[slot] == (ActionView::CreateInt {
            slot,
            ints,
        })
    }

    /// Whether the decoder's cache was made of the hidden states of the last
    /// run, or is the empty one where there was no run.
    pub open spec fn has_cache(self, d: DecodeView) -> bool {
        if d.step == 0 {
            self.created.contains_key(Slot::DecoderMems) && self.created[Slot::DecoderMems] == (
            ActionView::CreateEmpty {
                slot: Slot::DecoderMems,
                shape: empty_cache_dims(d.num_layers, d.hidden_dim),
            })
        } else {
            self.has_floats(Slot::DecoderMems, d.mems)
        }
    }

    /// What the slots hold at each point of the decoding loop.
    spec fn decode_filled(self, d: DecodeView) -> bool {
        match d.phase {
            DecodePhase::CreateInputIds => self.has_cache(d),
            DecodePhase::RunDecoder => self.has_cache(d) && self.has_ints(
                Slot::InputIds,
                d.input_ids(),
            ),
            _ => true,
        }
    }

    /// What the slots hold at each point.
    spec fn filled(self) -> bool {
        let t = self.state;
        match t.phase {
            Phase::CreateWaveformsLens => self.has_floats(Slot::Waveforms, t.floats),
            Phase::RunPreprocessor => {
                &&& self.has_floats(Slot::Waveforms, t.floats)
                &&& self.has_ints(Slot::WaveformsLens, t.ints)
            },
            Phase::CreateFeaturesLens => self.has_floats(Slot::Features, t.floats),
            Phase::RunEncoder => {
                &&& self.has_floats(Slot::Features, t.floats)
                &&& self.has_ints(Slot::FeaturesLens, t.ints)
            },
            Phase::CreateMask => self.has_floats(Slot::EncoderEmbeddings, t.floats),
            Phase::BuildPrompt => {
                &&& self.has_floats(Slot::EncoderEmbeddings, t.floats)
                &&& self.has_ints(Slot::EncoderMask, t.ints)
            },
            Phase::Decode => {
                &&& self.has_floats(Slot::EncoderEmbeddings, t.floats)
                &&& self.has_ints(Slot::EncoderMask, t.ints)
                &&& self.decode_filled(t.decode.unwrap())
            },
            _ => true,
        }
    }
}

proof fn lemma_filled_after(trace: Trace, outcome: Outcome)
    requires
        trace.state.wf(),
        trace.filled(),
        trace.expects(outcome),
    ensures
        trace.after(outcome).state.wf(),
        trace.after(outcome).filled(),
{
}

proof fn lemma_filled_after_all(trace: Trace, outcomes: Seq<Outcome>)
    requires
        trace.state.wf(),
        trace.filled(),
        trace.expects_all(outcomes),
    ensures
        trace.after_all(outcomes).state.wf(),
        trace.after_all(outcomes).filled(),
    decreases outcomes.len(),
{
    if outcomes.len() > 0 {
        lemma_filled_after(trace, outcomes[0]);
        lemma_filled_after_all(trace.after(outcomes[0]), outcomes.drop_first());
    }
}

/// Whenever a session is to be run, every slot that it reads has been filled,
/// and filled last with what belongs there: for the preprocessor the waveform
/// and its length, for the encoder what the preprocessor returned, and for
/// each run of the decoder what the encoder returned, the tokens to feed and
/// the cache.
pub proof fn law_runs_read_filled_slots(
    samples: Seq<u32>,
    source: Seq<char>,
    target: Seq<char>,
    use_pnc: bool,
    max_sequence_length: usize,
    outcomes: Seq<Outcome>,
)
    requires
        Trace::start(
            TranscriptionView::start(samples, source, target, use_pnc, max_sequence_length),
        ).expects_all(outcomes),
    ensures
        ({
            let end = Trace::start(
                TranscriptionView::start(samples, source, target, use_pnc, max_sequence_length),
            ).after_all(outcomes);
            let t = end.state;
            end.state.action() matches ActionView::Run { session, inputs } ==> {
                &&& forall|i: int|
                    0 <= i < inputs.len() ==> end.created.contains_key((#[trigger] inputs[i]).1)
                &&& session == SessionKind::Preprocessor ==> {
                    &&& inputs == preprocessor_bindings()
                    &&& end.has_floats(Slot::Waveforms, t.floats)
                    &&& end.has_ints(Slot::WaveformsLens, t.ints)
                }
                &&& session == SessionKind::Encoder ==> {
                    &&& inputs == encoder_bindings()
                    &&& end.has_floats(Slot::Features, t.floats)
                    &&& end.has_ints(Slot::FeaturesLens, t.ints)
                }
                &&& session == SessionKind::Decoder ==> {
                    &&& inputs == decoder_bindings()
                    &&& end.has_floats(Slot::EncoderEmbeddings, t.floats)
                    &&& end.has_ints(Slot::EncoderMask, t.ints)
                    &&& end.has_ints(Slot::InputIds, t.decode.unwrap().input_ids())
                    &&& end.has_cache(t.decode.unwrap())
                }
            }
        }),
{
    lemma_filled_after_all(
        Trace::start(
            TranscriptionView::start(samples, source, target, use_pnc, max_sequence_length),
        ),
        outcomes,
    );
}

/// A failure is the last outcome: nothing is expected after it.
pub proof fn law_nothing_follows_a_failure(trace: Trace, outcome: Outcome)
    requires
        trace.state.wf(),
        trace.expects(Outcome::Failure),
    ensures
        !trace.after(Outcome::Failure).expects(outcome),
{
}

/// Decoding keeps what the encoder returned: the numbers and integers of a
/// transcription that decodes are those that were read last from the encoder,
/// whatever the decoder returns.
pub proof fn law_decoding_keeps_encoder_outputs(trace: Trace, outcome: Outcome)
    requires
        trace.state.wf(),
        trace.state.phase == Phase::Decode,
        trace.expects(outcome),
    ensures
        trace.after(outcome).state.floats == trace.state.floats,
        trace.after(outcome).state.ints == trace.state.ints,
        trace.after(outcome).created.contains_key(Slot::EncoderEmbeddings)
            == trace.created.contains_key(Slot::EncoderEmbeddings),
        trace.after(outcome).created[Slot::EncoderEmbeddings]
            == trace.created[Slot::EncoderEmbeddings],
        trace.after(outcome).created.contains_key(Slot::EncoderMask)
            == trace.created.contains_key(Slot::EncoderMask),
        trace.after(outcome).created[Slot::EncoderMask] == trace.created[Slot::EncoderMask],
{
}

} // verus!
