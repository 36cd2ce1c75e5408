//! The actions that a transcription asks its caller to perform.
use crate::tensor::{FloatTensor, FloatTensorView, IntTensor, IntTensorView};
use vstd::prelude::*;

verus! {

/// The three models of the engine.
#[derive(Debug, Clone, Copy, PartialEq, Eq, Structural)]
pub enum SessionKind {
    /// Turns audio samples into mel features.
    Preprocessor,
    /// Turns mel features into embeddings.
    Encoder,
    /// Scores the next token.
    Decoder,
}

/// The tensors that a transcription creates for its sessions.
#[derive(Debug, Clone, Copy, PartialEq, Eq, Structural)]
pub enum Slot {
    Waveforms,
    WaveformsLens,
    Features,
    FeaturesLens,
    EncoderEmbeddings,
    EncoderMask,
    InputIds,
    DecoderMems,
}

/// A session input and the tensor that it is given.
#[derive(Debug, Clone, Copy)]
pub struct Binding {
    pub input: &'static str,
    pub slot: Slot,
}

/// What is to be done next.
pub enum Action<'a> {
    /// Create a tensor of single-precision numbers and keep it in a slot.
    CreateFloat { slot: Slot, floats: &'a FloatTensor },
    /// Create a tensor of integers and keep it in a slot.
    CreateInt { slot: Slot, ints: IntTensor },
    /// Create a tensor of single-precision numbers that has no elements, and
    /// keep it in a slot.
    CreateEmpty { slot: Slot, shape: Vec<usize> },
    /// Run a session on the tensors in the given slots.
    Run { session: SessionKind, inputs: Vec<Binding> },
    /// Extract an output of the last run as single-precision numbers.
    ReadFloat { output: &'static str },
    /// Extract an output of the last run as integers.
    ReadInt { output: &'static str },
    /// Build the prompt tokens with the vocabulary.
    BuildPrompt { source: &'a str, target: &'a str, use_pnc: bool },
    /// Read the dimensions of the cache off the decoder session.
    InspectDecoder,
    /// Turn the tokens into text with the vocabulary.
    Detokenize { tokens: &'a Vec<i64> },
    /// Nothing: an action failed, and its error has been returned.
    Stopped,
}

/// An [`Action`] over sequences.
pub enum ActionView {
    CreateFloat { slot: Slot, floats: FloatTensorView },
    CreateInt { slot: Slot, ints: IntTensorView },
    CreateEmpty { slot: Slot, shape: Seq<usize> },
    Run { session: SessionKind, inputs: Seq<(Seq<char>, Slot)> },
    ReadFloat { output: Seq<char> },
    ReadInt { output: Seq<char> },
    BuildPrompt { source: Seq<char>, target: Seq<char>, use_pnc: bool },
    InspectDecoder,
    Detokenize { tokens: Seq<i64> },
    Stopped,
}

/// The names and slots of a list of bindings.
pub open spec fn bindings_view(bindings: Seq<Binding>) -> Seq<(Seq<char>, Slot)> {
    bindings.map_values(|b: Binding| (b.input@, b.slot))
}

impl<'a> View for Action<'a> {
    type V = ActionView;

    open spec fn view(&self) -> ActionView {
        match self {
            Action::CreateFloat { slot, floats } => ActionView::CreateFloat {
                slot: *slot,
                floats: floats@,
            },
            Action::CreateInt { slot, ints } => ActionView::CreateInt {
                slot: *slot,
                ints: ints@,
            },
            Action::CreateEmpty { slot, shape } => ActionView::CreateEmpty {
                slot: *slot,
                shape: shape@,
            },
            Action::Run { session, inputs } => ActionView::Run {
                session: *session,
                inputs: bindings_view(inputs@),
            },
            Action::ReadFloat { output } => ActionView::ReadFloat { output: output@ },
            Action::ReadInt { output } => ActionView::ReadInt { output: output@ },
            Action::BuildPrompt { source, target, use_pnc } => ActionView::BuildPrompt {
                source: source@,
                target: target@,
                use_pnc: *use_pnc,
            },
            Action::InspectDecoder => ActionView::InspectDecoder,
            Action::Detokenize { tokens } => ActionView::Detokenize { tokens: tokens@ },
            Action::Stopped => ActionView::Stopped,
        }
    }
}

impl ActionView {
    /// Whether the action is to create a tensor.
    pub open spec fn is_create(self) -> bool {
        self is CreateFloat || self is CreateInt || self is CreateEmpty
    }

    /// The slot of the tensor that is to be created.
    pub open spec fn created_slot(self) -> Slot
        recommends
            self.is_create(),
    {
        match self {
            ActionView::CreateFloat { slot, .. } => slot,
            ActionView::CreateInt { slot, .. } => slot,
            ActionView::CreateEmpty { slot, .. } => slot,
            _ => arbitrary(),
        }
    }
}

/// The view of an action is the same action on the same values: nothing is
/// added, left out or exchanged.
pub proof fn law_action_views(action: Action<'_>)
    ensures
        match action {
            Action::CreateFloat { slot, floats } => {
                &&& action@ matches ActionView::CreateFloat { slot: s, floats: f }
                &&& s == slot
                &&& f.shape == floats.shape@
                &&& f.bits == floats.bits@
            },
            Action::CreateInt { slot, ints } => {
                &&& action@ matches ActionView::CreateInt { slot: s, ints: i }
                &&& s == slot
                &&& i.shape == ints.shape@
                &&& i.data == ints.data@
            },
            Action::CreateEmpty { slot, shape } => {
                &&& action@ matches ActionView::CreateEmpty { slot: s, shape: dims }
                &&& s == slot
                &&& dims == shape@
            },
            Action::Run { session, inputs } => {
                &&& action@ matches ActionView::Run { session: kind, inputs: bound }
                &&& kind == session
                &&& bound.len() == inputs@.len()
                &&& forall|i: int|
                    0 <= i < inputs@.len() ==> #[trigger] bound[i] == (
                        inputs@[i].input@,
                        inputs@[i].slot,
                    )
            },
            Action::ReadFloat { output } => {
                &&& action@ matches ActionView::ReadFloat { output: name }
                &&& name == output@
            },
            Action::ReadInt { output } => {
                &&& action@ matches ActionView::ReadInt { output: name }
                &&& name == output@
            },
            Action::BuildPrompt { source, target, use_pnc } => {
                &&& action@ matches ActionView::BuildPrompt { source: s, target: t, use_pnc: p }
                &&& s == source@
                &&& t == target@
                &&& p == use_pnc
            },
            Action::InspectDecoder => action@ is InspectDecoder,
            Action::Detokenize { tokens } => {
                &&& action@ matches ActionView::Detokenize { tokens: t }
                &&& t == tokens@
            },
            Action::Stopped => action@ is Stopped,
        },
{
}

/// The actions that create a tensor are the three that name a slot for it.
pub proof fn law_create_actions(action: ActionView)
    ensures
        match action {
            ActionView::CreateFloat { slot, .. } => action.is_create() && action.created_slot()
                == slot,
            ActionView::CreateInt { slot, .. } => action.is_create() && action.created_slot()
                == slot,
            ActionView::CreateEmpty { slot, .. } => action.is_create() && action.created_slot()
                == slot,
            _ => !action.is_create(),
        },
{
}

} // verus!
