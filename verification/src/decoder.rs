//! Autoregressive decoding: the cache dimensions of the decoder model, and the
//! loop that feeds the model and collects its tokens.
use crate::action::{bindings_view, Action, ActionView, Binding, SessionKind, Slot};
use crate::error::{extraction_error, extraction_failure, CanaryError, ErrorView};
use crate::runtime::{
    describe_inputs, error_text, input_info, session_input_list, session_inputs, InputInfo,
    InputInfoView, InputKind, InputKindView,
};
use crate::tensor::{FloatTensor, FloatTensorView, IntTensor, IntTensorView};
use crate::text::{decimal, decimal_string, signed_decimal, signed_decimal_string};
use vstd::prelude::*;

verus! {

/// Whether `k` is the position of the first input that is named
/// `decoder_mems`.
pub open spec fn is_mems_position(inputs: Seq<InputInfoView>, k: int) -> bool {
    &&& 0 <= k < inputs.len()
    &&& inputs[k].name == "decoder_mems"@
    &&& forall|j: int| 0 <= j < k ==> (#[trigger] inputs[j]).name != "decoder_mems"@
}

/// The outcome of reading `num_layers` and `hidden_dim` off the type of the
/// input `decoder_mems`.
pub open spec fn mems_shape_of_kind(kind: InputKindView) -> Result<(usize, usize), ErrorView> {
    match kind {
        InputKindView::Tensor(dims) => if dims.len() != 4 {
            Err(
                ErrorView::InferenceError(
                    "Expected 4D decoder_mems, got "@ + decimal(dims.len()) + "D"@,
                ),
            )
        } else if dims[0] <= 0 || dims[3] <= 0 {
            Err(
                ErrorView::InferenceError(
                    "decoder_mems has dynamic num_layers ("@ + signed_decimal(dims[0] as int)
                        + ") or hidden_dim ("@ + signed_decimal(dims[3] as int)
                        + "); expected fixed"@,
                ),
            )
        } else {
            Ok((dims[0] as usize, dims[3] as usize))
        },
        InputKindView::Other(text) => Err(
            ErrorView::InferenceError("decoder_mems input is not a tensor: "@ + text),
        ),
    }
}

/// The outcome of looking up `num_layers` and `hidden_dim` in a list of
/// session inputs: the first input named `decoder_mems` decides.
pub open spec fn mems_shape_of(inputs: Seq<InputInfoView>) -> Result<(usize, usize), ErrorView> {
    if exists|k: int| is_mems_position(inputs, k) {
        mems_shape_of_kind(inputs[choose|k: int| is_mems_position(inputs, k)].kind)
    } else {
        Err(ErrorView::InferenceError("Decoder model missing 'decoder_mems' input"@))
    }
}

/// A result with its error over sequences.
pub open spec fn result_view<T>(r: Result<T, CanaryError>) -> Result<T, ErrorView> {
    match r {
        Ok(t) => Ok(t),
        Err(e) => Err(e@),
    }
}

/// The views of a list of input descriptions.
pub open spec fn infos_view(inputs: Seq<InputInfo>) -> Seq<InputInfoView> {
    inputs.map_values(|i: InputInfo| i@)
}

/// The descriptions of a list of session inputs.
pub open spec fn input_infos(inputs: Seq<ort::session::Input>) -> Seq<InputInfoView> {
    inputs.map_values(|i: ort::session::Input| input_info(i))
}

/// Whichever input named `decoder_mems` comes first decides the cache
/// dimensions; what follows it does not matter.
pub proof fn law_first_mems_input_decides(inputs: Seq<InputInfoView>, k: int)
    requires
        is_mems_position(inputs, k),
    ensures
        mems_shape_of(inputs) == mems_shape_of_kind(inputs[k].kind),
{
    let c = choose|c: int| is_mems_position(inputs, c);
    assert(c == k) by {
        if c < k {
            assert(inputs[c].name != "decoder_mems"@);
        } else if k < c {
            assert(inputs[k].name != "decoder_mems"@);
        }
    }
}

/// Read `num_layers` and `hidden_dim` off the type of the input
/// `decoder_mems`.
fn read_mems_kind(kind: &InputKind) -> (r: Result<(usize, usize), CanaryError>)
    ensures
        result_view(r) == mems_shape_of_kind(kind@),
{
    match kind {
        InputKind::Tensor(dims) => {
            if dims.len() != 4 {
                let text = "Expected 4D decoder_mems, got ".to_string().concat(
                    decimal_string(dims.len() as u64).as_str(),
                ).concat("D");
                return Err(CanaryError::InferenceError(text));
            }
            let num_layers: i64 = dims[0];
            let hidden_dim: i64 = dims[3];
            if num_layers <= 0 || hidden_dim <= 0 {
                let text = "decoder_mems has dynamic num_layers (".to_string().concat(
                    signed_decimal_string(num_layers).as_str(),
                ).concat(") or hidden_dim (").concat(
                    signed_decimal_string(hidden_dim).as_str(),
                ).concat("); expected fixed");
                return Err(CanaryError::InferenceError(text));
            }
            Ok((num_layers as usize, hidden_dim as usize))
        },
        InputKind::Other(text) => Err(
            CanaryError::InferenceError(
                "decoder_mems input is not a tensor: ".to_string().concat(text.as_str()),
            ),
        ),
    }
}

/// Find `num_layers` and `hidden_dim` in the descriptions of the decoder's
/// inputs.
///
/// The expected shape of the input `decoder_mems` is
/// `[num_layers, batch, cache_len, hidden_dim]` where `num_layers` and
/// `hidden_dim` are fixed dimensions, while `batch` and `cache_len` may be
/// dynamic (-1).
pub fn decoder_mems_shape(inputs: &Vec<InputInfo>) -> (r: Result<(usize, usize), CanaryError>)
    ensures
        result_view(r) == mems_shape_of(infos_view(inputs@)),
        forall|k: int|
            #![trigger inputs@[k]]
            0 <= k < inputs@.len() && inputs@[k].name@ == "decoder_mems"@ && (forall|j: int|
                0 <= j < k ==> (#[trigger] inputs@[j]).name@ != "decoder_mems"@) ==> match inputs@[k].kind {
            InputKind::Tensor(dims) => if dims@.len() != 4 {
                &&& r matches Err(CanaryError::InferenceError(s))
                &&& s@ == "Expected 4D decoder_mems, got "@ + decimal(dims@.len()) + "D"@
            } else if dims@[0] <= 0 || dims@[3] <= 0 {
                &&& r matches Err(CanaryError::InferenceError(s))
                &&& s@ == "decoder_mems has dynamic num_layers ("@ + signed_decimal(
                    dims@[0] as int,
                ) + ") or hidden_dim ("@ + signed_decimal(dims@[3] as int) + "); expected fixed"@
            } else {
                r == Ok::<(usize, usize), CanaryError>((dims@[0] as usize, dims@[3] as usize))
            },
            InputKind::Other(text) => {
                &&& r matches Err(CanaryError::InferenceError(s))
                &&& s@ == "decoder_mems input is not a tensor: "@ + text@
            },
        },
        (forall|j: int| 0 <= j < inputs@.len() ==> (#[trigger] inputs@[j]).name@ != "decoder_mems"@)
            ==> (r matches Err(CanaryError::InferenceError(s)) && s@
            == "Decoder model missing 'decoder_mems' input"@),
{
    let ghost infos = infos_view(inputs@);
    let wanted = "decoder_mems".to_string();
    let mut i: usize = 0;
    while i < inputs.len()
        invariant
            i <= inputs@.len(),
            wanted@ == "decoder_mems"@,
            infos == infos_view(inputs@),
            forall|j: int| 0 <= j < i ==> (#[trigger] infos[j]).name != "decoder_mems"@,
            forall|j: int| 0 <= j < i ==> (#[trigger] inputs@[j]).name@ != "decoder_mems"@,
        decreases inputs@.len() - i,
    {
        assert(infos[i as int] == inputs@[i as int]@);
        if inputs[i].name == wanted {
            proof {
                law_first_mems_input_decides(infos, i as int);
            }
            return read_mems_kind(&inputs[i].kind);
        }
        i += 1;
    }
    assert forall|k: int| !is_mems_position(infos, k) by {
        if 0 <= k < infos.len() {
            assert(infos[k].name != "decoder_mems"@);
        }
    }
    Err(CanaryError::InferenceError("Decoder model missing 'decoder_mems' input".to_string()))
}

/// Extract `num_layers` and `hidden_dim` from the decoder session's
/// `decoder_mems` input metadata.
pub fn extract_decoder_mems_shape(decoder: &ort::session::Session) -> (r: Result<
    (usize, usize),
    CanaryError,
>)
    ensures
        result_view(r) == mems_shape_of(input_infos(session_input_list(*decoder))),
        forall|k: int|
            #![trigger session_input_list(*decoder)[k]]
            0 <= k < session_input_list(*decoder).len() && input_info(
                session_input_list(*decoder)[k],
            ).name == "decoder_mems"@ && (forall|j: int|
                0 <= j < k ==> input_info(#[trigger] session_input_list(*decoder)[j]).name
                    != "decoder_mems"@) ==> match input_info(session_input_list(*decoder)[k]).kind {
            InputKindView::Tensor(dims) => if dims.len() != 4 {
                &&& r matches Err(CanaryError::InferenceError(s))
                &&& s@ == "Expected 4D decoder_mems, got "@ + decimal(dims.len()) + "D"@
            } else if dims[0] <= 0 || dims[3] <= 0 {
                &&& r matches Err(CanaryError::InferenceError(s))
                &&& s@ == "decoder_mems has dynamic num_layers ("@ + signed_decimal(
                    dims[0] as int,
                ) + ") or hidden_dim ("@ + signed_decimal(dims[3] as int) + "); expected fixed"@
            } else {
                r == Ok::<(usize, usize), CanaryError>((dims[0] as usize, dims[3] as usize))
            },
            InputKindView::Other(text) => {
                &&& r matches Err(CanaryError::InferenceError(s))
                &&& s@ == "decoder_mems input is not a tensor: "@ + text
            },
        },
        (forall|j: int|
            0 <= j < session_input_list(*decoder).len() ==> input_info(
                #[trigger] session_input_list(*decoder)[j],
            ).name != "decoder_mems"@) ==> (r matches Err(CanaryError::InferenceError(s)) && s@
            == "Decoder model missing 'decoder_mems' input"@),
{
    let inputs = session_inputs(decoder);
    let infos = describe_inputs(inputs);
    assert(infos_view(infos@) =~= input_infos(inputs@));
    proof {
        assert forall|k: int|
            #![trigger inputs@[k]]
            0 <= k < inputs@.len() && input_info(inputs@[k]).name == "decoder_mems"@ && (forall|
                j: int,
            |
                0 <= j < k ==> input_info(#[trigger] inputs@[j]).name
                    != "decoder_mems"@) implies mems_shape_of(input_infos(inputs@))
            == mems_shape_of_kind(input_info(inputs@[k]).kind) by {
            law_first_mems_input_decides(input_infos(inputs@), k);
        }
        if forall|j: int|
            0 <= j < inputs@.len() ==> input_info(#[trigger] inputs@[j]).name
                != "decoder_mems"@ {
            assert forall|k: int| !is_mems_position(input_infos(inputs@), k) by {
                if 0 <= k < inputs@.len() {
                    assert(input_infos(inputs@)[k] == input_info(inputs@[k]));
                }
            }
        }
    }
    decoder_mems_shape(&infos)
}

/// Where a decoding loop stands.
#[derive(Debug, Clone, Copy, PartialEq, Eq, Structural)]
pub enum DecodePhase {
    /// The dimensions of the cache are to be read off the decoder.
    InspectDecoder,
    /// The empty cache is to be created.
    CreateCache,
    /// The tokens for the next run are to be put into a tensor.
    CreateInputIds,
    /// The decoder is to be run.
    RunDecoder,
    /// The scores of the run are to be read.
    ReadLogits,
    /// The hidden states of the run are to be read.
    ReadHiddenStates,
    /// The cache for the next run is to be made from the hidden states.
    CreateMems,
    /// No more runs: the tokens are to be turned into text.
    Finished,
    /// An action failed: nothing more is done.
    Failed,
}

/// The state of a decoding loop.
#[verifier::ext_equal]
pub struct DecodeView {
    /// Where the loop stands.
    pub phase: DecodePhase,
    /// The prompt and the tokens predicted so far.
    pub tokens: Seq<i64>,
    /// The token that ends the output.
    pub eos_id: i64,
    /// How many runs there may be.
    pub max_sequence_length: usize,
    /// How many runs have been completed.
    pub step: usize,
    /// The first dimension of the cache.
    pub num_layers: usize,
    /// The last dimension of the cache.
    pub hidden_dim: usize,
    /// The hidden states that were read last.
    pub mems: FloatTensorView,
}

/// The dimensions `[num_layers, batch, cache_len, hidden_dim]` of a cache for
/// one sequence that has nothing in it.
pub open spec fn empty_cache_dims(num_layers: usize, hidden_dim: usize) -> Seq<usize> {
    seq![num_layers, 1, 0, hidden_dim]
}

/// The dimensions of a cache for one sequence that has nothing in it.
pub fn empty_cache_shape(num_layers: usize, hidden_dim: usize) -> (r: Vec<usize>)
    ensures
        r@ == seq![num_layers, 1, 0, hidden_dim],
{
    vec![num_layers, 1, 0, hidden_dim]
}

/// The inputs of a run of the decoder.
pub open spec fn decoder_bindings() -> Seq<(Seq<char>, Slot)> {
    seq![
        ("input_ids"@, Slot::InputIds),
        ("encoder_embeddings"@, Slot::EncoderEmbeddings),
        ("encoder_mask"@, Slot::EncoderMask),
        ("decoder_mems"@, Slot::DecoderMems),
    ]
}

impl DecodeView {
    /// A loop that has not begun.
    pub open spec fn start(
        prompt_tokens: Seq<i64>,
        eos_id: i64,
        max_sequence_length: usize,
    ) -> DecodeView {
        DecodeView {
            phase: DecodePhase::InspectDecoder,
            tokens: prompt_tokens,
            eos_id,
            max_sequence_length,
            step: 0,
            num_layers: 0,
            hidden_dim: 0,
            mems: FloatTensorView { shape: seq![], bits: seq![] },
        }
    }

    /// What holds of a loop at every point: runs are only due while the limit
    /// is not reached, and a completed run has left a token.
    pub open spec fn wf(self) -> bool {
        &&& self.step <= self.max_sequence_length
        &&& self.step != 0 ==> self.tokens.len() > 0
        &&& match self.phase {
            DecodePhase::InspectDecoder | DecodePhase::CreateCache => self.step == 0,
            DecodePhase::CreateInputIds
            | DecodePhase::RunDecoder
            | DecodePhase::ReadLogits => self.step < self.max_sequence_length,
            DecodePhase::ReadHiddenStates
            | DecodePhase::CreateMems => self.step < self.max_sequence_length
                && self.tokens.len() > 0,
            _ => true,
        }
    }

    /// The tokens to feed: the full prompt on the first step, and only the most
    /// recent token after that.
    pub open spec fn input_ids(self) -> IntTensorView {
        if self.step == 0 {
            IntTensorView { shape: seq![1i64, self.tokens.len() as i64], data: self.tokens }
        } else {
            IntTensorView { shape: seq![1i64, 1i64], data: seq![self.tokens.last()] }
        }
    }

    /// The name of the output that is to be read.
    pub open spec fn output_name(self) -> Seq<char> {
        if self.phase == DecodePhase::ReadLogits {
            "logits"@
        } else {
            "decoder_hidden_states"@
        }
    }

    /// The action that is due.
    pub open spec fn action(self) -> ActionView {
        match self.phase {
            DecodePhase::InspectDecoder => ActionView::InspectDecoder,
            DecodePhase::CreateCache => ActionView::CreateEmpty {
                slot: Slot::DecoderMems,
                shape: empty_cache_dims(self.num_layers, self.hidden_dim),
            },
            DecodePhase::CreateInputIds => ActionView::CreateInt {
                slot: Slot::InputIds,
                ints: self.input_ids(),
            },
            DecodePhase::RunDecoder => ActionView::Run {
                session: SessionKind::Decoder,
                inputs: decoder_bindings(),
            },
            DecodePhase::ReadLogits => ActionView::ReadFloat { output: self.output_name() },
            DecodePhase::ReadHiddenStates => ActionView::ReadFloat { output: self.output_name() },
            DecodePhase::CreateMems => ActionView::CreateFloat {
                slot: Slot::DecoderMems,
                floats: self.mems,
            },
            DecodePhase::Finished => ActionView::Detokenize { tokens: self.tokens },
            DecodePhase::Failed => ActionView::Stopped,
        }
    }

    /// The loop after an action failed: nothing more is done.
    pub open spec fn failed(self) -> DecodeView {
        DecodeView { phase: DecodePhase::Failed, ..self }
    }

    /// The loop at the head of a step: another run if the limit allows it.
    pub open spec fn at_step(self, step: usize) -> DecodeView {
        DecodeView {
            phase: if step < self.max_sequence_length {
                DecodePhase::CreateInputIds
            } else {
                DecodePhase::Finished
            },
            step,
            ..self
        }
    }

    /// The loop after the dimensions of the cache were read.
    pub open spec fn after_shape(self, num_layers: usize, hidden_dim: usize) -> DecodeView {
        DecodeView { phase: DecodePhase::CreateCache, num_layers, hidden_dim, ..self }
    }

    /// The loop after the tensor that was due has been created.
    pub open spec fn after_created(self) -> DecodeView {
        match self.phase {
            DecodePhase::CreateCache => self.at_step(self.step),
            DecodePhase::CreateInputIds => DecodeView { phase: DecodePhase::RunDecoder, ..self },
            _ => self.at_step((self.step + 1) as usize),
        }
    }

    /// The loop after a run.
    pub open spec fn after_run(self) -> DecodeView {
        DecodeView { phase: DecodePhase::ReadLogits, ..self }
    }

    /// The loop after the scores of a run were read: the end-of-sequence token
    /// ends it, any other token is appended.
    pub open spec fn after_logits(self, logits: FloatTensorView) -> DecodeView {
        if logits.greedy_token() == self.eos_id {
            DecodeView { phase: DecodePhase::Finished, ..self }
        } else {
            DecodeView {
                phase: DecodePhase::ReadHiddenStates,
                tokens: self.tokens.push(logits.greedy_token()),
                ..self
            }
        }
    }

    /// The loop after the hidden states of a run were read.
    pub open spec fn after_hidden_states(self, hidden_states: FloatTensorView) -> DecodeView {
        DecodeView {
            phase: DecodePhase::CreateMems,
            mems: hidden_states,
            ..self
        }
    }

    /// The loop after the output that was due has been read.
    pub open spec fn after_float(self, tensor: FloatTensorView) -> DecodeView {
        if self.phase == DecodePhase::ReadLogits {
            self.after_logits(tensor)
        } else {
            self.after_hidden_states(tensor)
        }
    }

    /// Whether a tensor has the dimensions of the output that is due: scores
    /// with a last time step, or hidden states
    /// `[num_layers, batch, cache_len, ..]` with a cache length.
    pub open spec fn accepts_float(self, tensor: FloatTensorView) -> bool {
        if self.phase == DecodePhase::ReadLogits {
            tensor.has_last_step()
        } else {
            tensor.shape.len() >= 3
        }
    }
}

/// The decoding loop of one transcription.
pub struct DecodeLoop {
    phase: DecodePhase,
    tokens: Vec<i64>,
    eos_id: i64,
    max_sequence_length: usize,
    step: usize,
    num_layers: usize,
    hidden_dim: usize,
    mems: FloatTensor,
}

impl View for DecodeLoop {
    type V = DecodeView;

    closed spec fn view(&self) -> DecodeView {
        DecodeView {
            phase: self.phase,
            tokens: self.tokens@,
            eos_id: self.eos_id,
            max_sequence_length: self.max_sequence_length,
            step: self.step,
            num_layers: self.num_layers,
            hidden_dim: self.hidden_dim,
            mems: self.mems@,
        }
    }
}

/// Begin autoregressive decoding using the decoder ONNX model.
///
/// This implements the standard encoder-decoder loop:
/// 1. Initialize an empty KV-cache (`decoder_mems`).
/// 2. On the first step, feed the full prompt as `input_ids`.
/// 3. On subsequent steps, feed only the last predicted token.
/// 4. Stop when the EOS token is emitted or `max_sequence_length` is reached.
pub fn decode_autoregressive(
    prompt_tokens: Vec<i64>,
    eos_id: i64,
    max_sequence_length: usize,
) -> (r: DecodeLoop)
    ensures
        r@ == DecodeView::start(prompt_tokens@, eos_id, max_sequence_length),
        r@.wf(),
        r@.phase == DecodePhase::InspectDecoder,
        r@.tokens == prompt_tokens@,
        r@.eos_id == eos_id,
        r@.max_sequence_length == max_sequence_length,
        r@.step == 0,
{
    DecodeLoop {
        phase: DecodePhase::InspectDecoder,
        tokens: prompt_tokens,
        eos_id,
        max_sequence_length,
        step: 0,
        num_layers: 0,
        hidden_dim: 0,
        mems: FloatTensor { shape: Vec::new(), bits: Vec::new() },
    }
}

impl DecodeLoop {
    /// The action that is due.
    pub fn action(&self) -> (r: Action<'_>)
        requires
            self@.wf(),
        ensures
            r@ == self@.action(),
    {
        match self.phase {
            DecodePhase::InspectDecoder => Action::InspectDecoder,
            DecodePhase::CreateCache => Action::CreateEmpty {
                slot: Slot::DecoderMems,
                shape: empty_cache_shape(self.num_layers, self.hidden_dim),
            },
            DecodePhase::CreateInputIds => {
                let ints = self.input_ids();
                Action::CreateInt { slot: Slot::InputIds, ints }
            },
            DecodePhase::RunDecoder => {
                let inputs = vec![
                    Binding { input: "input_ids", slot: Slot::InputIds },
                    Binding { input: "encoder_embeddings", slot: Slot::EncoderEmbeddings },
                    Binding { input: "encoder_mask", slot: Slot::EncoderMask },
                    Binding { input: "decoder_mems", slot: Slot::DecoderMems },
                ];
                assert(bindings_view(inputs@) =~= decoder_bindings());
                Action::Run { session: SessionKind::Decoder, inputs }
            },
            DecodePhase::ReadLogits => Action::ReadFloat { output: self.output_name() },
            DecodePhase::ReadHiddenStates => Action::ReadFloat { output: self.output_name() },
            DecodePhase::CreateMems => Action::CreateFloat {
                slot: Slot::DecoderMems,
                floats: &self.mems,
            },
            DecodePhase::Finished => Action::Detokenize { tokens: &self.tokens },
            DecodePhase::Failed => Action::Stopped,
        }
    }

    /// The tokens to feed to the next run.
    fn input_ids(&self) -> (r: IntTensor)
        requires
            self@.wf(),
        ensures
            r@ == self@.input_ids(),
    {
        if self.step == 0 {
            let len: usize = self.tokens.len();
            IntTensor { shape: vec![1i64, len as i64], data: self.tokens.clone() }
        } else {
            let last: i64 = self.tokens[self.tokens.len() - 1];
            IntTensor { shape: vec![1i64, 1i64], data: vec![last] }
        }
    }

    /// The name of the output that is to be read.
    fn output_name(&self) -> (r: &'static str)
        ensures
            r@ == self@.output_name(),
    {
        if self.phase == DecodePhase::ReadLogits {
            "logits"
        } else {
            "decoder_hidden_states"
        }
    }

    /// Moves to the head of a step.
    fn go_to_step(&mut self, step: usize)
        ensures
            final(self)@ == old(self)@.at_step(step),
    {
        self.step = step;
        if step < self.max_sequence_length {
            self.phase = DecodePhase::CreateInputIds;
        } else {
            self.phase = DecodePhase::Finished;
        }
    }

    /// Takes the dimensions of the cache.
    pub fn on_decoder_shape(&mut self, outcome: Result<(usize, usize), CanaryError>) -> (r: Result<
        (),
        CanaryError,
    >)
        requires
            old(self)@.wf(),
            old(self)@.action() is InspectDecoder,
        ensures
            final(self)@.wf(),
            match outcome {
                Ok(dims) => r is Ok && final(self)@ == old(self)@.after_shape(dims.0, dims.1),
                Err(e) => r == Err::<(), CanaryError>(e) && final(self)@ == old(self)@.failed(),
            },
    {
        match outcome {
            Ok(dims) => {
                self.num_layers = dims.0;
                self.hidden_dim = dims.1;
                self.phase = DecodePhase::CreateCache;
                Ok(())
            },
            Err(e) => {
                self.phase = DecodePhase::Failed;
                Err(e)
            },
        }
    }

    /// Reads the dimensions of the cache off the decoder session.
    pub fn inspect_decoder(&mut self, decoder: &ort::session::Session) -> (r: Result<
        (),
        CanaryError,
    >)
        requires
            old(self)@.wf(),
            old(self)@.action() is InspectDecoder,
        ensures
            final(self)@.wf(),
            match mems_shape_of(input_infos(session_input_list(*decoder))) {
                Ok(dims) => r is Ok && final(self)@ == old(self)@.after_shape(dims.0, dims.1),
                Err(e) => {
                    &&& r is Err
                    &&& r->Err_0@ == e
                    &&& final(self)@ == old(self)@.failed()
                },
            },
    {
        self.on_decoder_shape(extract_decoder_mems_shape(decoder))
    }

    /// Takes the outcome of creating the tensor that was due.
    pub fn on_created(&mut self, outcome: Result<(), ort::Error>) -> (r: Result<(), CanaryError>)
        requires
            old(self)@.wf(),
            old(self)@.action().is_create(),
        ensures
            final(self)@.wf(),
            match outcome {
                Ok(_) => r is Ok && final(self)@ == old(self)@.after_created(),
                Err(e) => {
                    &&& r is Err
                    &&& r->Err_0@ == ErrorView::OnnxError(error_text(e))
                    &&& final(self)@ == old(self)@.failed()
                },
            },
    {
        match outcome {
            Ok(_) => {
                match self.phase {
                    DecodePhase::CreateCache => {
                        let step: usize = self.step;
                        self.go_to_step(step);
                    },
                    DecodePhase::CreateInputIds => {
                        self.phase = DecodePhase::RunDecoder;
                    },
                    _ => {
                        let step: usize = self.step + 1;
                        self.go_to_step(step);
                    },
                }
                Ok(())
            },
            Err(e) => {
                self.phase = DecodePhase::Failed;
                Err(CanaryError::from(e))
            },
        }
    }

    /// Takes the outcome of the run that was due.
    pub fn on_run(&mut self, outcome: Result<(), ort::Error>) -> (r: Result<(), CanaryError>)
        requires
            old(self)@.wf(),
            old(self)@.action() is Run,
        ensures
            final(self)@.wf(),
            match outcome {
                Ok(_) => r is Ok && final(self)@ == old(self)@.after_run(),
                Err(e) => {
                    &&& r is Err
                    &&& r->Err_0@ == ErrorView::OnnxError(error_text(e))
                    &&& final(self)@ == old(self)@.failed()
                },
            },
    {
        match outcome {
            Ok(_) => {
                self.phase = DecodePhase::ReadLogits;
                Ok(())
            },
            Err(e) => {
                self.phase = DecodePhase::Failed;
                Err(CanaryError::from(e))
            },
        }
    }

    /// Whether a tensor has the dimensions of the output that is due: scores
    /// `[batch, seq_len, vocab_size]` with a last time step, or hidden states
    /// `[num_layers, batch, cache_len, ..]` with a cache length.
    pub fn accepts_float(&self, tensor: &FloatTensor) -> (r: bool)
        ensures
            r == self@.accepts_float(tensor@),
            self@.phase == DecodePhase::ReadLogits ==> (r <==> {
                &&& tensor.shape@.len() >= 3
                &&& tensor.shape@[1] as usize >= 1
                &&& (tensor.shape@[1] as usize) * (tensor.shape@[2] as usize) <= tensor.bits@.len()
            }),
            self@.phase == DecodePhase::ReadHiddenStates ==> (r <==> tensor.shape@.len() >= 3),
    {
        if self.phase == DecodePhase::ReadLogits {
            tensor.has_last_step()
        } else {
            tensor.shape.len() >= 3
        }
    }

    /// Takes the outcome of reading the output that was due.
    pub fn on_float(&mut self, outcome: Result<FloatTensor, ort::Error>) -> (r: Result<
        (),
        CanaryError,
    >)
        requires
            old(self)@.wf(),
            old(self)@.action() is ReadFloat,
            outcome matches Ok(tensor) ==> old(self)@.accepts_float(tensor@),
        ensures
            final(self)@.wf(),
            match outcome {
                Ok(tensor) => r is Ok && final(self)@ == old(self)@.after_float(tensor@),
                Err(e) => {
                    &&& r is Err
                    &&& r->Err_0@ == extraction_failure(old(self)@.output_name(), error_text(e))
                    &&& final(self)@ == old(self)@.failed()
                },
            },
    {
        match outcome {
            Ok(tensor) => {
                if self.phase == DecodePhase::ReadLogits {
                    let next_token: i64 = tensor.greedy_token();
                    if next_token == self.eos_id {
                        self.phase = DecodePhase::Finished;
                    } else {
                        self.tokens.push(next_token);
                        self.phase = DecodePhase::ReadHiddenStates;
                    }
                } else {
                    self.mems = tensor;
                    self.phase = DecodePhase::CreateMems;
                }
                Ok(())
            },
            Err(e) => {
                let output = self.output_name();
                self.phase = DecodePhase::Failed;
                Err(extraction_error(output, e))
            },
        }
    }
}

/// The first input of a session that is named `decoder_mems` decides, wherever
/// it stands: a tensor `[l, b, c, h]` with positive `l` and `h` gives `l` and
/// `h`, and each other type its own error.
pub proof fn law_mems_shape_of_session(inputs: Seq<ort::session::Input>, k: int)
    requires
        0 <= k < inputs.len(),
        input_info(inputs[k]).name == "decoder_mems"@,
        forall|j: int| 0 <= j < k ==> input_info(#[trigger] inputs[j]).name != "decoder_mems"@,
    ensures
        match input_info(inputs[k]).kind {
            InputKindView::Tensor(dims) => if dims.len() != 4 {
                mems_shape_of(input_infos(inputs)) matches Err(ErrorView::InferenceError(s)) && s == "Expected 4D decoder_mems, got "@ + decimal(dims.len()) + "D"@
            } else if dims[0] <= 0 || dims[3] <= 0 {
                mems_shape_of(input_infos(inputs)) matches Err(ErrorView::InferenceError(s)) && s == "decoder_mems has dynamic num_layers ("@ + signed_decimal(
                    dims[0] as int,
                ) + ") or hidden_dim ("@ + signed_decimal(dims[3] as int) + "); expected fixed"@
            } else {
                mems_shape_of(input_infos(inputs)) == Ok::<(usize, usize), ErrorView>((dims[0] as usize, dims[3] as usize))
            },
            InputKindView::Other(text) => {
                mems_shape_of(input_infos(inputs)) matches Err(ErrorView::InferenceError(s)) && s == "decoder_mems input is not a tensor: "@ + text
            },
        },
{
    assert(input_infos(inputs)[k] == input_info(inputs[k]));
    law_first_mems_input_decides(input_infos(inputs), k);
}

/// Where no input is named `decoder_mems`, the error says that it is missing.
pub proof fn law_mems_input_missing(inputs: Seq<ort::session::Input>)
    requires
        forall|j: int|
            0 <= j < inputs.len() ==> input_info(#[trigger] inputs[j]).name != "decoder_mems"@,
    ensures
        mems_shape_of(input_infos(inputs)) == Err::<(usize, usize), ErrorView>(
            ErrorView::InferenceError("Decoder model missing 'decoder_mems' input"@),
        ),
{
    assert forall|k: int| !is_mems_position(input_infos(inputs), k) by {
        if 0 <= k < inputs.len() {
            assert(input_infos(inputs)[k] == input_info(inputs[k]));
        }
    }
}

/// Descriptions are taken one by one and in order.
pub proof fn law_descriptions(inputs: Seq<ort::session::Input>, infos: Seq<InputInfo>)
    ensures
        input_infos(inputs).len() == inputs.len(),
        forall|i: int|
            0 <= i < inputs.len() ==> #[trigger] input_infos(inputs)[i] == input_info(inputs[i]),
        infos_view(infos).len() == infos.len(),
        forall|i: int| 0 <= i < infos.len() ==> #[trigger] infos_view(infos)[i] == infos[i]@,
{
}

/// A result keeps its value, and its error keeps its kind and message.
pub proof fn law_result_views<T>(r: Result<T, CanaryError>)
    ensures
        match r {
            Ok(t) => result_view(r) == Ok::<T, ErrorView>(t),
            Err(e) => result_view(r) == Err::<T, ErrorView>(e@),
        },
{
}

} // verus!
