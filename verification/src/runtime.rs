//! What this crate takes from ONNX Runtime (the `ort` crate): its error type
//! and the description of a session's inputs.  The items here that are marked
//! `external_body` are trusted.
use vstd::prelude::*;

verus! {

/// `ort::Error`, the error of every `ort` call.
#[verifier::external_type_specification]
#[verifier::external_body]
pub struct ExError(ort::Error);

/// `ort::session::Session`, a loaded ONNX model.
#[verifier::external_type_specification]
#[verifier::external_body]
pub struct ExSession(ort::session::Session);

/// `ort::session::Input`, the name and type of one input of a session.
#[verifier::external_type_specification]
#[verifier::external_body]
pub struct ExInput(ort::session::Input);

/// The message that an `ort::Error` carries.
pub uninterp spec fn error_text(e: ort::Error) -> Seq<char>;

/// The inputs of a session, in the order of the model.
pub uninterp spec fn session_input_list(session: ort::session::Session) -> Seq<ort::session::Input>;

/// What an `ort::session::Input` says of the input.
pub uninterp spec fn input_info(input: ort::session::Input) -> InputInfoView;

/// The type of a session input.
pub enum InputKind {
    /// A tensor, with its dimensions; a dynamic dimension is `-1`.
    Tensor(Vec<i64>),
    /// Anything else, with its debug text.
    Other(String),
}

/// The name and the type of a session input.
pub struct InputInfo {
    pub name: String,
    pub kind: InputKind,
}

/// An [`InputKind`] over sequences.
pub enum InputKindView {
    Tensor(Seq<i64>),
    Other(Seq<char>),
}

/// An [`InputInfo`] over sequences.
pub struct InputInfoView {
    pub name: Seq<char>,
    pub kind: InputKindView,
}

impl View for InputKind {
    type V = InputKindView;

    open spec fn view(&self) -> InputKindView {
        match self {
            InputKind::Tensor(dims) => InputKindView::Tensor(dims@),
            InputKind::Other(text) => InputKindView::Other(text@),
        }
    }
}

impl View for InputInfo {
    type V = InputInfoView;

    open spec fn view(&self) -> InputInfoView {
        InputInfoView { name: self.name@, kind: self.kind@ }
    }
}

/// Calls `to_string` on an `ort::Error`: its `Display` writes the message that
/// the error was made with, and nothing else.  That message is
/// [`error_text`].
#[verifier::external_body]
pub(crate) fn error_message(e: &ort::Error) -> (r: String)
    ensures
        r@ == error_text(*e),
{
    e.to_string()
}

/// Reads the public field `inputs` of an `ort::session::Session`, which
/// [`session_input_list`] names.
#[verifier::external_body]
pub(crate) fn session_inputs(session: &ort::session::Session) -> (r: &Vec<ort::session::Input>)
    ensures
        r@ == session_input_list(*session),
{
    &session.inputs
}

/// Reads the public fields `name` and `input_type` of an
/// `ort::session::Input`: the dimensions where the type is a tensor, else the
/// debug text of the type.  [`input_info`] names what they hold.
#[verifier::external_body]
pub(crate) fn describe_input(input: &ort::session::Input) -> (r: InputInfo)
    ensures
        r@ == input_info(*input),
{
    let kind = match &input.input_type {
        ort::value::ValueType::Tensor { shape, .. } => InputKind::Tensor(shape.to_vec()),
        other => InputKind::Other(format!("{:?}", other)),
    };
    InputInfo { name: input.name.clone(), kind }
}

/// Describes each input of a list, in order.
pub fn describe_inputs(inputs: &Vec<ort::session::Input>) -> (r: Vec<InputInfo>)
    ensures
        r@.len() == inputs@.len(),
        forall|i: int| 0 <= i < r@.len() ==> (#[trigger] r@[i])@ == input_info(inputs@[i]),
{
    let mut r: Vec<InputInfo> = Vec::new();
    let mut i: usize = 0;
    while i < inputs.len()
        invariant
            i <= inputs@.len(),
            r@.len() == i,
            forall|j: int| 0 <= j < i ==> (#[trigger] r@[j])@ == input_info(inputs@[j]),
        decreases inputs@.len() - i,
    {
        r.push(describe_input(&inputs[i]));
        i += 1;
    }
    r
}

/// The view of an input description has its name and its type.
pub proof fn law_input_views(name: String, dims: Vec<i64>, text: String)
    ensures
        (InputInfo { name, kind: InputKind::Tensor(dims) })@ == (InputInfoView {
            name: name@,
            kind: InputKindView::Tensor(dims@),
        }),
        (InputInfo { name, kind: InputKind::Other(text) })@ == (InputInfoView {
            name: name@,
            kind: InputKindView::Other(text@),
        }),
{
}

} // verus!
