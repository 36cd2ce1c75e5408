//! Loading the models and the vocabulary from a directory.
use crate::error::{CanaryError, ErrorView};
use crate::runtime::error_text;
use vstd::prelude::*;

verus! {

/// The files of a model directory.
#[derive(Debug, Clone, Copy, PartialEq, Eq, Structural)]
pub enum ModelFile {
    /// `nemo128.onnx`
    Preprocessor,
    /// `encoder-model.int8.onnx`
    Encoder,
    /// `decoder-model.int8.onnx`
    Decoder,
    /// `vocab.txt`
    Vocab,
}

impl ModelFile {
    /// What the file is for.
    pub open spec fn role_text(self) -> Seq<char> {
        match self {
            ModelFile::Preprocessor => "preprocessor"@,
            ModelFile::Encoder => "encoder"@,
            ModelFile::Decoder => "decoder"@,
            ModelFile::Vocab => "vocab"@,
        }
    }

    /// The name of the file.
    pub open spec fn file_text(self) -> Seq<char> {
        match self {
            ModelFile::Preprocessor => "nemo128.onnx"@,
            ModelFile::Encoder => "encoder-model.int8.onnx"@,
            ModelFile::Decoder => "decoder-model.int8.onnx"@,
            ModelFile::Vocab => "vocab.txt"@,
        }
    }

    /// What the file is for.
    pub fn role(self) -> (r: &'static str)
        ensures
            r@ == self.role_text(),
            match self {
                ModelFile::Preprocessor => r@ == "preprocessor"@,
                ModelFile::Encoder => r@ == "encoder"@,
                ModelFile::Decoder => r@ == "decoder"@,
                ModelFile::Vocab => r@ == "vocab"@,
            },
    {
        match self {
            ModelFile::Preprocessor => "preprocessor",
            ModelFile::Encoder => "encoder",
            ModelFile::Decoder => "decoder",
            ModelFile::Vocab => "vocab",
        }
    }

    /// The name of the file.
    pub fn file_name(self) -> (r: &'static str)
        ensures
            r@ == self.file_text(),
            match self {
                ModelFile::Preprocessor => r@ == "nemo128.onnx"@,
                ModelFile::Encoder => r@ == "encoder-model.int8.onnx"@,
                ModelFile::Decoder => r@ == "decoder-model.int8.onnx"@,
                ModelFile::Vocab => r@ == "vocab.txt"@,
            },
    {
        match self {
            ModelFile::Preprocessor => "nemo128.onnx",
            ModelFile::Encoder => "encoder-model.int8.onnx",
            ModelFile::Decoder => "decoder-model.int8.onnx",
            ModelFile::Vocab => "vocab.txt",
        }
    }
}

/// The error for a file that is not there, given its path: the vocabulary's is
/// an error of the vocabulary, that of a model an error of ONNX Runtime.
pub open spec fn missing_file(file: ModelFile, path: Seq<char>) -> ErrorView {
    let text = file.role_text() + " file not found: "@ + path;
    if file == ModelFile::Vocab {
        ErrorView::VocabError(text)
    } else {
        ErrorView::OnnxError(text)
    }
}

/// What is to be done next to load the models.
#[derive(Debug, Clone, Copy, PartialEq, Eq, Structural)]
pub enum LoadAction {
    /// See whether a file exists.
    Probe(ModelFile),
    /// Open a session on a model file.
    Open(ModelFile),
    /// Read the vocabulary.
    ReadVocab,
    /// Everything is there.
    Done,
    /// An action failed; nothing more is done.
    Stopped,
}

/// The actions of a load, in order: every file is probed before any is opened.
pub open spec fn load_plan() -> Seq<LoadAction> {
    seq![
        LoadAction::Probe(ModelFile::Preprocessor),
        LoadAction::Probe(ModelFile::Encoder),
        LoadAction::Probe(ModelFile::Decoder),
        LoadAction::Probe(ModelFile::Vocab),
        LoadAction::Open(ModelFile::Preprocessor),
        LoadAction::Open(ModelFile::Encoder),
        LoadAction::Open(ModelFile::Decoder),
        LoadAction::ReadVocab,
        LoadAction::Done,
    ]
}

/// The sessions and the vocabulary of an engine.
pub struct LoadedModels<S, V> {
    pub preprocessor: S,
    pub encoder: S,
    pub decoder: S,
    pub vocab: V,
}

/// The state of a load: how many actions are done, what they brought, and
/// whether one of them failed.
pub struct LoaderView<S, V> {
    pub done: usize,
    pub failed: bool,
    pub preprocessor: Option<S>,
    pub encoder: Option<S>,
    pub decoder: Option<S>,
    pub vocab: Option<V>,
}

impl<S, V> LoaderView<S, V> {
    /// A load that has not begun.
    pub open spec fn start() -> LoaderView<S, V> {
        LoaderView {
            done: 0,
            failed: false,
            preprocessor: None,
            encoder: None,
            decoder: None,
            vocab: None,
        }
    }

    /// What holds of a load at every point: exactly what was opened is there.
    pub open spec fn wf(self) -> bool {
        &&& self.done < load_plan().len()
        &&& self.preprocessor is Some <==> self.done > 4
        &&& self.encoder is Some <==> self.done > 5
        &&& self.decoder is Some <==> self.done > 6
        &&& self.vocab is Some <==> self.done > 7
    }

    /// The action that is due.
    pub open spec fn action(self) -> LoadAction {
        if self.failed {
            LoadAction::Stopped
        } else {
            load_plan()[self.done as int]
        }
    }

    /// The load after an action failed: nothing more is done.
    pub open spec fn failed(self) -> LoaderView<S, V> {
        LoaderView { failed: true, ..self }
    }

    /// The load after a file was found.
    pub open spec fn after_found(self) -> LoaderView<S, V> {
        LoaderView { done: (self.done + 1) as usize, ..self }
    }

    /// The load after a session was opened.
    pub open spec fn after_session(self, session: S) -> LoaderView<S, V> {
        match self.action() {
            LoadAction::Open(ModelFile::Preprocessor) => LoaderView {
                done: (self.done + 1) as usize,
                preprocessor: Some(session),
                ..self
            },
            LoadAction::Open(ModelFile::Encoder) => LoaderView {
                done: (self.done + 1) as usize,
                encoder: Some(session),
                ..self
            },
            _ => LoaderView {
                done: (self.done + 1) as usize,
                decoder: Some(session),
                ..self
            },
        }
    }

    /// The load after the vocabulary was read.
    pub open spec fn after_vocab(self, vocab: V) -> LoaderView<S, V> {
        LoaderView { done: (self.done + 1) as usize, vocab: Some(vocab), ..self }
    }
}

/// A load of the three ONNX models and the vocabulary.
pub struct ModelLoader<S, V> {
    done: usize,
    failed: bool,
    preprocessor: Option<S>,
    encoder: Option<S>,
    decoder: Option<S>,
    vocab: Option<V>,
}

impl<S, V> ModelLoader<S, V> {
    /// The state of the load.
    pub closed spec fn view(&self) -> LoaderView<S, V> {
        LoaderView {
            done: self.done,
            failed: self.failed,
            preprocessor: self.preprocessor,
            encoder: self.encoder,
            decoder: self.decoder,
            vocab: self.vocab,
        }
    }

    /// A load that has not begun.
    pub fn new() -> (r: Self)
        ensures
            r@.wf(),
            r@ == LoaderView::<S, V>::start(),
    {
        ModelLoader {
            done: 0,
            failed: false,
            preprocessor: None,
            encoder: None,
            decoder: None,
            vocab: None,
        }
    }

    /// The action that is due.
    pub fn action(&self) -> (r: LoadAction)
        requires
            self@.wf(),
        ensures
            r == self@.action(),
    {
        if self.failed {
            return LoadAction::Stopped;
        }
        match self.done {
            0 => LoadAction::Probe(ModelFile::Preprocessor),
            1 => LoadAction::Probe(ModelFile::Encoder),
            2 => LoadAction::Probe(ModelFile::Decoder),
            3 => LoadAction::Probe(ModelFile::Vocab),
            4 => LoadAction::Open(ModelFile::Preprocessor),
            5 => LoadAction::Open(ModelFile::Encoder),
            6 => LoadAction::Open(ModelFile::Decoder),
            7 => LoadAction::ReadVocab,
            _ => LoadAction::Done,
        }
    }

    /// Takes whether the file that was due exists, with its path for the error.
    pub fn on_probe(&mut self, exists: bool, path: &str) -> (r: Result<(), CanaryError>)
        requires
            old(self)@.wf(),
            old(self)@.action() is Probe,
        ensures
            final(self)@.wf(),
            exists ==> r is Ok && final(self)@ == old(self)@.after_found(),
            !exists ==> {
                &&& r is Err
                &&& r->Err_0@ == missing_file(old(self)@.action()->Probe_0, path@)
                &&& final(self)@ == old(self)@.failed()
                &&& match old(self)@.action()->Probe_0 {
                    ModelFile::Preprocessor => r matches Err(CanaryError::OnnxError(s)) && s@
                        == "preprocessor"@ + " file not found: "@ + path@,
                    ModelFile::Encoder => r matches Err(CanaryError::OnnxError(s)) && s@
                        == "encoder"@ + " file not found: "@ + path@,
                    ModelFile::Decoder => r matches Err(CanaryError::OnnxError(s)) && s@
                        == "decoder"@ + " file not found: "@ + path@,
                    ModelFile::Vocab => r matches Err(CanaryError::VocabError(s)) && s@
                        == "vocab"@ + " file not found: "@ + path@,
                }
            },
    {
        if exists {
            self.done = self.done + 1;
            return Ok(());
        }
        let file = match self.action() {
            LoadAction::Probe(file) => file,
            _ => vstd::pervasive::unreached(),
        };
        self.failed = true;
        let text = file.role().to_string().concat(" file not found: ").concat(path);
        if file == ModelFile::Vocab {
            Err(CanaryError::VocabError(text))
        } else {
            Err(CanaryError::OnnxError(text))
        }
    }

    /// Takes the outcome of opening the session that was due.
    pub fn on_session(&mut self, outcome: Result<S, ort::Error>) -> (r: Result<(), CanaryError>)
        requires
            old(self)@.wf(),
            old(self)@.action() is Open,
        ensures
            final(self)@.wf(),
            match outcome {
                Ok(session) => r is Ok && final(self)@ == old(self)@.after_session(session),
                Err(e) => {
                    &&& r is Err
                    &&& r->Err_0@ == ErrorView::OnnxError(error_text(e))
                    &&& final(self)@ == old(self)@.failed()
                },
            },
    {
        match outcome {
            Ok(session) => {
                match self.done {
                    4 => {
                        self.preprocessor = Some(session);
                    },
                    5 => {
                        self.encoder = Some(session);
                    },
                    _ => {
                        self.decoder = Some(session);
                    },
                }
                self.done = self.done + 1;
                Ok(())
            },
            Err(e) => {
                self.failed = true;
                Err(CanaryError::from(e))
            },
        }
    }

    /// Takes the outcome of reading the vocabulary.
    pub fn on_vocab(&mut self, outcome: Result<V, CanaryError>) -> (r: Result<(), CanaryError>)
        requires
            old(self)@.wf(),
            old(self)@.action() is ReadVocab,
        ensures
            final(self)@.wf(),
            match outcome {
                Ok(vocab) => r is Ok && final(self)@ == old(self)@.after_vocab(vocab),
                Err(e) => {
                    &&& r == Err::<(), CanaryError>(e)
                    &&& final(self)@ == old(self)@.failed()
                },
            },
    {
        match outcome {
            Ok(vocab) => {
                self.vocab = Some(vocab);
                self.done = self.done + 1;
                Ok(())
            },
            Err(e) => {
                self.failed = true;
                Err(e)
            },
        }
    }

    /// Hands over what was loaded, once everything is there.
    pub fn into_models(self) -> (r: LoadedModels<S, V>)
        requires
            self@.wf(),
            self@.action() is Done,
        ensures
            self@.preprocessor == Some(r.preprocessor),
            self@.encoder == Some(r.encoder),
            self@.decoder == Some(r.decoder),
            self@.vocab == Some(r.vocab),
    {
        LoadedModels {
            preprocessor: self.preprocessor.unwrap(),
            encoder: self.encoder.unwrap(),
            decoder: self.decoder.unwrap(),
            vocab: self.vocab.unwrap(),
        }
    }
}

/// After a failure nothing is due: no file is probed or opened, and there is
/// nothing to hand over.
pub proof fn law_failed_load_stops<S, V>(load: LoaderView<S, V>)
    ensures
        load.failed().action() == LoadAction::Stopped,
{
}

/// The models that a load brings, given the outcomes of its actions in order:
/// each session and the vocabulary end up in their own place.
pub proof fn law_load_places_models<S, V>(preprocessor: S, encoder: S, decoder: S, vocab: V)
    ensures
        ({
            let probed = LoaderView::<
                S,
                V,
            >::start().after_found().after_found().after_found().after_found();
            let end = probed.after_session(preprocessor).after_session(encoder).after_session(
                decoder,
            ).after_vocab(vocab);
            &&& probed.action() == LoadAction::Open(ModelFile::Preprocessor)
            &&& end.action() == LoadAction::Done
            &&& end.preprocessor == Some(preprocessor)
            &&& end.encoder == Some(encoder)
            &&& end.decoder == Some(decoder)
            &&& end.vocab == Some(vocab)
        }),
{
}

/// While any file has not been probed, nothing has been opened.
pub proof fn law_all_files_probed_before_opening<S, V>(load: LoaderView<S, V>)
    requires
        load.wf(),
        load.action() is Probe,
    ensures
        load.preprocessor is None,
        load.encoder is None,
        load.decoder is None,
        load.vocab is None,
{
}

/// The four files and what they are for, and the error for each of them at any
/// path.
pub proof fn law_model_files(path: Seq<char>)
    ensures
        ModelFile::Preprocessor.role_text() == "preprocessor"@,
        ModelFile::Encoder.role_text() == "encoder"@,
        ModelFile::Decoder.role_text() == "decoder"@,
        ModelFile::Vocab.role_text() == "vocab"@,
        ModelFile::Preprocessor.file_text() == "nemo128.onnx"@,
        ModelFile::Encoder.file_text() == "encoder-model.int8.onnx"@,
        ModelFile::Decoder.file_text() == "decoder-model.int8.onnx"@,
        ModelFile::Vocab.file_text() == "vocab.txt"@,
        missing_file(ModelFile::Preprocessor, path) == ErrorView::OnnxError(
            "preprocessor"@ + " file not found: "@ + path,
        ),
        missing_file(ModelFile::Encoder, path) == ErrorView::OnnxError(
            "encoder"@ + " file not found: "@ + path,
        ),
        missing_file(ModelFile::Decoder, path) == ErrorView::OnnxError(
            "decoder"@ + " file not found: "@ + path,
        ),
        missing_file(ModelFile::Vocab, path) == ErrorView::VocabError(
            "vocab"@ + " file not found: "@ + path,
        ),
{
}

/// What is due after any number of completed actions: the four files are
/// probed, the three models opened and the vocabulary read, in this order.
pub proof fn law_load_order<S, V>(load: LoaderView<S, V>)
    requires
        !load.failed,
        load.done <= 8,
    ensures
        match load.done {
            0 => load.action() == LoadAction::Probe(ModelFile::Preprocessor),
            1 => load.action() == LoadAction::Probe(ModelFile::Encoder),
            2 => load.action() == LoadAction::Probe(ModelFile::Decoder),
            3 => load.action() == LoadAction::Probe(ModelFile::Vocab),
            4 => load.action() == LoadAction::Open(ModelFile::Preprocessor),
            5 => load.action() == LoadAction::Open(ModelFile::Encoder),
            6 => load.action() == LoadAction::Open(ModelFile::Decoder),
            7 => load.action() == LoadAction::ReadVocab,
            _ => load.action() == LoadAction::Done,
        },
{
}

/// A load begins with nothing, and each completed action adds one to the count
/// and brings the one part that it is for; a failure brings and drops nothing.
pub proof fn law_load_steps<S, V>(load: LoaderView<S, V>, session: S, vocab: V)
    requires
        load.done < 8,
        !load.failed,
    ensures
        LoaderView::<S, V>::start() == (LoaderView::<S, V> {
            done: 0,
            failed: false,
            preprocessor: None,
            encoder: None,
            decoder: None,
            vocab: None,
        }),
        load.failed() == (LoaderView { failed: true, ..load }),
        load.after_found().done == load.done + 1,
        load.after_found() == (LoaderView { done: load.after_found().done, ..load }),
        load.after_session(session).done == load.done + 1,
        load.done == 4 ==> load.after_session(session) == (LoaderView {
            done: 5,
            preprocessor: Some(session),
            ..load
        }),
        load.done == 5 ==> load.after_session(session) == (LoaderView {
            done: 6,
            encoder: Some(session),
            ..load
        }),
        load.done == 6 ==> load.after_session(session) == (LoaderView {
            done: 7,
            decoder: Some(session),
            ..load
        }),
        load.after_vocab(vocab).done == load.done + 1,
        load.after_vocab(vocab) == (LoaderView {
            done: load.after_vocab(vocab).done,
            vocab: Some(vocab),
            ..load
        }),
{
}

} // verus!
