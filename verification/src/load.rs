//! Loading one file of a dapp, as a machine: from its state and the outcome
//! of the last piece of outside work (loading the stream, its model, the
//! index file and its content, or the index file of a content) it gives its
//! next state and the next piece of work.

use vstd::prelude::*;
use vstd::string::*;
use crate::errors::AppError;
use crate::files::{check_model_dapp, load_file_route, naked_file_desc, FileModel, FileRoute};

verus! {

/// The file asked for: its stream and the dapp that asks.
pub struct FileRequest {
    pub stream_id: String,
    pub dapp_id: u128,
}

/// How the answer is made from the stream's state.
#[derive(Debug, Clone, Copy, PartialEq, Eq, Structural)]
pub enum FileShape {
    /// As a file (its state holds the file itself).
    WithFile,
    /// As a content (its state holds the content).
    WithContent,
}

/// Where a load stands.
pub enum LoadState {
    Start(FileRequest),
    /// The stream's state is being loaded.
    AwaitStream(FileRequest),
    /// The stream's model is being loaded.
    AwaitModel(FileRequest, String),
    /// The stream's state is being read as an index file.
    AwaitIndexFile,
    /// The content that the index file names is being loaded.
    AwaitContent,
    /// The content is being made a file and the dapp's index file model is
    /// being looked up.
    AwaitIndexModel(FileRequest),
    /// The index file that names the content is being looked for.
    AwaitIndexLookup,
    Done,
    Failed,
}

/// The outcome of the piece of outside work that was asked for.
pub enum LoadInput {
    Begin,
    /// The stream's state names this model.
    Stream(String),
    /// The model belongs to this dapp and reads as this file model, if any.
    Model(u128, Option<FileModel>),
    /// The index file was read; whether the content id it names is a stream
    /// id.
    IndexFileRead(bool),
    /// The content was written into the file.
    ContentWritten,
    /// The dapp's index file model has this id.
    IndexModel(String),
    /// The index file of the content was found, or could not be loaded for
    /// this reason.
    IndexLookup(Result<(), String>),
}

/// The next piece of outside work.
pub enum LoadAction {
    /// Load the stream's state.
    LoadStream,
    /// Load this model.
    LoadModel(String),
    /// Read the stream's state as an index file, and make it a file.
    ReadIndexFile,
    /// Load the content that the index file names and write it in.
    LoadContent,
    /// Make the content a file and look up the dapp's index file model.
    ReadContent,
    /// Look for the index file (of this model) that names this content.
    LoadIndexFile(String, String),
    /// Answer with the stream's state made a file of this shape.
    Answer(FileShape),
    /// Answer with the file made so far.
    Finish,
    /// Write the index file found into the file, and answer with it.
    WriteIndexFile,
    /// Mark the file as naked with this description, and answer with it.
    MarkNaked(String),
    /// Answer with this error.
    Fail(AppError),
}

/// One step of a load: from `state`, on `input`, to `next`, asking for
/// `action`.
pub open spec fn load_transition(
    state: LoadState,
    input: LoadInput,
    next: LoadState,
    action: LoadAction,
) -> bool {
    match (state, input) {
        (LoadState::Start(r), LoadInput::Begin) => next == LoadState::AwaitStream(r) && action is LoadStream,
        (LoadState::AwaitStream(r), LoadInput::Stream(m)) => next == LoadState::AwaitModel(r, m)
            && action == LoadAction::LoadModel(m),
        (LoadState::AwaitModel(r, m), LoadInput::Model(dapp, model)) => if dapp != r.dapp_id {
            next is Failed && (action matches LoadAction::Fail(
                AppError::StreamWithModelNotInDapp(s, mi, d),
            ) && s@ == r.stream_id@ && mi@ == m@ && d == r.dapp_id)
        } else {
            match model {
                Some(FileModel::IndexFile) => next is AwaitIndexFile && action is ReadIndexFile,
                Some(FileModel::ActionFile) => next is Done && action == LoadAction::Answer(
                    FileShape::WithFile,
                ),
                Some(FileModel::IndexFolder) => next is Done && action == LoadAction::Answer(
                    FileShape::WithContent,
                ),
                Some(FileModel::ContentFolder) => next is Done && action == LoadAction::Answer(
                    FileShape::WithContent,
                ),
                None => next == LoadState::AwaitIndexModel(r) && action is ReadContent,
            }
        },
        (LoadState::AwaitIndexFile, LoadInput::IndexFileRead(valid)) => if valid {
            next is AwaitContent && action is LoadContent
        } else {
            next is Done && action is Finish
        },
        (LoadState::AwaitContent, LoadInput::ContentWritten) => next is Done && action is Finish,
        (LoadState::AwaitIndexModel(r), LoadInput::IndexModel(id)) => next is AwaitIndexLookup
            && (action matches LoadAction::LoadIndexFile(i, c) && i == id && c@ == r.stream_id@),
        (LoadState::AwaitIndexLookup, LoadInput::IndexLookup(found)) => next is Done && match found {
            Ok(_) => action is WriteIndexFile,
            Err(e) => action matches LoadAction::MarkNaked(d) && d@
                == "failed load index file model: "@ + e@,
        },
        _ => next is Failed && (action matches LoadAction::Fail(e) && e is Any),
    }
}

impl LoadState {
    /// Starts the load of a file.
    pub fn new(request: FileRequest) -> (res: LoadState)
        ensures
            res == LoadState::Start(request),
    {
        LoadState::Start(request)
    }

    /// One step of the load: a stream whose model belongs to another dapp is
    /// refused; an index file is answered with the content it names when that
    /// is a stream id; an action file is answered as a file and a folder as a
    /// content; a content of a model of the dapp's own is answered with its
    /// index file, or, where that cannot be loaded, marked as naked. An input
    /// that does not answer the work asked for fails the load.
    pub fn step(self, input: LoadInput) -> (res: (LoadState, LoadAction))
        ensures
            load_transition(self, input, res.0, res.1),
    {
        match (self, input) {
            (LoadState::Start(r), LoadInput::Begin) => (LoadState::AwaitStream(r), LoadAction::LoadStream),
            (LoadState::AwaitStream(r), LoadInput::Stream(m)) => {
                let asked = m.clone();
                (LoadState::AwaitModel(r, m), LoadAction::LoadModel(asked))
            },
            (LoadState::AwaitModel(r, m), LoadInput::Model(dapp, model)) => {
                match check_model_dapp(&r.stream_id, &m, dapp, r.dapp_id) {
                    Err(e) => (LoadState::Failed, LoadAction::Fail(e)),
                    Ok(()) => match load_file_route(model) {
                        FileRoute::IndexFile => (LoadState::AwaitIndexFile, LoadAction::ReadIndexFile),
                        FileRoute::ActionFile => (
                            LoadState::Done,
                            LoadAction::Answer(FileShape::WithFile),
                        ),
                        FileRoute::Folder => (LoadState::Done, LoadAction::Answer(FileShape::WithContent)),
                        FileRoute::Content => (LoadState::AwaitIndexModel(r), LoadAction::ReadContent),
                    },
                }
            },
            (LoadState::AwaitIndexFile, LoadInput::IndexFileRead(valid)) => {
                if valid {
                    (LoadState::AwaitContent, LoadAction::LoadContent)
                } else {
                    (LoadState::Done, LoadAction::Finish)
                }
            },
            (LoadState::AwaitContent, LoadInput::ContentWritten) => (LoadState::Done, LoadAction::Finish),
            (LoadState::AwaitIndexModel(r), LoadInput::IndexModel(id)) => (
                LoadState::AwaitIndexLookup,
                LoadAction::LoadIndexFile(id, r.stream_id),
            ),
            (LoadState::AwaitIndexLookup, LoadInput::IndexLookup(found)) => match found {
                Ok(()) => (LoadState::Done, LoadAction::WriteIndexFile),
                Err(e) => (LoadState::Done, LoadAction::MarkNaked(naked_file_desc(e.as_str()))),
            },
            (_, _) => (
                LoadState::Failed,
                LoadAction::Fail(AppError::Any(String::from_str("unexpected step of a file load"))),
            ),
        }
    }
}

/// A stream whose model belongs to another dapp is refused as soon as the
/// model is known, and nothing more is read.
pub proof fn lemma_foreign_model_refused(
    r: FileRequest,
    model_id: String,
    dapp: u128,
    model: Option<FileModel>,
    next: LoadState,
    action: LoadAction,
)
    requires
        dapp != r.dapp_id,
        load_transition(LoadState::AwaitModel(r, model_id), LoadInput::Model(dapp, model), next, action),
    ensures
        next is Failed,
        action matches LoadAction::Fail(e) && e is StreamWithModelNotInDapp,
{
}

/// A content whose index file cannot be loaded is still answered, marked as
/// naked with the reason in its description.
pub proof fn lemma_missing_index_file_marks_naked(
    reason: String,
    next: LoadState,
    action: LoadAction,
)
    requires
        load_transition(LoadState::AwaitIndexLookup, LoadInput::IndexLookup(Err(reason)), next, action),
    ensures
        next is Done,
        action matches LoadAction::MarkNaked(d) && d@ == "failed load index file model: "@ + reason@,
{
}

/// Whether an action only reads: the stream, its model, the content an index
/// file names, the dapp's index file model or an index file, or the state
/// already loaded.
pub open spec fn load_reads(a: LoadAction) -> bool {
    ||| a is LoadStream
    ||| a is LoadModel
    ||| a is ReadIndexFile
    ||| a is LoadContent
    ||| a is ReadContent
    ||| a is LoadIndexFile
}

/// Whether an action answers the request: with a file made from what was
/// read, or with an error.
pub open spec fn load_answers(a: LoadAction) -> bool {
    ||| a is Answer
    ||| a is Finish
    ||| a is WriteIndexFile
    ||| a is MarkNaked
    ||| a is Fail
}

/// A run of a load: `states[0]` is where it started, and each input takes
/// `states[i]` to `states[i + 1]`, asking for `actions[i]`.
pub open spec fn load_run(
    states: Seq<LoadState>,
    inputs: Seq<LoadInput>,
    actions: Seq<LoadAction>,
) -> bool {
    &&& states.len() == inputs.len() + 1
    &&& actions.len() == inputs.len()
    &&& forall|i: int|
        0 <= i < inputs.len() ==> load_transition(
            states[i],
            #[trigger] inputs[i],
            states[i + 1],
            actions[i],
        )
}

/// Loading a file never writes: every piece of work that a run of a load
/// asks for reads, or answers the request, and after an answer the load is
/// over (done or failed).
pub proof fn lemma_load_never_writes(
    states: Seq<LoadState>,
    inputs: Seq<LoadInput>,
    actions: Seq<LoadAction>,
)
    requires
        load_run(states, inputs, actions),
    ensures
        forall|i: int|
            0 <= i < actions.len() ==> load_reads(#[trigger] actions[i]) || load_answers(actions[i]),
        forall|i: int|
            0 <= i < actions.len() && load_answers(#[trigger] actions[i]) ==> (states[i + 1] is Done
                || states[i + 1] is Failed),
{
    assert forall|i: int| 0 <= i < actions.len() && load_answers(#[trigger] actions[i]) implies (
    states[i + 1] is Done || states[i + 1] is Failed) by {
        assert(load_transition(states[i], inputs[i], states[i + 1], actions[i]));
    }
}

} // verus!
