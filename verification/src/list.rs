//! Listing the files of a model, as a machine: from its state and the outcome
//! of the last piece of outside work (loading the model and its streams,
//! reading index files and their contents, reading folders, loading the
//! index files of contents) it gives its next state and the next piece of
//! work.

use vstd::prelude::*;
use vstd::string::*;
use crate::errors::AppError;
use crate::files::{
    broken_content_desc, file_model_named, folder_verdict, link_content_files, links_are_exact,
    opt_views, verdict_is, FileLink, FileModel, FolderParse, FolderVerdict,
};
use crate::load::FileShape;
use crate::text::views;

verus! {

/// Where a listing stands. Index files are read one after another: the
/// first number is how many streams the model has, the second the one at
/// hand.
pub enum ListState {
    /// Nothing has been done; the signals that folders must carry.
    Start(Vec<String>),
    /// The model and its streams are being loaded.
    AwaitModel(Vec<String>),
    /// An index file is being read.
    AwaitIndexFile(usize, usize),
    /// The content that an index file names is being loaded and written in.
    AwaitContent(usize, usize),
    /// An index file is being marked as holding broken content.
    AwaitMark(usize, usize),
    /// The model's streams are being read as folders.
    AwaitFolders(Vec<String>),
    /// The dapp's index files are being loaded for the model's contents.
    AwaitLinks,
    Done,
    Failed,
}

/// The outcome of the piece of outside work that was asked for.
pub enum ListInput {
    Begin,
    /// The model has this name and this many streams.
    Model(String, usize),
    /// The index file was read; whether the content id it names is a stream
    /// id.
    IndexFileRead(bool),
    /// The content was written into the index file, or could not be, for
    /// this reason.
    ContentWritten(Result<(), String>),
    /// The mark was made.
    Applied,
    /// Each stream read as a folder (`None` where it could not be made a
    /// file).
    Folders(Vec<Option<FolderParse>>),
    /// The content ids of the model's streams, and the content id that each
    /// of the dapp's index files names (`None` where it is no index file).
    Links(Vec<String>, Vec<Option<String>>),
}

/// The next piece of outside work.
pub enum ListAction {
    /// Load the model and its streams.
    LoadModel,
    /// Read this stream as an index file, make it a file and set its content
    /// id.
    ReadIndexFile(usize),
    /// Load the content that this index file names and write it in.
    LoadContent(usize),
    /// Mark this index file as holding broken content, with this
    /// description.
    MarkBroken(usize, String),
    /// Answer with every stream made a file of this shape.
    AnswerAll(FileShape),
    /// Read each of the model's streams as a folder.
    ReadFolders,
    /// Answer with the folders: left out where `None` or dropped, kept where
    /// kept, kept and marked broken where broken.
    SelectFolders(Vec<Option<FolderVerdict>>),
    /// Load the dapp's index files and the content ids of the model's
    /// streams.
    LoadIndexFiles,
    /// Answer with the contents, completed by these links.
    Link(Vec<FileLink>),
    /// Answer with the index files read so far.
    Finish,
    /// Answer with this error.
    Fail(AppError),
}

/// After index file `at` of `count`: the next one, or the answer.
pub open spec fn next_index_file(count: usize, at: int, next: ListState, action: ListAction) -> bool {
    if at + 1 >= count {
        next is Done && action is Finish
    } else {
        next == ListState::AwaitIndexFile(count, (at + 1) as usize) && action
            == ListAction::ReadIndexFile((at + 1) as usize)
    }
}

/// The verdicts on a model's folders.
pub open spec fn verdicts_are(
    required: Seq<Seq<char>>,
    parses: Seq<Option<FolderParse>>,
    verdicts: Seq<Option<FolderVerdict>>,
) -> bool {
    &&& verdicts.len() == parses.len()
    &&& forall|i: int|
        0 <= i < parses.len() ==> match #[trigger] parses[i] {
            None => verdicts[i] is None,
            Some(p) => verdicts[i] matches Some(v) && verdict_is(required, p, v),
        }
}

/// One step of a listing: from `state`, on `input`, to `next`, asking for
/// `action`.
pub open spec fn list_transition(
    state: ListState,
    input: ListInput,
    next: ListState,
    action: ListAction,
) -> bool {
    match (state, input) {
        (ListState::Start(req), ListInput::Begin) => next == ListState::AwaitModel(req) && action is LoadModel,
        (ListState::AwaitModel(req), ListInput::Model(name, count)) => match file_model_named(name@) {
            Some(FileModel::IndexFile) => next_index_file(count, -1, next, action),
            Some(FileModel::ActionFile) => next is Done && action == ListAction::AnswerAll(
                FileShape::WithFile,
            ),
            Some(FileModel::ContentFolder) => next is Done && action == ListAction::AnswerAll(
                FileShape::WithContent,
            ),
            Some(FileModel::IndexFolder) => next == ListState::AwaitFolders(req) && action is ReadFolders,
            None => next is AwaitLinks && action is LoadIndexFiles,
        },
        (ListState::AwaitIndexFile(count, at), ListInput::IndexFileRead(valid)) => if valid {
            next == ListState::AwaitContent(count, at) && action == ListAction::LoadContent(at)
        } else {
            next_index_file(count, at as int, next, action)
        },
        (ListState::AwaitContent(count, at), ListInput::ContentWritten(written)) => match written {
            Ok(_) => next_index_file(count, at as int, next, action),
            Err(e) => next == ListState::AwaitMark(count, at) && (action matches ListAction::MarkBroken(
                i,
                d,
            ) && i == at && d@ == "failed load content file model "@ + e@),
        },
        (ListState::AwaitMark(count, at), ListInput::Applied) => next_index_file(
            count,
            at as int,
            next,
            action,
        ),
        (ListState::AwaitFolders(req), ListInput::Folders(parses)) => next is Done && (
        action matches ListAction::SelectFolders(v) && verdicts_are(views(req@), parses@, v@)),
        (ListState::AwaitLinks, ListInput::Links(ids, nodes)) => next is Done && (
        action matches ListAction::Link(links) && links_are_exact(
            links@,
            views(ids@),
            opt_views(nodes@),
        )),
        _ => next is Failed && (action matches ListAction::Fail(e) && e is Any),
    }
}

/// The step after index file `at` of `count`.
fn after_index_file(count: usize, at: usize) -> (res: (ListState, ListAction))
    ensures
        next_index_file(count, at as int, res.0, res.1),
{
    if count == 0 || at >= count - 1 {
        (ListState::Done, ListAction::Finish)
    } else {
        (ListState::AwaitIndexFile(count, at + 1), ListAction::ReadIndexFile(at + 1))
    }
}

/// The verdicts on a model's folders.
fn select_folders(required: &Vec<String>, parses: &Vec<Option<FolderParse>>) -> (res: Vec<
    Option<FolderVerdict>,
>)
    ensures
        verdicts_are(views(required@), parses@, res@),
{
    let mut res: Vec<Option<FolderVerdict>> = Vec::new();
    let mut i: usize = 0;
    while i < parses.len()
        invariant
            i <= parses@.len(),
            res@.len() == i,
            forall|k: int|
                0 <= k < i ==> match #[trigger] parses@[k] {
                    None => res@[k] is None,
                    Some(p) => res@[k] matches Some(v) && verdict_is(views(required@), p, v),
                },
        decreases parses@.len() - i,
    {
        let v = match &parses[i] {
            None => None,
            Some(p) => Some(folder_verdict(required, p)),
        };
        res.push(v);
        i = i + 1;
    }
    res
}

impl ListState {
    /// Starts a listing for a request whose options require `required`
    /// signals of folders.
    pub fn new(required: Vec<String>) -> (res: ListState)
        ensures
            res == ListState::Start(required),
    {
        ListState::Start(required)
    }

    /// One step of a listing, by the name of the model: index files are read
    /// one after another, each with the content it names when that is a
    /// stream id, and one whose content cannot be written is listed marked as
    /// broken; action files are listed as files and content folders as
    /// contents; folders are selected by the signals they carry; the contents
    /// of any other model are completed by the dapp's index files. An input
    /// that does not answer the work asked for fails the listing.
    pub fn step(self, input: ListInput) -> (res: (ListState, ListAction))
        ensures
            list_transition(self, input, res.0, res.1),
    {
        match (self, input) {
            (ListState::Start(req), ListInput::Begin) => (ListState::AwaitModel(req), ListAction::LoadModel),
            (ListState::AwaitModel(req), ListInput::Model(name, count)) => {
                match FileModel::from_name(name.as_str()) {
                    Some(FileModel::IndexFile) => {
                        if count == 0 {
                            (ListState::Done, ListAction::Finish)
                        } else {
                            (ListState::AwaitIndexFile(count, 0), ListAction::ReadIndexFile(0))
                        }
                    },
                    Some(FileModel::ActionFile) => (
                        ListState::Done,
                        ListAction::AnswerAll(FileShape::WithFile),
                    ),
                    Some(FileModel::ContentFolder) => (
                        ListState::Done,
                        ListAction::AnswerAll(FileShape::WithContent),
                    ),
                    Some(FileModel::IndexFolder) => (ListState::AwaitFolders(req), ListAction::ReadFolders),
                    None => (ListState::AwaitLinks, ListAction::LoadIndexFiles),
                }
            },
            (ListState::AwaitIndexFile(count, at), ListInput::IndexFileRead(valid)) => {
                if valid {
                    (ListState::AwaitContent(count, at), ListAction::LoadContent(at))
                } else {
                    after_index_file(count, at)
                }
            },
            (ListState::AwaitContent(count, at), ListInput::ContentWritten(written)) => {
                match written {
                    Ok(()) => after_index_file(count, at),
                    Err(e) => (
                        ListState::AwaitMark(count, at),
                        ListAction::MarkBroken(at, broken_content_desc(e.as_str())),
                    ),
                }
            },
            (ListState::AwaitMark(count, at), ListInput::Applied) => after_index_file(count, at),
            (ListState::AwaitFolders(req), ListInput::Folders(parses)) => {
                let verdicts = select_folders(&req, &parses);
                (ListState::Done, ListAction::SelectFolders(verdicts))
            },
            (ListState::AwaitLinks, ListInput::Links(ids, nodes)) => {
                let links = link_content_files(&ids, &nodes);
                (ListState::Done, ListAction::Link(links))
            },
            (_, _) => (
                ListState::Failed,
                ListAction::Fail(AppError::Any(String::from_str("unexpected step of a file listing"))),
            ),
        }
    }
}

/// An index file whose content cannot be written is listed, marked as
/// broken with the reason; the listing does not fail on it.
pub proof fn lemma_broken_content_is_listed(
    count: usize,
    at: usize,
    reason: String,
    next: ListState,
    action: ListAction,
)
    requires
        list_transition(
            ListState::AwaitContent(count, at),
            ListInput::ContentWritten(Err(reason)),
            next,
            action,
        ),
    ensures
        next == ListState::AwaitMark(count, at),
        action matches ListAction::MarkBroken(i, d) && i == at && d@
            == "failed load content file model "@ + reason@,
{
}

/// The index files of a model are read one after another: each read asks
/// for the next stream, and never for one past the last.
pub proof fn lemma_index_files_in_order(
    state: ListState,
    input: ListInput,
    next: ListState,
    k: usize,
)
    requires
        list_transition(state, input, next, ListAction::ReadIndexFile(k)),
    ensures
        next matches ListState::AwaitIndexFile(count, at) && at == k && k < count,
        state matches ListState::AwaitModel(_) ==> k == 0,
        state matches ListState::AwaitIndexFile(_, at) ==> k == at + 1,
        state matches ListState::AwaitContent(_, at) ==> k == at + 1,
        state matches ListState::AwaitMark(_, at) ==> k == at + 1,
{
}

/// The contents of a model that is no file model are always completed by
/// the dapp's index files.
pub proof fn lemma_other_models_are_linked(
    req: Vec<String>,
    name: String,
    count: usize,
    next: ListState,
    action: ListAction,
)
    requires
        file_model_named(name@) is None,
        list_transition(ListState::AwaitModel(req), ListInput::Model(name, count), next, action),
    ensures
        next is AwaitLinks,
        action is LoadIndexFiles,
{
}

/// Every index file of a model is read, one after another: after the index
/// file at `at` of `count` (read without a content, with its content
/// written in, or marked as broken), the listing reads the next one while
/// there is one, and answers only after the last.
pub proof fn lemma_every_index_file_is_read(
    count: usize,
    at: usize,
    state: ListState,
    input: ListInput,
    next: ListState,
    action: ListAction,
)
    requires
        list_transition(state, input, next, action),
        (state == ListState::AwaitIndexFile(count, at) && input == ListInput::IndexFileRead(false))
            || (state == ListState::AwaitContent(count, at) && input == ListInput::ContentWritten(
            Ok(()),
        )) || (state == ListState::AwaitMark(count, at) && input == ListInput::Applied),
    ensures
        at + 1 < count ==> next == ListState::AwaitIndexFile(count, (at + 1) as usize) && action
            == ListAction::ReadIndexFile((at + 1) as usize),
        at + 1 >= count ==> next is Done && action is Finish,
        action is Finish ==> at + 1 >= count,
{
}

/// A listing of index files starts with the first stream when the model has
/// any, and answers at once only when it has none.
pub proof fn lemma_index_listing_starts_at_first(
    req: Vec<String>,
    name: String,
    count: usize,
    next: ListState,
    action: ListAction,
)
    requires
        name@ == "indexFile"@,
        list_transition(ListState::AwaitModel(req), ListInput::Model(name, count), next, action),
    ensures
        count > 0 ==> next == ListState::AwaitIndexFile(count, 0) && action
            == ListAction::ReadIndexFile(0),
        count == 0 ==> next is Done && action is Finish,
{
}

/// A run of a listing: `states[0]` is where it started, and each input takes
/// `states[i]` to `states[i + 1]`, asking for `actions[i]`.
pub open spec fn list_run(
    states: Seq<ListState>,
    inputs: Seq<ListInput>,
    actions: Seq<ListAction>,
) -> bool {
    &&& states.len() == inputs.len() + 1
    &&& actions.len() == inputs.len()
    &&& forall|i: int|
        0 <= i < inputs.len() ==> list_transition(
            states[i],
            #[trigger] inputs[i],
            states[i + 1],
            actions[i],
        )
}

/// Index file `k` was asked for among the first `j` actions.
pub open spec fn read_before(actions: Seq<ListAction>, j: int, k: int) -> bool {
    exists|m: int| 0 <= m < j && #[trigger] actions[m] == ListAction::ReadIndexFile(k as usize)
}

/// Where a listing of `count` index files can stand after `j` steps, and
/// which index files it has asked for by then.
spec fn index_progress(s: ListState, count: usize, actions: Seq<ListAction>, j: int) -> bool {
    match s {
        ListState::AwaitIndexFile(c, at) => c == count && at < count && forall|k: int|
            0 <= k <= at ==> #[trigger] read_before(actions, j, k),
        ListState::AwaitContent(c, at) => c == count && at < count && forall|k: int|
            0 <= k <= at ==> #[trigger] read_before(actions, j, k),
        ListState::AwaitMark(c, at) => c == count && at < count && forall|k: int|
            0 <= k <= at ==> #[trigger] read_before(actions, j, k),
        ListState::Done => forall|k: int| 0 <= k < count ==> #[trigger] read_before(actions, j, k),
        ListState::Failed => true,
        _ => false,
    }
}

proof fn lemma_read_before_grows(actions: Seq<ListAction>, j: int, k: int)
    requires
        read_before(actions, j, k),
    ensures
        read_before(actions, j + 1, k),
{
    let m = choose|m: int| 0 <= m < j && #[trigger] actions[m] == ListAction::ReadIndexFile(k as usize);
    assert(0 <= m < j + 1 && actions[m] == ListAction::ReadIndexFile(k as usize));
}

proof fn lemma_index_progress(
    states: Seq<ListState>,
    inputs: Seq<ListInput>,
    actions: Seq<ListAction>,
    count: usize,
    j: int,
)
    requires
        list_run(states, inputs, actions),
        inputs.len() > 0,
        states[0] is AwaitModel,
        inputs[0] matches ListInput::Model(name, c) && name@ == "indexFile"@ && c == count,
        1 <= j <= inputs.len(),
    ensures
        index_progress(states[j], count, actions, j),
    decreases j,
{
    if j == 1 {
        assert(list_transition(states[0], inputs[0], states[1], actions[0]));
        if count > 0 {
            assert(actions[0] == ListAction::ReadIndexFile(0));
            assert forall|k: int| 0 <= k <= 0 implies #[trigger] read_before(actions, 1, k) by {
                assert(actions[0] == ListAction::ReadIndexFile(k as usize));
            }
        }
    } else {
        let i = j - 1;
        lemma_index_progress(states, inputs, actions, count, i);
        assert(list_transition(states[i], inputs[i], states[j], actions[i]));
        assert forall|k: int| read_before(actions, i, k) implies #[trigger] read_before(actions, j, k) by {
            lemma_read_before_grows(actions, i, k);
        }
        match states[i] {
            ListState::AwaitIndexFile(c, at) => {
                if inputs[i] == ListInput::IndexFileRead(false) {
                    lemma_after_index_file(states, actions, count, i, at as int);
                }
            },
            ListState::AwaitContent(c, at) => {
                if inputs[i] == ListInput::ContentWritten(Ok(())) {
                    lemma_after_index_file(states, actions, count, i, at as int);
                }
            },
            ListState::AwaitMark(c, at) => {
                if inputs[i] == ListInput::Applied {
                    lemma_after_index_file(states, actions, count, i, at as int);
                }
            },
            _ => {},
        }
    }
}

proof fn lemma_after_index_file(
    states: Seq<ListState>,
    actions: Seq<ListAction>,
    count: usize,
    i: int,
    at: int,
)
    requires
        0 <= i < actions.len(),
        i + 1 < states.len(),
        0 <= at < count,
        forall|k: int| 0 <= k <= at ==> #[trigger] read_before(actions, i + 1, k),
        next_index_file(count, at, states[i + 1], actions[i]),
    ensures
        index_progress(states[i + 1], count, actions, i + 1),
{
    if at + 1 < count {
        assert forall|k: int| 0 <= k <= at + 1 implies #[trigger] read_before(actions, i + 1, k) by {
            if k == at + 1 {
                assert(actions[i] == ListAction::ReadIndexFile(k as usize));
            }
        }
    }
}

/// A listing of an index-file model answers with its files only after it
/// has asked for every one of the model's streams as an index file.
pub proof fn lemma_listing_reads_all_index_files(
    states: Seq<ListState>,
    inputs: Seq<ListInput>,
    actions: Seq<ListAction>,
    count: usize,
    j: int,
)
    requires
        list_run(states, inputs, actions),
        inputs.len() > 0,
        states[0] is AwaitModel,
        inputs[0] matches ListInput::Model(name, c) && name@ == "indexFile"@ && c == count,
        0 <= j < actions.len(),
        actions[j] is Finish,
    ensures
        forall|k: int| 0 <= k < count ==> #[trigger] read_before(actions, j, k),
{
    assert(list_transition(states[j], inputs[j], states[j + 1], actions[j]));
    if j > 0 {
        lemma_index_progress(states, inputs, actions, count, j);
    }
}

} // verus!
