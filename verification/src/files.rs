//! The rules by which files are loaded: the file models and their names, the
//! lookup of a content's index file, the linking of contents to index files,
//! and the filtering of folders by the signals a request names.

use vstd::prelude::*;
use vstd::string::*;
use crate::errors::{AppError, FileError};
use crate::text::views;

verus! {

/// The models of the file system.
#[derive(Debug, Clone, Copy, PartialEq, Eq, Structural)]
pub enum FileModel {
    IndexFile,
    ActionFile,
    IndexFolder,
    ContentFolder,
}

/// The name of a file model, as models are registered under it.
pub open spec fn file_model_name(m: FileModel) -> Seq<char> {
    match m {
        FileModel::IndexFile => "indexFile"@,
        FileModel::ActionFile => "actionFile"@,
        FileModel::IndexFolder => "indexFolder"@,
        FileModel::ContentFolder => "contentFolder"@,
    }
}

/// The model registered under `name`, if any.
pub open spec fn file_model_named(name: Seq<char>) -> Option<FileModel> {
    if name == file_model_name(FileModel::IndexFile) {
        Some(FileModel::IndexFile)
    } else if name == file_model_name(FileModel::ActionFile) {
        Some(FileModel::ActionFile)
    } else if name == file_model_name(FileModel::IndexFolder) {
        Some(FileModel::IndexFolder)
    } else if name == file_model_name(FileModel::ContentFolder) {
        Some(FileModel::ContentFolder)
    } else {
        None
    }
}

proof fn lemma_model_names_distinct()
    ensures
        forall|a: FileModel, b: FileModel|
            file_model_name(a) == file_model_name(b) ==> a == b,
{
    reveal_strlit("indexFile");
    reveal_strlit("actionFile");
    reveal_strlit("indexFolder");
    reveal_strlit("contentFolder");
    assert("indexFile"@.len() != "indexFolder"@.len());
    assert("indexFile"@.len() != "actionFile"@.len());
    assert("indexFile"@.len() != "contentFolder"@.len());
    assert("actionFile"@[0] != "indexFolder"@[0]);
    assert("actionFile"@.len() != "contentFolder"@.len());
    assert("indexFolder"@.len() != "contentFolder"@.len());
}

/// A model's name names that model and no other.
pub proof fn lemma_file_model_name_round_trip(m: FileModel)
    ensures
        file_model_named(file_model_name(m)) == Some(m),
{
    lemma_model_names_distinct();
}

impl FileModel {
    /// The name the model is registered under.
    pub fn name(&self) -> (res: String)
        ensures
            res@ == file_model_name(*self),
    {
        match self {
            FileModel::IndexFile => String::from_str("indexFile"),
            FileModel::ActionFile => String::from_str("actionFile"),
            FileModel::IndexFolder => String::from_str("indexFolder"),
            FileModel::ContentFolder => String::from_str("contentFolder"),
        }
    }

    /// The model registered under `name`; `None` for any other name.
    pub fn from_name(name: &str) -> (res: Option<FileModel>)
        ensures
            res == file_model_named(name@),
    {
        let n = String::from_str(name);
        if n == String::from_str("indexFile") {
            Some(FileModel::IndexFile)
        } else if n == String::from_str("actionFile") {
            Some(FileModel::ActionFile)
        } else if n == String::from_str("indexFolder") {
            Some(FileModel::IndexFolder)
        } else if n == String::from_str("contentFolder") {
            Some(FileModel::ContentFolder)
        } else {
            None
        }
    }
}

/// The views of a sequence of optional strings.
pub open spec fn opt_views(v: Seq<Option<String>>) -> Seq<Option<Seq<char>>> {
    v.map_values(
        |x: Option<String>|
            match x {
                Some(s) => Some(s@),
                None => None,
            },
    )
}

/// The first position of `Some(key)` in `s`, or -1.
pub open spec fn first_some_index(s: Seq<Option<Seq<char>>>, key: Seq<char>) -> int
    decreases s.len(),
{
    if s.len() == 0 {
        -1
    } else if s[0] == Some(key) {
        0
    } else {
        let r = first_some_index(s.drop_first(), key);
        if r == -1 {
            -1
        } else {
            r + 1
        }
    }
}

proof fn lemma_first_some_index(s: Seq<Option<Seq<char>>>, key: Seq<char>)
    ensures
        -1 <= first_some_index(s, key) < s.len(),
        first_some_index(s, key) >= 0 ==> s[first_some_index(s, key)] == Some(key),
        forall|j: int|
            0 <= j < s.len() && (j < first_some_index(s, key) || first_some_index(s, key) == -1)
                ==> s[j] != Some(key),
    decreases s.len(),
{
    if s.len() > 0 && s[0] != Some(key) {
        lemma_first_some_index(s.drop_first(), key);
        assert forall|j: int|
            0 <= j < s.len() && (j < first_some_index(s, key) || first_some_index(s, key) == -1)
                implies s[j] != Some(key) by {
            if j > 0 {
                assert(s[j] == s.drop_first()[j - 1]);
            }
        }
    }
}

/// Finds the index file of a content among the content ids that candidate
/// index files name (`None` where a candidate could not be read as an index
/// file): the first candidate that names `content_id`.
pub fn find_index_file(candidates: &Vec<Option<String>>, content_id: &String) -> (res: Result<
    usize,
    FileError,
>)
    ensures
        first_some_index(opt_views(candidates@), content_id@) >= 0 ==> res == Ok::<
            usize,
            FileError,
        >(first_some_index(opt_views(candidates@), content_id@) as usize),
        first_some_index(opt_views(candidates@), content_id@) == -1 ==> (res matches Err(
            FileError::IndexFileWithIdNotFound(c),
        ) && c@ == content_id@),
        res matches Ok(i) ==> (i < candidates@.len() && (candidates@[i as int] matches Some(c)
            && c@ == content_id@)),
{
    let ghost s = opt_views(candidates@);
    proof {
        lemma_first_some_index(s, content_id@);
    }
    let mut i: usize = 0;
    while i < candidates.len()
        invariant
            i <= candidates@.len(),
            s == opt_views(candidates@),
            -1 <= first_some_index(s, content_id@) < s.len(),
            first_some_index(s, content_id@) >= 0 ==> s[first_some_index(s, content_id@)]
                == Some(content_id@),
            forall|j: int|
                0 <= j < s.len() && (j < first_some_index(s, content_id@) || first_some_index(
                    s,
                    content_id@,
                ) == -1) ==> s[j] != Some(content_id@),
            forall|j: int| 0 <= j < i ==> s[j] != Some(content_id@),
        decreases candidates@.len() - i,
    {
        match &candidates[i] {
            Some(c) => {
                if *c == *content_id {
                    assert(s[i as int] == Some(content_id@));
                    return Ok(i);
                }
                assert(s[i as int] == Some(c@));
            },
            None => {
                assert(s[i as int] == None::<Seq<char>>);
            },
        }
        i = i + 1;
    }
    Err(FileError::IndexFileWithIdNotFound(content_id.clone()))
}

/// The index file that a query for one content returned: there must be
/// exactly one, and it is the first.
pub fn single_index_file(count: usize) -> (res: Result<usize, FileError>)
    ensures
        count == 1 ==> res == Ok::<usize, FileError>(0),
        count != 1 ==> res matches Err(FileError::IndexFileNotFound),
{
    if count != 1 {
        Err(FileError::IndexFileNotFound)
    } else {
        Ok(0)
    }
}

/// The last position of `key` in `s`, or -1.
pub open spec fn last_index_of(s: Seq<Seq<char>>, key: Seq<char>) -> int {
    last_some_index(present(s), key)
}

/// Each element of `s`, as present.
pub open spec fn present(s: Seq<Seq<char>>) -> Seq<Option<Seq<char>>> {
    s.map_values(|x: Seq<char>| Some(x))
}

/// The last position of `Some(key)` in `s`, or -1.
pub open spec fn last_some_index(s: Seq<Option<Seq<char>>>, key: Seq<char>) -> int
    decreases s.len(),
{
    if s.len() == 0 {
        -1
    } else if s.last() == Some(key) {
        s.len() - 1
    } else {
        last_some_index(s.drop_last(), key)
    }
}

proof fn lemma_last_some_index(s: Seq<Option<Seq<char>>>, key: Seq<char>)
    ensures
        -1 <= last_some_index(s, key) < s.len(),
        last_some_index(s, key) >= 0 ==> s[last_some_index(s, key)] == Some(key),
        forall|q: int| last_some_index(s, key) < q < s.len() ==> s[q] != Some(key),
    decreases s.len(),
{
    if s.len() > 0 && s.last() != Some(key) {
        let t = s.drop_last();
        lemma_last_some_index(t, key);
        assert forall|q: int| last_some_index(s, key) < q < s.len() implies s[q] != Some(key) by {
            if q < s.len() - 1 {
                assert(s[q] == t[q]);
            }
        }
    }
}

/// The last position of `Some(key)` among `nodes`.
fn last_node(nodes: &Vec<Option<String>>, key: &String) -> (res: Option<usize>)
    ensures
        match res {
            Some(p) => p as int == last_some_index(opt_views(nodes@), key@),
            None => last_some_index(opt_views(nodes@), key@) == -1,
        },
{
    let ghost s = opt_views(nodes@);
    let mut found: Option<usize> = None;
    let mut j: usize = 0;
    assert(s.take(0) =~= Seq::<Option<Seq<char>>>::empty());
    while j < nodes.len()
        invariant
            j <= nodes@.len(),
            s == opt_views(nodes@),
            match found {
                Some(p) => p as int == last_some_index(s.take(j as int), key@),
                None => last_some_index(s.take(j as int), key@) == -1,
            },
        decreases nodes@.len() - j,
    {
        assert(s.take(j + 1).drop_last() =~= s.take(j as int));
        match &nodes[j] {
            Some(c) => {
                assert(s.take(j + 1).last() == Some(c@));
                if *c == *key {
                    found = Some(j);
                }
            },
            None => {
                assert(s.take(j + 1).last() == None::<Seq<char>>);
            },
        }
        j = j + 1;
    }
    assert(s.take(nodes@.len() as int) =~= s);
    found
}

/// Whether `key` is among `keys`.
pub(crate) fn contains_key(keys: &Vec<String>, key: &String) -> (res: bool)
    ensures
        res == views(keys@).contains(key@),
{
    let mut j: usize = 0;
    while j < keys.len()
        invariant
            j <= keys@.len(),
            forall|q: int| 0 <= q < j ==> keys@[q]@ != key@,
        decreases keys@.len() - j,
    {
        if keys[j] == *key {
            assert(views(keys@)[j as int] == key@);
            return true;
        }
        j = j + 1;
    }
    assert forall|q: int| 0 <= q < views(keys@).len() implies views(keys@)[q] != key@ by {
        assert(views(keys@)[q] == keys@[q]@);
    }
    false
}

/// The distinct ids of `ids`, in the order in which each first occurs.
fn distinct_ids(ids: &Vec<String>) -> (keys: Vec<String>)
    ensures
        forall|a: int, b: int|
            0 <= a < b < keys@.len() ==> keys@[a]@ != keys@[b]@,
        forall|a: int| 0 <= a < keys@.len() ==> views(ids@).contains(#[trigger] keys@[a]@),
        forall|p: int| 0 <= p < ids@.len() ==> views(keys@).contains(#[trigger] ids@[p]@),
{
    let mut keys: Vec<String> = Vec::new();
    let mut p: usize = 0;
    while p < ids.len()
        invariant
            p <= ids@.len(),
            forall|a: int, b: int| 0 <= a < b < keys@.len() ==> keys@[a]@ != keys@[b]@,
            forall|a: int| 0 <= a < keys@.len() ==> views(ids@).contains(#[trigger] keys@[a]@),
            forall|q: int| 0 <= q < p ==> views(keys@).contains(#[trigger] ids@[q]@),
        decreases ids@.len() - p,
    {
        let ghost old_keys = keys@;
        assert(views(ids@)[p as int] == ids@[p as int]@);
        if !contains_key(&keys, &ids[p]) {
            keys.push(ids[p].clone());
            assert(views(keys@) =~= views(old_keys).push(ids@[p as int]@));
            assert forall|q: int| 0 <= q <= p implies views(keys@).contains(#[trigger] ids@[q]@) by {
                if q < p {
                    let w = choose|w: int| 0 <= w < views(old_keys).len() && views(old_keys)[w]
                        == ids@[q]@;
                    assert(views(keys@)[w] == ids@[q]@);
                } else {
                    assert(views(keys@)[old_keys.len() as int] == ids@[q]@);
                }
            }
            assert forall|a: int, b: int| 0 <= a < b < keys@.len() implies keys@[a]@
                != keys@[b]@ by {
                if b == old_keys.len() {
                    assert(views(old_keys)[a] == keys@[a]@);
                }
            }
        }
        p = p + 1;
    }
    keys
}

/// How one content file is completed: which of the content states it is read
/// from, which index file (if any) names it, and, for a content that no index
/// file names, the description of its status.
pub struct FileLink {
    pub content_id: String,
    pub state_index: usize,
    pub index_node: Option<usize>,
    pub naked_desc: Option<String>,
}

/// The content ids of a sequence of links.
pub open spec fn link_ids(links: Seq<FileLink>) -> Seq<Seq<char>> {
    links.map_values(|l: FileLink| l.content_id@)
}

/// The status description of a content that no index file names.
pub open spec fn naked_content_text(content_id: Seq<char>) -> Seq<char> {
    "file_id is None, content_id: "@ + content_id
}

/// A link is right for the content states and index files it was made from.
pub open spec fn link_is_exact(
    link: FileLink,
    ids: Seq<Seq<char>>,
    nodes: Seq<Option<Seq<char>>>,
) -> bool {
    let k = link.content_id@;
    &&& link.state_index as int == last_index_of(ids, k)
    &&& link.state_index < ids.len()
    &&& last_some_index(nodes, k) == -1 ==> link.index_node is None
    &&& last_some_index(nodes, k) >= 0 ==> link.index_node == Some(
        last_some_index(nodes, k) as usize,
    )
    &&& link.index_node is None ==> (link.naked_desc matches Some(d) && d@ == naked_content_text(
        k,
    ))
    &&& link.index_node is Some ==> link.naked_desc is None
}

/// The links made from the content ids `ids` and the contents that index
/// files name (`nodes`): each link is exact, no content id is linked twice,
/// and every content id is linked.
pub open spec fn links_are_exact(
    links: Seq<FileLink>,
    ids: Seq<Seq<char>>,
    nodes: Seq<Option<Seq<char>>>,
) -> bool {
    &&& forall|i: int| 0 <= i < links.len() ==> link_is_exact(#[trigger] links[i], ids, nodes)
    &&& forall|a: int, b: int|
        0 <= a < b < links.len() ==> links[a].content_id@ != links[b].content_id@
    &&& forall|p: int| 0 <= p < ids.len() ==> link_ids(links).contains(#[trigger] ids[p])
}

/// Links the contents of a model to the index files that name them. Each
/// content id gets one file, read from the last state with that id; the file
/// takes the last index file that names its content, and a content that none
/// names is marked as naked.
pub fn link_content_files(content_ids: &Vec<String>, index_content_ids: &Vec<Option<String>>) -> (res:
    Vec<FileLink>)
    ensures
        links_are_exact(res@, views(content_ids@), opt_views(index_content_ids@)),
{
    let keys = distinct_ids(content_ids);
    let ghost ids = views(content_ids@);
    let mut states: Vec<Option<String>> = Vec::new();
    let mut j: usize = 0;
    while j < content_ids.len()
        invariant
            j <= content_ids@.len(),
            ids == views(content_ids@),
            opt_views(states@) =~= present(ids).take(j as int),
        decreases content_ids@.len() - j,
    {
        let ghost before = states@;
        states.push(Some(content_ids[j].clone()));
        assert(ids[j as int] == content_ids@[j as int]@);
        assert(opt_views(states@) =~= opt_views(before).push(Some(content_ids@[j as int]@)));
        assert(present(ids).take(j + 1) =~= present(ids).take(j as int).push(Some(ids[j as int])));
        j = j + 1;
    }
    assert(opt_views(states@) =~= present(ids));
    let ghost nodes = opt_views(index_content_ids@);
    let mut res: Vec<FileLink> = Vec::new();
    let mut i: usize = 0;
    while i < keys.len()
        invariant
            i <= keys@.len(),
            ids == views(content_ids@),
            nodes == opt_views(index_content_ids@),
            opt_views(states@) == present(ids),
            res@.len() == i,
            forall|a: int, b: int| 0 <= a < b < keys@.len() ==> keys@[a]@ != keys@[b]@,
            forall|a: int| 0 <= a < keys@.len() ==> ids.contains(#[trigger] keys@[a]@),
            forall|q: int| 0 <= q < i ==> res@[q].content_id@ == keys@[q]@,
            forall|q: int| 0 <= q < i ==> link_is_exact(#[trigger] res@[q], ids, nodes),
        decreases keys@.len() - i,
    {
        let key = keys[i].clone();
        proof {
            lemma_last_some_index(present(ids), key@);
            lemma_last_some_index(nodes, key@);
            assert(ids.contains(keys@[i as int]@));
            let w = choose|w: int| 0 <= w < ids.len() && ids[w] == key@;
            assert(present(ids)[w] == Some(key@));
        }
        let state_index = match last_node(&states, &key) {
            Some(p) => p,
            None => {
                assert(false);
                0
            },
        };
        let index_node = last_node(index_content_ids, &key);
        let naked_desc = match index_node {
            Some(_) => None,
            None => Some(String::from_str("file_id is None, content_id: ").concat(key.as_str())),
        };
        res.push(FileLink { content_id: key, state_index, index_node, naked_desc });
        i = i + 1;
    }
    assert forall|a: int, b: int| 0 <= a < b < res@.len() implies res@[a].content_id@
        != res@[b].content_id@ by {
        assert(res@[a].content_id@ == keys@[a]@);
        assert(res@[b].content_id@ == keys@[b]@);
    }
    assert forall|p: int| 0 <= p < content_ids@.len() implies link_ids(res@).contains(
        #[trigger] content_ids@[p]@,
    ) by {
        assert(views(keys@).contains(content_ids@[p]@));
        let w = choose|w: int| 0 <= w < views(keys@).len() && views(keys@)[w] == content_ids@[p]@;
        assert(link_ids(res@)[w] == content_ids@[p]@);
    }
    res
}

/// An option of a request for the files of a model: a signal that a folder
/// must carry, or nothing.
pub enum LoadFilesOption {
    Signal(String),
    Nothing,
}

/// The signals among a request's options, in order.
pub open spec fn signals_of(opts: Seq<LoadFilesOption>) -> Seq<Seq<char>>
    decreases opts.len(),
{
    if opts.len() == 0 {
        Seq::<Seq<char>>::empty()
    } else {
        let rest = signals_of(opts.drop_last());
        match opts.last() {
            LoadFilesOption::Signal(sig) => rest.push(sig@),
            LoadFilesOption::Nothing => rest,
        }
    }
}

/// The options of a request that names `signals`.
pub open spec fn signal_options_of(signals: Seq<String>) -> Seq<LoadFilesOption> {
    signals.map_values(|sig: String| LoadFilesOption::Signal(sig))
}

/// The signals that a request's options require of every folder, in order.
pub fn required_signals(options: &Vec<LoadFilesOption>) -> (res: Vec<String>)
    ensures
        views(res@) == signals_of(options@),
{
    let mut res: Vec<String> = Vec::new();
    let mut i: usize = 0;
    assert(options@.take(0) =~= Seq::<LoadFilesOption>::empty());
    while i < options.len()
        invariant
            i <= options@.len(),
            views(res@) == signals_of(options@.take(i as int)),
        decreases options@.len() - i,
    {
        assert(options@.take(i + 1).drop_last() =~= options@.take(i as int));
        assert(options@.take(i + 1).last() == options@[i as int]);
        let ghost old_res = res@;
        match &options[i] {
            LoadFilesOption::Signal(sig) => {
                res.push(sig.clone());
                assert(views(res@) =~= views(old_res).push(sig@));
            },
            LoadFilesOption::Nothing => {},
        }
        i = i + 1;
    }
    assert(options@.take(options@.len() as int) =~= options@);
    res
}

/// The options of a request that names `signals`: one signal option each.
pub fn signal_options(signals: Vec<String>) -> (res: Vec<LoadFilesOption>)
    ensures
        res@ == signal_options_of(signals@),
{
    let mut res: Vec<LoadFilesOption> = Vec::new();
    let mut i: usize = 0;
    while i < signals.len()
        invariant
            i <= signals@.len(),
            res@ =~= signal_options_of(signals@).take(i as int),
        decreases signals@.len() - i,
    {
        res.push(LoadFilesOption::Signal(signals[i].clone()));
        i = i + 1;
    }
    res
}

/// The signals that a request's options require are the signals it names.
pub proof fn lemma_signal_options_round_trip(signals: Seq<String>)
    ensures
        signals_of(signal_options_of(signals)) == views(signals),
    decreases signals.len(),
{
    if signals.len() > 0 {
        let t = signals.drop_last();
        lemma_signal_options_round_trip(t);
        assert(signal_options_of(signals).drop_last() =~= signal_options_of(t));
        assert(views(signals) =~= views(t).push(signals.last()@));
    }
}

/// Every signal in `required` is among a folder's signals; a folder whose
/// options carry no signals passes only a request that requires none.
pub open spec fn all_signals_present(
    required: Seq<Seq<char>>,
    folder_signals: Option<Seq<Seq<char>>>,
) -> bool {
    forall|i: int|
        0 <= i < required.len() ==> (folder_signals matches Some(s) && s.contains(
            #[trigger] required[i],
        ))
}

/// A request that requires no signal accepts every folder.
pub proof fn lemma_no_signals_accept_all(folder_signals: Option<Seq<Seq<char>>>)
    ensures
        all_signals_present(Seq::<Seq<char>>::empty(), folder_signals),
{
}

/// What reading a folder's content gave: it is no index folder (with the
/// reason), its options could not be decoded (with the reason), or its
/// options, which may carry signals.
pub enum FolderParse {
    BadFolder(String),
    BadOptions(String),
    Options(Option<Vec<String>>),
}

/// What becomes of a folder in a listing: kept, left out, or kept and marked
/// as broken with a description.
pub enum FolderVerdict {
    Keep,
    Drop,
    Broken(String),
}

/// The optional views of a folder's signals.
pub open spec fn folder_signal_views(o: Option<Vec<String>>) -> Option<Seq<Seq<char>>> {
    match o {
        Some(v) => Some(views(v@)),
        None => None,
    }
}

/// The verdict on a folder for a request that requires `required` signals:
/// a folder that cannot be read is broken, with the reason in the
/// description; a readable one is kept when it carries every required signal
/// and left out otherwise.
pub open spec fn verdict_is(required: Seq<Seq<char>>, parse: FolderParse, v: FolderVerdict) -> bool {
    match parse {
        FolderParse::BadFolder(e) => v matches FolderVerdict::Broken(d) && d@
            == "Failed to asset content as index_folder: "@ + e@,
        FolderParse::BadOptions(e) => v matches FolderVerdict::Broken(d) && d@
            == "Failed to decode folder options: "@ + e@,
        FolderParse::Options(o) => (v is Keep <==> all_signals_present(
            required,
            folder_signal_views(o),
        )) && (v is Keep || v is Drop),
    }
}

/// Whether a folder with `options` carries `signal`.
pub open spec fn carries(options: Option<Vec<String>>, signal: Seq<char>) -> bool {
    match options {
        Some(sigs) => views(sigs@).contains(signal),
        None => false,
    }
}

/// A readable folder is kept exactly when every required signal, each one of
/// them, is among its signals; a folder without signals is kept only by a
/// request that requires none.
pub proof fn lemma_folder_kept_iff_all_signals(
    required: Seq<Seq<char>>,
    options: Option<Vec<String>>,
    v: FolderVerdict,
)
    requires
        verdict_is(required, FolderParse::Options(options), v),
    ensures
        v is Keep || v is Drop,
        v is Keep <==> (forall|i: int| 0 <= i < required.len() ==> carries(options, #[trigger] required[i])),
        (exists|i: int| 0 <= i < required.len() && !carries(options, #[trigger] required[i])) ==> v is Drop,
        options is None && required.len() > 0 ==> v is Drop,
{
    let fs = folder_signal_views(options);
    assert forall|i: int| 0 <= i < required.len() implies (carries(options, #[trigger] required[i])
        <==> (fs matches Some(s) && s.contains(required[i]))) by {
        match options {
            Some(sigs) => assert(fs == Some(views(sigs@))),
            None => assert(fs is None),
        }
    }
    if options is None && required.len() > 0 {
        assert(!carries(options, required[0]));
    }
}

/// Whether a folder's signals hold every required signal.
fn signals_present(required: &Vec<String>, o: &Option<Vec<String>>) -> (res: bool)
    ensures
        res == all_signals_present(views(required@), folder_signal_views(*o)),
{
    let mut i: usize = 0;
    while i < required.len()
        invariant
            i <= required@.len(),
            all_signals_present(views(required@).take(i as int), folder_signal_views(*o)),
        decreases required@.len() - i,
    {
        let present = match o {
            Some(sigs) => contains_key(sigs, &required[i]),
            None => false,
        };
        if !present {
            assert(views(required@)[i as int] == required@[i as int]@);
            return false;
        }
        assert forall|q: int| 0 <= q < i + 1 implies (folder_signal_views(*o) matches Some(s)
            && s.contains(#[trigger] views(required@).take(i + 1)[q])) by {
            if q < i {
                assert(views(required@).take(i + 1)[q] == views(required@).take(i as int)[q]);
            }
        }
        i = i + 1;
    }
    assert(views(required@).take(required@.len() as int) =~= views(required@));
    true
}

/// Decides whether a folder is listed for a request that requires
/// `required` signals: a folder that cannot be read is listed as broken; a
/// readable one is listed when it carries every required signal.
pub fn folder_verdict(required: &Vec<String>, parse: &FolderParse) -> (res: FolderVerdict)
    ensures
        verdict_is(views(required@), *parse, res),
{
    match parse {
        FolderParse::BadFolder(e) => FolderVerdict::Broken(
            String::from_str("Failed to asset content as index_folder: ").concat(e.as_str()),
        ),
        FolderParse::BadOptions(e) => FolderVerdict::Broken(
            String::from_str("Failed to decode folder options: ").concat(e.as_str()),
        ),
        FolderParse::Options(o) => {
            if signals_present(required, o) {
                FolderVerdict::Keep
            } else {
                FolderVerdict::Drop
            }
        },
    }
}

/// Checks that a stream's model belongs to the dapp that asks for it.
pub fn check_model_dapp(stream_id: &String, model_id: &String, model_dapp: u128, dapp_id: u128) -> (res:
    Result<(), AppError>)
    ensures
        model_dapp == dapp_id ==> res is Ok,
        model_dapp != dapp_id ==> (res matches Err(
            AppError::StreamWithModelNotInDapp(s, m, d),
        ) && s@ == stream_id@ && m@ == model_id@ && d == dapp_id),
{
    if model_dapp != dapp_id {
        Err(AppError::StreamWithModelNotInDapp(stream_id.clone(), model_id.clone(), dapp_id))
    } else {
        Ok(())
    }
}

/// How a single file is read, by the file model its stream's model names: an
/// index file with its content, an action file, a folder, or a content of a
/// model of the dapp's own that is completed by its index file.
pub enum FileRoute {
    IndexFile,
    ActionFile,
    Folder,
    Content,
}

/// The way to read a file whose model reads as `model` (`None` where it reads
/// as no file model).
pub fn load_file_route(model: Option<FileModel>) -> (res: FileRoute)
    ensures
        model == Some(FileModel::IndexFile) ==> res is IndexFile,
        model == Some(FileModel::ActionFile) ==> res is ActionFile,
        model == Some(FileModel::IndexFolder) ==> res is Folder,
        model == Some(FileModel::ContentFolder) ==> res is Folder,
        model is None ==> res is Content,
{
    match model {
        Some(FileModel::IndexFile) => FileRoute::IndexFile,
        Some(FileModel::ActionFile) => FileRoute::ActionFile,
        Some(FileModel::IndexFolder) | Some(FileModel::ContentFolder) => FileRoute::Folder,
        None => FileRoute::Content,
    }
}

/// The status description of a content whose index file could not be loaded.
pub fn naked_file_desc(err: &str) -> (res: String)
    ensures
        res@ == "failed load index file model: "@ + err@,
{
    String::from_str("failed load index file model: ").concat(err)
}

/// The status description of an index file whose content could not be
/// written into it.
pub fn broken_content_desc(err: &str) -> (res: String)
    ensures
        res@ == "failed load content file model "@ + err@,
{
    String::from_str("failed load content file model ").concat(err)
}

} // verus!
