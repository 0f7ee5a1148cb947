use fs_relayer::errors::AppError;
use fs_relayer::files::{FolderParse, FolderVerdict};
use fs_relayer::list::{ListAction, ListInput, ListState};
use fs_relayer::load::FileShape;

fn s(x: &str) -> String {
    x.to_string()
}

fn at_model(required: Vec<String>) -> ListState {
    let (st, a) = ListState::new(required).step(ListInput::Begin);
    assert!(matches!(a, ListAction::LoadModel));
    st
}

#[test]
fn index_files_are_read_in_order_and_broken_content_is_marked() {
    let (st, a) = at_model(vec![]).step(ListInput::Model(s("indexFile"), 2));
    assert!(matches!(a, ListAction::ReadIndexFile(0)));
    let (st, a) = st.step(ListInput::IndexFileRead(true));
    assert!(matches!(a, ListAction::LoadContent(0)));
    let (st, a) = st.step(ListInput::ContentWritten(Err(s("bad"))));
    match a {
        ListAction::MarkBroken(0, d) => assert_eq!(d, "failed load content file model bad"),
        _ => panic!(),
    }
    let (st, a) = st.step(ListInput::Applied);
    assert!(matches!(a, ListAction::ReadIndexFile(1)));
    let (st, a) = st.step(ListInput::IndexFileRead(false));
    assert!(matches!(a, ListAction::Finish));
    assert!(matches!(st, ListState::Done));
}

#[test]
fn empty_index_model_finishes() {
    let (st, a) = at_model(vec![]).step(ListInput::Model(s("indexFile"), 0));
    assert!(matches!(a, ListAction::Finish));
    assert!(matches!(st, ListState::Done));
    let (_, a) = ListState::AwaitContent(1, 0).step(ListInput::ContentWritten(Ok(())));
    assert!(matches!(a, ListAction::Finish));
}

#[test]
fn action_files_and_content_folders_are_answered_at_once() {
    let (_, a) = at_model(vec![]).step(ListInput::Model(s("actionFile"), 3));
    assert!(matches!(a, ListAction::AnswerAll(FileShape::WithFile)));
    let (_, a) = at_model(vec![]).step(ListInput::Model(s("contentFolder"), 3));
    assert!(matches!(a, ListAction::AnswerAll(FileShape::WithContent)));
}

#[test]
fn folders_are_selected_by_signals() {
    let (st, a) = at_model(vec![s("x")]).step(ListInput::Model(s("indexFolder"), 3));
    assert!(matches!(a, ListAction::ReadFolders));
    let parses = vec![
        Some(FolderParse::Options(Some(vec![s("x")]))),
        None,
        Some(FolderParse::Options(None)),
        Some(FolderParse::BadOptions(s("e"))),
    ];
    let (st, a) = st.step(ListInput::Folders(parses));
    assert!(matches!(st, ListState::Done));
    match a {
        ListAction::SelectFolders(v) => {
            assert_eq!(v.len(), 4);
            assert!(matches!(v[0], Some(FolderVerdict::Keep)));
            assert!(v[1].is_none());
            assert!(matches!(v[2], Some(FolderVerdict::Drop)));
            match &v[3] {
                Some(FolderVerdict::Broken(d)) => assert_eq!(d, "Failed to decode folder options: e"),
                _ => panic!(),
            }
        }
        _ => panic!(),
    }
}

#[test]
fn other_models_are_linked_to_index_files() {
    let (st, a) = at_model(vec![]).step(ListInput::Model(s("post"), 2));
    assert!(matches!(a, ListAction::LoadIndexFiles));
    let (st, a) = st.step(ListInput::Links(vec![s("a"), s("b")], vec![Some(s("b"))]));
    assert!(matches!(st, ListState::Done));
    match a {
        ListAction::Link(links) => {
            assert_eq!(links.len(), 2);
            let b = links.iter().find(|l| l.content_id == "b").unwrap();
            assert_eq!(b.index_node, Some(0));
            let a = links.iter().find(|l| l.content_id == "a").unwrap();
            assert_eq!(a.naked_desc.as_deref(), Some("file_id is None, content_id: a"));
        }
        _ => panic!(),
    }
}

#[test]
fn out_of_order_list_input_fails() {
    let (st, a) = ListState::AwaitLinks.step(ListInput::Applied);
    assert!(matches!(st, ListState::Failed));
    assert!(matches!(a, ListAction::Fail(AppError::Any(_))));
}
