use fs_relayer::errors::AppError;
use fs_relayer::files::FileModel;
use fs_relayer::load::{FileRequest, FileShape, LoadAction, LoadInput, LoadState};

fn s(x: &str) -> String {
    x.to_string()
}

fn at_model() -> LoadState {
    let st = LoadState::new(FileRequest { stream_id: s("st"), dapp_id: 5 });
    let (st, a) = st.step(LoadInput::Begin);
    assert!(matches!(a, LoadAction::LoadStream));
    let (st, a) = st.step(LoadInput::Stream(s("mo")));
    match a {
        LoadAction::LoadModel(m) => assert_eq!(m, "mo"),
        _ => panic!(),
    }
    st
}

#[test]
fn foreign_model_is_refused() {
    let (st, a) = at_model().step(LoadInput::Model(6, Some(FileModel::ActionFile)));
    assert!(matches!(st, LoadState::Failed));
    match a {
        LoadAction::Fail(AppError::StreamWithModelNotInDapp(sid, mid, d)) => {
            assert_eq!((sid.as_str(), mid.as_str(), d), ("st", "mo", 5))
        }
        _ => panic!(),
    }
}

#[test]
fn action_files_and_folders_are_answered_at_once() {
    let (_, a) = at_model().step(LoadInput::Model(5, Some(FileModel::ActionFile)));
    assert!(matches!(a, LoadAction::Answer(FileShape::WithFile)));
    let (_, a) = at_model().step(LoadInput::Model(5, Some(FileModel::IndexFolder)));
    assert!(matches!(a, LoadAction::Answer(FileShape::WithContent)));
    let (st, a) = at_model().step(LoadInput::Model(5, Some(FileModel::ContentFolder)));
    assert!(matches!(a, LoadAction::Answer(FileShape::WithContent)));
    assert!(matches!(st, LoadState::Done));
}

#[test]
fn index_file_loads_its_content_when_named() {
    let (st, a) = at_model().step(LoadInput::Model(5, Some(FileModel::IndexFile)));
    assert!(matches!(a, LoadAction::ReadIndexFile));
    let (st, a) = st.step(LoadInput::IndexFileRead(true));
    assert!(matches!(a, LoadAction::LoadContent));
    let (st, a) = st.step(LoadInput::ContentWritten);
    assert!(matches!(a, LoadAction::Finish));
    assert!(matches!(st, LoadState::Done));
    let (_, a) = LoadState::AwaitIndexFile.step(LoadInput::IndexFileRead(false));
    assert!(matches!(a, LoadAction::Finish));
}

#[test]
fn content_takes_its_index_file_or_is_naked() {
    let (st, a) = at_model().step(LoadInput::Model(5, None));
    assert!(matches!(a, LoadAction::ReadContent));
    let (st, a) = st.step(LoadInput::IndexModel(s("idx")));
    match a {
        LoadAction::LoadIndexFile(m, c) => assert_eq!((m.as_str(), c.as_str()), ("idx", "st")),
        _ => panic!(),
    }
    let (_, a) = LoadState::AwaitIndexLookup.step(LoadInput::IndexLookup(Err(s("gone"))));
    match a {
        LoadAction::MarkNaked(d) => assert_eq!(d, "failed load index file model: gone"),
        _ => panic!(),
    }
    let (st, a) = st.step(LoadInput::IndexLookup(Ok(())));
    assert!(matches!(a, LoadAction::WriteIndexFile));
    assert!(matches!(st, LoadState::Done));
}

#[test]
fn out_of_order_load_input_fails() {
    let (st, a) = LoadState::Done.step(LoadInput::Begin);
    assert!(matches!(st, LoadState::Failed));
    assert!(matches!(a, LoadAction::Fail(AppError::Any(_))));
}
