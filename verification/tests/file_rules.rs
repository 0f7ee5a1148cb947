use fs_relayer::errors::{AppError, FileError};
use fs_relayer::files::{
    broken_content_desc, check_model_dapp, find_index_file, folder_verdict, link_content_files,
    load_file_route, naked_file_desc, required_signals, signal_options, single_index_file,
    FileModel, FileRoute, FolderParse, FolderVerdict, LoadFilesOption,
};

fn s(x: &str) -> String {
    x.to_string()
}

#[test]
fn model_names_round_trip() {
    for m in [
        FileModel::IndexFile,
        FileModel::ActionFile,
        FileModel::IndexFolder,
        FileModel::ContentFolder,
    ] {
        assert_eq!(FileModel::from_name(&m.name()), Some(m));
    }
    assert_eq!(FileModel::IndexFile.name(), "indexFile");
    assert_eq!(FileModel::ContentFolder.name(), "contentFolder");
    assert_eq!(FileModel::from_name("post"), None);
    assert_eq!(FileModel::from_name("\"indexFile\""), None);
}

#[test]
fn index_file_lookup_takes_first_match() {
    let c = vec![None, Some(s("b")), Some(s("a")), Some(s("a"))];
    assert!(matches!(find_index_file(&c, &s("a")), Ok(2)));
    match find_index_file(&c, &s("z")) {
        Err(FileError::IndexFileWithIdNotFound(id)) => assert_eq!(id, "z"),
        _ => panic!("expected not found"),
    }
    assert!(matches!(find_index_file(&vec![], &s("a")), Err(FileError::IndexFileWithIdNotFound(_))));
}

#[test]
fn single_index_file_needs_exactly_one() {
    assert!(matches!(single_index_file(1), Ok(0)));
    assert!(matches!(single_index_file(0), Err(FileError::IndexFileNotFound)));
    assert!(matches!(single_index_file(2), Err(FileError::IndexFileNotFound)));
}

#[test]
fn linking_contents_to_index_files() {
    let contents = vec![s("c1"), s("c2"), s("c1")];
    let nodes = vec![Some(s("c1")), None, Some(s("c3")), Some(s("c1"))];
    let links = link_content_files(&contents, &nodes);
    assert_eq!(links.len(), 2);
    let c1 = links.iter().find(|l| l.content_id == "c1").unwrap();
    assert_eq!(c1.state_index, 2);
    assert_eq!(c1.index_node, Some(3));
    assert!(c1.naked_desc.is_none());
    let c2 = links.iter().find(|l| l.content_id == "c2").unwrap();
    assert_eq!(c2.state_index, 1);
    assert_eq!(c2.index_node, None);
    assert_eq!(c2.naked_desc.as_deref(), Some("file_id is None, content_id: c2"));
}

#[test]
fn linking_nothing() {
    assert!(link_content_files(&vec![], &vec![Some(s("x"))]).is_empty());
}

#[test]
fn signals_round_trip_through_options() {
    let opts = signal_options(vec![s("{\"a\":1}"), s("2")]);
    assert_eq!(required_signals(&opts), vec![s("{\"a\":1}"), s("2")]);
    let mixed = vec![LoadFilesOption::Nothing, LoadFilesOption::Signal(s("x"))];
    assert_eq!(required_signals(&mixed), vec![s("x")]);
}

#[test]
fn folder_verdicts() {
    let req = vec![s("x"), s("y")];
    assert!(matches!(
        folder_verdict(&req, &FolderParse::Options(Some(vec![s("y"), s("x"), s("z")]))),
        FolderVerdict::Keep
    ));
    assert!(matches!(
        folder_verdict(&req, &FolderParse::Options(Some(vec![s("x")]))),
        FolderVerdict::Drop
    ));
    assert!(matches!(folder_verdict(&req, &FolderParse::Options(None)), FolderVerdict::Drop));
    assert!(matches!(folder_verdict(&vec![], &FolderParse::Options(None)), FolderVerdict::Keep));
    match folder_verdict(&req, &FolderParse::BadFolder(s("e1"))) {
        FolderVerdict::Broken(d) => assert_eq!(d, "Failed to asset content as index_folder: e1"),
        _ => panic!(),
    }
    match folder_verdict(&vec![], &FolderParse::BadOptions(s("e2"))) {
        FolderVerdict::Broken(d) => assert_eq!(d, "Failed to decode folder options: e2"),
        _ => panic!(),
    }
}

#[test]
fn model_must_belong_to_dapp() {
    assert!(check_model_dapp(&s("st"), &s("mo"), 7, 7).is_ok());
    match check_model_dapp(&s("st"), &s("mo"), 7, 8) {
        Err(AppError::StreamWithModelNotInDapp(a, b, c)) => {
            assert_eq!((a.as_str(), b.as_str(), c), ("st", "mo", 8))
        }
        _ => panic!(),
    }
}

#[test]
fn file_routes() {
    assert!(matches!(load_file_route(Some(FileModel::IndexFile)), FileRoute::IndexFile));
    assert!(matches!(load_file_route(Some(FileModel::ActionFile)), FileRoute::ActionFile));
    assert!(matches!(load_file_route(Some(FileModel::IndexFolder)), FileRoute::Folder));
    assert!(matches!(load_file_route(Some(FileModel::ContentFolder)), FileRoute::Folder));
    assert!(matches!(load_file_route(None), FileRoute::Content));
}

#[test]
fn status_descriptions() {
    assert_eq!(naked_file_desc("gone"), "failed load index file model: gone");
    assert_eq!(broken_content_desc("bad"), "failed load content file model bad");
}
