use fs_relayer::errors::AppError;
use fs_relayer::events::{
    anchor_requested, check_commit, first_controller, migrated_account, settle_slot, CommitCheck,
    EventKind,
};
use fs_relayer::routing::{
    migration_requested, needs_index_folder_model, route_load_streams, wants_ceramic_format,
    LoadStreamsRoute,
};

fn s(x: &str) -> String {
    x.to_string()
}

#[test]
fn only_signed_commits_are_anchored() {
    assert!(anchor_requested(EventKind::Signed));
    assert!(!anchor_requested(EventKind::Anchor));
}

#[test]
fn commit_checks() {
    let commits = vec![s("c0"), s("c1")];
    assert!(matches!(check_commit(&commits, &s("c1"), &None), Ok(CommitCheck::AlreadyApplied)));
    assert!(matches!(check_commit(&commits, &s("c2"), &Some(s("c1"))), Ok(CommitCheck::Append)));
    assert!(matches!(check_commit(&vec![], &s("g"), &None), Ok(CommitCheck::Append)));
    assert!(matches!(check_commit(&commits, &s("c2"), &Some(s("cx"))), Err(AppError::NoPrevCommitFound)));
}

#[test]
fn redelivered_commit_applies_once() {
    let mut commits = vec![s("c0")];
    let cid = s("c1");
    let prev = Some(s("c0"));
    assert!(matches!(check_commit(&commits, &cid, &prev), Ok(CommitCheck::Append)));
    commits.push(cid.clone());
    assert!(matches!(check_commit(&commits, &cid, &prev), Ok(CommitCheck::AlreadyApplied)));
    assert!(matches!(check_commit(&commits, &s("c2"), &Some(cid)), Ok(CommitCheck::Append)));
}

#[test]
fn slot_after_commit() {
    let u = settle_slot(&vec![s("did:a"), s("did:b")], s("model"), s("tip"));
    assert_eq!(u.model.as_deref(), Some("model"));
    assert_eq!(u.account.as_deref(), Some("did:a"));
    assert_eq!(u.tip, "tip");
    assert!(settle_slot(&vec![], s("m"), s("t")).account.is_none());
    assert_eq!(first_controller(&vec![s("x")]), Some(s("x")));
    assert_eq!(first_controller(&vec![]), None);
}

#[test]
fn migrated_streams_need_a_controller() {
    assert_eq!(migrated_account(&vec![s("did:a")]).unwrap(), "did:a");
    match migrated_account(&vec![]) {
        Err(AppError::Any(m)) => assert_eq!(m, "no controllers"),
        _ => panic!(),
    }
}

#[test]
fn stream_formats() {
    assert!(wants_ceramic_format(&Some(s("ceramic"))));
    assert!(!wants_ceramic_format(&Some(s("dataverse"))));
    assert!(!wants_ceramic_format(&None));
}

#[test]
fn index_folder_override() {
    assert!(needs_index_folder_model(1, Some(3)));
    assert!(!needs_index_folder_model(0, Some(3)));
    assert!(!needs_index_folder_model(2, None));
}

#[test]
fn routes_for_several_streams() {
    match route_load_streams(&Some(s("m")), &Some(s("a,b")), Some(1)) {
        Ok(LoadStreamsRoute::ByModelId(m)) => assert_eq!(m, "m"),
        _ => panic!(),
    }
    match route_load_streams(&None, &Some(s("a,b")), Some(9)) {
        Ok(LoadStreamsRoute::ByStreamIds(ids, d)) => {
            assert_eq!(ids, vec![s("a"), s("b")]);
            assert_eq!(d, 9);
        }
        _ => panic!(),
    }
    assert!(matches!(route_load_streams(&None, &Some(s("a")), None), Err(AppError::InvalidQuery)));
    assert!(matches!(route_load_streams(&None, &None, Some(1)), Err(AppError::InvalidQuery)));
}

#[test]
fn migration_switch() {
    assert!(migration_requested(&Some(s("stream_store"))));
    assert!(migration_requested(&Some(s("other,stream_store"))));
    assert!(!migration_requested(&Some(s("other"))));
    assert!(!migration_requested(&None));
}
