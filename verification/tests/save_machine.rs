use fs_relayer::errors::AppError;
use fs_relayer::events::EventKind;
use fs_relayer::save::{SaveAction, SaveCommit, SaveInput, SaveState};

fn s(x: &str) -> String {
    x.to_string()
}

fn commit(kind: EventKind, genesis: bool, prev: Option<&str>) -> SaveCommit {
    SaveCommit {
        stream_id: s("stream"),
        cid: s("c2"),
        prev: Ok(prev.map(s)),
        kind,
        is_genesis: genesis,
    }
}

#[test]
fn appended_commit_is_verified_stored_and_uploaded() {
    let st = SaveState::new(commit(EventKind::Signed, false, Some("c1")));
    let (st, a) = st.step(SaveInput::Begin);
    assert!(matches!(a, SaveAction::LoadSlot));
    let (st, a) = st.step(SaveInput::Slot(Some(s("c1"))));
    match a {
        SaveAction::LoadCommits(t) => assert_eq!(t, "c1"),
        _ => panic!(),
    }
    let (st, a) = st.step(SaveInput::Commits(vec![s("c0"), s("c1")]));
    match a {
        SaveAction::ComputeState(v) => assert_eq!(v, vec![s("c0"), s("c1"), s("c2")]),
        _ => panic!(),
    }
    let (st, a) = st.step(SaveInput::State(s("model"), vec![s("did:a"), s("did:b")]));
    match a {
        SaveAction::VerifySignature(m) => assert_eq!(m, "model"),
        _ => panic!(),
    }
    let (st, a) = st.step(SaveInput::Verified);
    match a {
        SaveAction::StoreSlot(u) => {
            assert_eq!(u.tip, "c2");
            assert_eq!(u.model.as_deref(), Some("model"));
            assert_eq!(u.account.as_deref(), Some("did:a"));
        }
        _ => panic!(),
    }
    let (st, a) = st.step(SaveInput::Stored);
    assert!(matches!(a, SaveAction::Upload));
    let (st, a) = st.step(SaveInput::Uploaded);
    assert!(matches!(a, SaveAction::Finish));
    assert!(matches!(st, SaveState::Done));
}

#[test]
fn known_commit_only_computes_state() {
    let st = SaveState::AwaitCommits(commit(EventKind::Signed, false, Some("c1")));
    let (st, a) = st.step(SaveInput::Commits(vec![s("c1"), s("c2")]));
    match a {
        SaveAction::ComputeState(v) => assert_eq!(v, vec![s("c1"), s("c2")]),
        _ => panic!(),
    }
    let (st, a) = st.step(SaveInput::State(s("m"), vec![]));
    assert!(matches!(a, SaveAction::Finish));
    assert!(matches!(st, SaveState::Done));
}

#[test]
fn unknown_previous_commit_is_refused() {
    let st = SaveState::AwaitCommits(commit(EventKind::Signed, false, Some("cx")));
    let (st, a) = st.step(SaveInput::Commits(vec![s("c1")]));
    assert!(matches!(a, SaveAction::Fail(AppError::NoPrevCommitFound)));
    assert!(matches!(st, SaveState::Failed));
}

#[test]
fn anchor_commit_is_refused() {
    let (st, a) = SaveState::new(commit(EventKind::Anchor, false, None)).step(SaveInput::Begin);
    assert!(matches!(a, SaveAction::Fail(AppError::AnchorCommitUnsupported)));
    assert!(matches!(st, SaveState::Failed));
}

#[test]
fn missing_slot_needs_genesis() {
    let st = SaveState::AwaitSlot(commit(EventKind::Signed, false, None));
    match st.step(SaveInput::Slot(None)).1 {
        SaveAction::Fail(AppError::CommitStreamIdNotFoundOnStore(id)) => assert_eq!(id, "stream"),
        _ => panic!(),
    }
    let st = SaveState::AwaitSlot(commit(EventKind::Signed, true, None));
    let (st, a) = st.step(SaveInput::Slot(None));
    match a {
        SaveAction::ComputeState(v) => assert_eq!(v, vec![s("c2")]),
        _ => panic!(),
    }
    assert!(matches!(st, SaveState::AwaitState(_, true)));
}

#[test]
fn out_of_order_input_fails() {
    let (st, a) = SaveState::AwaitUpload.step(SaveInput::Verified);
    assert!(matches!(st, SaveState::Failed));
    assert!(matches!(a, SaveAction::Fail(AppError::Any(_))));
}

#[test]
fn unreadable_previous_commit_matters_only_for_new_commits() {
    let mut c = commit(EventKind::Signed, false, None);
    c.prev = Err(s("bad prev"));
    let (st, a) = SaveState::AwaitCommits(c).step(SaveInput::Commits(vec![s("c2")]));
    match a {
        SaveAction::ComputeState(v) => assert_eq!(v, vec![s("c2")]),
        _ => panic!(),
    }
    assert!(matches!(st, SaveState::AwaitState(_, false)));
    let mut c = commit(EventKind::Signed, false, None);
    c.prev = Err(s("bad prev"));
    let (st, a) = SaveState::AwaitCommits(c).step(SaveInput::Commits(vec![s("c1")]));
    match a {
        SaveAction::Fail(AppError::Any(m)) => assert_eq!(m, "bad prev"),
        _ => panic!(),
    }
    assert!(matches!(st, SaveState::Failed));
}
