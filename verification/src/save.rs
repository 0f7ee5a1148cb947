//! Saving a commit of a stream, as a machine: from its state and the outcome
//! of the last piece of outside work (reading the slot, loading commits,
//! computing the stream state, verifying the signature, storing, uploading)
//! it gives its next state and the next piece of work.

use vstd::prelude::*;
use vstd::string::*;
use crate::errors::AppError;
use crate::events::{
    check_commit, commit_check, opt_view, settle_slot, CommitCheck, EventKind, SlotUpdate,
};
use crate::files::contains_key;
use crate::text::views;

verus! {

/// The commit being saved, by the plain values the decisions read.
pub struct SaveCommit {
    pub stream_id: String,
    pub cid: String,
    /// The commit's previous commit, if it names one, or the reason why it
    /// could not be read.
    pub prev: Result<Option<String>, String>,
    pub kind: EventKind,
    pub is_genesis: bool,
}

/// Where a save stands.
pub enum SaveState {
    /// Nothing has been done.
    Start(SaveCommit),
    /// The stream's slot is being read from the store.
    AwaitSlot(SaveCommit),
    /// The stream's commits are being loaded.
    AwaitCommits(SaveCommit),
    /// The stream state is being computed; the flag tells whether the commit
    /// was appended (or was already known).
    AwaitState(SaveCommit, bool),
    /// The commit's signature is being verified; the slot's new record waits.
    AwaitSignature(SlotUpdate),
    /// The slot's new record is being stored.
    AwaitStore(SlotUpdate),
    /// The commit is being uploaded.
    AwaitUpload,
    /// The save is over; the last computed state is the answer.
    Done,
    /// The save failed.
    Failed,
}

/// The outcome of the piece of outside work that was asked for.
pub enum SaveInput {
    /// The save begins.
    Begin,
    /// The store holds the slot with this tip, or holds no slot (or could not
    /// be read).
    Slot(Option<String>),
    /// The stream's commits, oldest first.
    Commits(Vec<String>),
    /// The computed state's model and controllers.
    State(String, Vec<String>),
    /// The signature was verified.
    Verified,
    /// The slot was stored.
    Stored,
    /// The commit was uploaded.
    Uploaded,
}

/// The next piece of outside work.
pub enum SaveAction {
    /// Read the stream's slot from the store.
    LoadSlot,
    /// Load the stream's commits up to this tip.
    LoadCommits(String),
    /// Compute the stream state from these commits.
    ComputeState(Vec<String>),
    /// Verify the commit's signature for this model.
    VerifySignature(String),
    /// Store this record in the stream's slot.
    StoreSlot(SlotUpdate),
    /// Upload the commit.
    Upload,
    /// Answer with the last computed state.
    Finish,
    /// Answer with this error.
    Fail(AppError),
}

/// The step taken once the stream's commits are known.
pub open spec fn applies_commits(
    c: SaveCommit,
    commits: Seq<Seq<char>>,
    next: SaveState,
    action: SaveAction,
) -> bool {
    match c.prev {
        Ok(prev) => match commit_check(commits, c.cid@, opt_view(prev)) {
            Some(CommitCheck::AlreadyApplied) => next == SaveState::AwaitState(c, false) && (
            action matches SaveAction::ComputeState(v) && views(v@) == commits),
            Some(CommitCheck::Append) => next == SaveState::AwaitState(c, true) && (
            action matches SaveAction::ComputeState(v) && views(v@) == commits.push(c.cid@)),
            None => next is Failed && (action matches SaveAction::Fail(e) && e is NoPrevCommitFound),
        },
        Err(reason) => if commits.contains(c.cid@) {
            next == SaveState::AwaitState(c, false) && (action matches SaveAction::ComputeState(v)
                && views(v@) == commits)
        } else {
            next is Failed && (action matches SaveAction::Fail(AppError::Any(m)) && m@ == reason@)
        },
    }
}

/// One step of a save: from `state`, on `input`, to `next`, asking for
/// `action`.
pub open spec fn save_transition(
    state: SaveState,
    input: SaveInput,
    next: SaveState,
    action: SaveAction,
) -> bool {
    match (state, input) {
        (SaveState::Start(c), SaveInput::Begin) => if c.kind == EventKind::Anchor {
            next is Failed && (action matches SaveAction::Fail(e) && e is AnchorCommitUnsupported)
        } else {
            next == SaveState::AwaitSlot(c) && action is LoadSlot
        },
        (SaveState::AwaitSlot(c), SaveInput::Slot(Some(tip))) => next == SaveState::AwaitCommits(c)
            && action == SaveAction::LoadCommits(tip),
        (SaveState::AwaitSlot(c), SaveInput::Slot(None)) => if c.is_genesis {
            applies_commits(c, Seq::<Seq<char>>::empty(), next, action)
        } else {
            next is Failed && (action matches SaveAction::Fail(
                AppError::CommitStreamIdNotFoundOnStore(s),
            ) && s@ == c.stream_id@)
        },
        (SaveState::AwaitCommits(c), SaveInput::Commits(v)) => applies_commits(
            c,
            views(v@),
            next,
            action,
        ),
        (SaveState::AwaitState(c, appended), SaveInput::State(model, controllers)) => if appended {
            (next matches SaveState::AwaitSignature(u) && u.model == Some(model) && u.tip == c.cid
                && (controllers@.len() == 0 ==> u.account is None) && (controllers@.len() > 0 ==> (
            u.account matches Some(a) && a@ == controllers@[0]@))) && action
                == SaveAction::VerifySignature(model)
        } else {
            next is Done && action is Finish
        },
        (SaveState::AwaitSignature(u), SaveInput::Verified) => next == SaveState::AwaitStore(u)
            && action == SaveAction::StoreSlot(u),
        (SaveState::AwaitStore(_), SaveInput::Stored) => next is AwaitUpload && action is Upload,
        (SaveState::AwaitUpload, SaveInput::Uploaded) => next is Done && action is Finish,
        _ => next is Failed && (action matches SaveAction::Fail(e) && e is Any),
    }
}

impl Clone for SlotUpdate {
    fn clone(&self) -> (res: Self)
        ensures
            res == *self,
    {
        SlotUpdate { model: self.model.clone(), account: self.account.clone(), tip: self.tip.clone() }
    }
}

/// The step once the stream's commits are known.
fn apply_commits(c: SaveCommit, commits: Vec<String>) -> (res: (SaveState, SaveAction))
    ensures
        applies_commits(c, views(commits@), res.0, res.1),
{
    let prev = match &c.prev {
        Ok(p) => p.clone(),
        Err(reason) => {
            if contains_key(&commits, &c.cid) {
                return (SaveState::AwaitState(c, false), SaveAction::ComputeState(commits));
            }
            let m = reason.clone();
            return (SaveState::Failed, SaveAction::Fail(AppError::Any(m)));
        },
    };
    match check_commit(&commits, &c.cid, &prev) {
        Ok(CommitCheck::AlreadyApplied) => (SaveState::AwaitState(c, false), SaveAction::ComputeState(commits)),
        Ok(CommitCheck::Append) => {
            let mut all = commits;
            let ghost before = views(all@);
            all.push(c.cid.clone());
            assert(views(all@) =~= before.push(c.cid@));
            (SaveState::AwaitState(c, true), SaveAction::ComputeState(all))
        },
        Err(e) => (SaveState::Failed, SaveAction::Fail(e)),
    }
}

impl SaveState {
    /// Starts the save of a commit.
    pub fn new(commit: SaveCommit) -> (res: SaveState)
        ensures
            res == SaveState::Start(commit),
    {
        SaveState::Start(commit)
    }

    /// One step of the save: anchor commits are refused; a stream the store
    /// does not hold can only be started by a genesis commit; a known commit
    /// is answered with the current state and changes nothing; a commit whose
    /// previous commit is unknown, or cannot be read, is refused; an appended commit is verified,
    /// recorded in the slot with the stream's model, first controller and the
    /// commit as tip, and uploaded. An input that does not answer the work
    /// asked for fails the save.
    pub fn step(self, input: SaveInput) -> (res: (SaveState, SaveAction))
        ensures
            save_transition(self, input, res.0, res.1),
    {
        match (self, input) {
            (SaveState::Start(c), SaveInput::Begin) => {
                if c.kind == EventKind::Anchor {
                    (SaveState::Failed, SaveAction::Fail(AppError::AnchorCommitUnsupported))
                } else {
                    (SaveState::AwaitSlot(c), SaveAction::LoadSlot)
                }
            },
            (SaveState::AwaitSlot(c), SaveInput::Slot(Some(tip))) => (
                SaveState::AwaitCommits(c),
                SaveAction::LoadCommits(tip),
            ),
            (SaveState::AwaitSlot(c), SaveInput::Slot(None)) => {
                if c.is_genesis {
                    let ghost empty = Seq::<Seq<char>>::empty();
                    let commits: Vec<String> = Vec::new();
                    assert(views(commits@) =~= empty);
                    apply_commits(c, commits)
                } else {
                    let id = c.stream_id.clone();
                    (SaveState::Failed, SaveAction::Fail(AppError::CommitStreamIdNotFoundOnStore(id)))
                }
            },
            (SaveState::AwaitCommits(c), SaveInput::Commits(v)) => apply_commits(c, v),
            (SaveState::AwaitState(c, appended), SaveInput::State(model, controllers)) => {
                if appended {
                    let u = settle_slot(&controllers, model.clone(), c.cid.clone());
                    (SaveState::AwaitSignature(u), SaveAction::VerifySignature(model))
                } else {
                    (SaveState::Done, SaveAction::Finish)
                }
            },
            (SaveState::AwaitSignature(u), SaveInput::Verified) => {
                let stored = u.clone();
                (SaveState::AwaitStore(u), SaveAction::StoreSlot(stored))
            },
            (SaveState::AwaitStore(_), SaveInput::Stored) => (SaveState::AwaitUpload, SaveAction::Upload),
            (SaveState::AwaitUpload, SaveInput::Uploaded) => (SaveState::Done, SaveAction::Finish),
            (_, _) => (
                SaveState::Failed,
                SaveAction::Fail(AppError::Any(String::from_str("unexpected step of a commit save"))),
            ),
        }
    }
}

/// A slot is stored only right after the commit's signature was verified.
pub proof fn lemma_store_only_after_verification(
    state: SaveState,
    input: SaveInput,
    next: SaveState,
    action: SaveAction,
)
    requires
        save_transition(state, input, next, action),
        action is StoreSlot,
    ensures
        state is AwaitSignature,
        input is Verified,
{
}

/// A commit that the stream already has is answered with the stream's state
/// and stores and uploads nothing.
pub proof fn lemma_known_commit_changes_nothing(
    c: SaveCommit,
    commits: Vec<String>,
    mid: SaveState,
    a1: SaveAction,
    model: String,
    controllers: Vec<String>,
    last: SaveState,
    a2: SaveAction,
)
    requires
        views(commits@).contains(c.cid@),
        save_transition(SaveState::AwaitCommits(c), SaveInput::Commits(commits), mid, a1),
        save_transition(mid, SaveInput::State(model, controllers), last, a2),
    ensures
        a1 matches SaveAction::ComputeState(v) && views(v@) == views(commits@),
        last is Done,
        a2 is Finish,
{
}

/// The record stored for an appended commit holds the stream's model, its
/// first controller as account, and the commit as tip.
pub proof fn lemma_stored_record(
    c: SaveCommit,
    model: String,
    controllers: Vec<String>,
    next: SaveState,
    action: SaveAction,
)
    requires
        save_transition(SaveState::AwaitState(c, true), SaveInput::State(model, controllers), next, action),
    ensures
        next matches SaveState::AwaitSignature(u) && u.tip == c.cid && u.model == Some(model),
        controllers@.len() > 0 ==> (next matches SaveState::AwaitSignature(u) && (u.account matches Some(
            a,
        ) && a@ == controllers@[0]@)),
{
}

/// An anchor commit is refused at once.
pub proof fn lemma_anchor_refused(c: SaveCommit, next: SaveState, action: SaveAction)
    requires
        c.kind == EventKind::Anchor,
        save_transition(SaveState::Start(c), SaveInput::Begin, next, action),
    ensures
        next is Failed,
        action matches SaveAction::Fail(e) && e is AnchorCommitUnsupported,
{
}

} // verus!
