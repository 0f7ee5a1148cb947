//! The decisions taken on a commit of a stream: whether it is anchored,
//! whether it is accepted given the stream's commits, and what the stream's
//! slot records once it is applied.

use vstd::prelude::*;
use vstd::string::*;
use crate::errors::AppError;
use crate::files::contains_key;
use crate::text::views;

verus! {

/// The kind of a commit: a signed data commit or an anchor commit.
#[derive(Debug, Clone, Copy, PartialEq, Eq, Structural)]
pub enum EventKind {
    Signed,
    Anchor,
}

/// Whether a commit is handed on to be anchored: only signed commits are.
pub fn anchor_requested(kind: EventKind) -> (res: bool)
    ensures
        res == (kind == EventKind::Signed),
{
    match kind {
        EventKind::Signed => true,
        EventKind::Anchor => false,
    }
}

/// What to do with a commit given the commits the stream already has.
#[derive(Debug, Clone, Copy, PartialEq, Eq, Structural)]
pub enum CommitCheck {
    AlreadyApplied,
    Append,
}

/// The check of a commit `cid` with previous commit `prev` against the
/// stream's `commits`: a known commit is already applied; an unknown one is
/// appended if it has no previous commit or its previous commit is known;
/// otherwise (`None`) it is refused.
pub open spec fn commit_check(
    commits: Seq<Seq<char>>,
    cid: Seq<char>,
    prev: Option<Seq<char>>,
) -> Option<CommitCheck> {
    if commits.contains(cid) {
        Some(CommitCheck::AlreadyApplied)
    } else {
        match prev {
            Some(p) => if commits.contains(p) {
                Some(CommitCheck::Append)
            } else {
                None
            },
            None => Some(CommitCheck::Append),
        }
    }
}

/// The optional view of a string.
pub open spec fn opt_view(o: Option<String>) -> Option<Seq<char>> {
    match o {
        Some(s) => Some(s@),
        None => None,
    }
}

/// Checks a commit against the commits the stream already has.
pub fn check_commit(commits: &Vec<String>, cid: &String, prev: &Option<String>) -> (res: Result<
    CommitCheck,
    AppError,
>)
    ensures
        match commit_check(views(commits@), cid@, opt_view(*prev)) {
            Some(c) => res == Ok::<CommitCheck, AppError>(c),
            None => res matches Err(AppError::NoPrevCommitFound),
        },
{
    if contains_key(commits, cid) {
        return Ok(CommitCheck::AlreadyApplied);
    }
    match prev {
        Some(p) => {
            if !contains_key(commits, p) {
                return Err(AppError::NoPrevCommitFound);
            }
        },
        None => {},
    }
    Ok(CommitCheck::Append)
}

/// A commit is judged by the stream's commits alone: a known commit is
/// already applied; an unknown one is appended when it names no previous
/// commit or names any of the stream's commits, wherever that stands; it is
/// refused only when the previous commit it names is not among them.
pub proof fn lemma_commit_check_by_membership(
    commits: Seq<Seq<char>>,
    cid: Seq<char>,
    prev: Option<Seq<char>>,
)
    ensures
        commits.contains(cid) ==> commit_check(commits, cid, prev) == Some(CommitCheck::AlreadyApplied),
        !commits.contains(cid) && prev is None ==> commit_check(commits, cid, prev) == Some(
            CommitCheck::Append,
        ),
        forall|k: int|
            0 <= k < commits.len() && !commits.contains(cid) && prev == Some(#[trigger] commits[k])
                ==> commit_check(commits, cid, prev) == Some(CommitCheck::Append),
        commit_check(commits, cid, prev) is None <==> (!commits.contains(cid) && (prev matches Some(
            p,
        ) && forall|k: int| 0 <= k < commits.len() ==> #[trigger] commits[k] != p)),
{
}

/// A commit that was appended is recognised when it is delivered again, so
/// saving a commit twice applies it once.
pub proof fn lemma_commit_redelivery(
    commits: Seq<Seq<char>>,
    cid: Seq<char>,
    prev: Option<Seq<char>>,
)
    ensures
        commit_check(commits.push(cid), cid, prev) == Some(CommitCheck::AlreadyApplied),
{
    assert(commits.push(cid)[commits.len() as int] == cid);
}

/// Once a commit is appended, a new commit that names it as previous is
/// appended after it.
pub proof fn lemma_commit_chain(
    commits: Seq<Seq<char>>,
    first: Seq<char>,
    next: Seq<char>,
)
    requires
        !commits.push(first).contains(next),
    ensures
        commit_check(commits.push(first), next, Some(first)) == Some(CommitCheck::Append),
{
    assert(commits.push(first)[commits.len() as int] == first);
}

/// The first controller of a stream, if it has one.
pub fn first_controller(controllers: &Vec<String>) -> (res: Option<String>)
    ensures
        controllers@.len() == 0 ==> res is None,
        controllers@.len() > 0 ==> (res matches Some(c) && c@ == controllers@[0]@),
{
    if controllers.len() == 0 {
        None
    } else {
        Some(controllers[0].clone())
    }
}

/// What a stream's slot records once a commit is applied.
pub struct SlotUpdate {
    pub model: Option<String>,
    pub account: Option<String>,
    pub tip: String,
}

/// The slot's record after a commit: the stream's model, its first
/// controller as the account, and the commit as the tip.
pub fn settle_slot(controllers: &Vec<String>, model: String, tip: String) -> (res: SlotUpdate)
    ensures
        res.model == Some(model),
        res.tip == tip,
        controllers@.len() == 0 ==> res.account is None,
        controllers@.len() > 0 ==> (res.account matches Some(c) && c@ == controllers@[0]@),
{
    SlotUpdate { model: Some(model), account: first_controller(controllers), tip }
}

/// The account of a migrated stream: its first controller, which it must
/// have.
pub fn migrated_account(controllers: &Vec<String>) -> (res: Result<String, AppError>)
    ensures
        controllers@.len() == 0 ==> (res matches Err(AppError::Any(m)) && m@
            == "no controllers"@),
        controllers@.len() > 0 ==> (res matches Ok(c) && c@ == controllers@[0]@),
{
    match first_controller(controllers) {
        Some(c) => Ok(c),
        None => Err(AppError::Any(String::from_str("no controllers"))),
    }
}

} // verus!
