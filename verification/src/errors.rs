//! Errors of file loading, of the index file and folder rules, and of the
//! relayer's requests, each with its text and, for requests, its HTTP status.

use vstd::prelude::*;
use vstd::string::*;
use crate::ids::{uuid_hyphenated, uuid_text};

verus! {

/// Errors raised while resolving a file.
#[derive(Debug)]
pub enum FileError {
    NoControllerError,
    IndexFileWithIdNotFound(String),
    IndexFileNotFound,
}

/// The text of a `FileError`.
pub open spec fn file_error_text(e: FileError) -> Seq<char> {
    match e {
        FileError::NoControllerError => "No Controller"@,
        FileError::IndexFileWithIdNotFound(content_id) => "index file with contentId "@
            + content_id@ + " not found"@,
        FileError::IndexFileNotFound => "Index file not found"@,
    }
}

impl FileError {
    /// The human-readable description of this error.
    pub fn message(&self) -> (res: String)
        ensures
            res@ == file_error_text(*self),
    {
        match self {
            FileError::NoControllerError => String::from_str("No Controller"),
            FileError::IndexFileWithIdNotFound(content_id) => String::from_str(
                "index file with contentId ",
            ).concat(content_id.as_str()).concat(" not found"),
            FileError::IndexFileNotFound => String::from_str("Index file not found"),
        }
    }
}

/// Errors of an index file's rules.
#[derive(Debug, Clone, Copy, PartialEq, Eq, Structural)]
pub enum IndexFileError {
    FileTypeUnchangeable,
    LinkedModelNotInApp,
}

/// The text of an `IndexFileError`.
pub open spec fn index_file_error_text(e: IndexFileError) -> Seq<char> {
    match e {
        IndexFileError::FileTypeUnchangeable => "file type cannot be changed"@,
        IndexFileError::LinkedModelNotInApp => "linked model not in same app"@,
    }
}

impl IndexFileError {
    /// The human-readable description of this error.
    pub fn message(&self) -> (res: String)
        ensures
            res@ == index_file_error_text(*self),
    {
        match self {
            IndexFileError::FileTypeUnchangeable => String::from_str("file type cannot be changed"),
            IndexFileError::LinkedModelNotInApp => String::from_str("linked model not in same app"),
        }
    }
}

/// Errors of an index folder's rules.
#[derive(Debug, Clone, Copy, PartialEq, Eq, Structural)]
pub enum IndexFolderError {
    AccessControlMissing,
}

/// The text of an `IndexFolderError`.
pub open spec fn index_folder_error_text(e: IndexFolderError) -> Seq<char> {
    match e {
        IndexFolderError::AccessControlMissing => "access control is missing for folder"@,
    }
}

impl IndexFolderError {
    /// The human-readable description of this error.
    pub fn message(&self) -> (res: String)
        ensures
            res@ == index_folder_error_text(*self),
    {
        match self {
            IndexFolderError::AccessControlMissing => String::from_str(
                "access control is missing for folder",
            ),
        }
    }
}

/// Errors that a request to the relayer answers with. Stream and model ids are
/// held as their text, the dapp id as the value of its UUID.
#[derive(Debug)]
pub enum AppError {
    StreamWithModelNotInDapp(String, String, u128),
    AnchorCommitUnsupported,
    NoPrevCommitFound,
    CommitStreamIdNotFoundOnStore(String),
    InvalidQuery,
    BadQuery(String),
    BadJson(String),
    Any(String),
}

/// The text of an `AppError`.
pub open spec fn app_error_text(e: AppError) -> Seq<char> {
    match e {
        AppError::AnchorCommitUnsupported => "anchor commit not supported"@,
        AppError::NoPrevCommitFound => "donot have previous commit"@,
        AppError::CommitStreamIdNotFoundOnStore(stream_id) => "publishing commit with stream_id "@
            + stream_id@ + " not found in store"@,
        AppError::StreamWithModelNotInDapp(stream_id, model_id, dapp_id) => "stream_id "@
            + stream_id@ + " with model_id "@ + model_id@ + " not belong to dapp "@
            + uuid_hyphenated(dapp_id),
        AppError::InvalidQuery => "invalid query"@,
        AppError::BadQuery(msg) => "bad query: "@ + msg@,
        AppError::BadJson(msg) => "bad json: "@ + msg@,
        AppError::Any(msg) => msg@,
    }
}

/// The HTTP status of an `AppError`: every refused request is answered as a
/// bad request, as the API documents for each endpoint.
pub open spec fn app_error_status(e: AppError) -> u16 {
    400
}

impl AppError {
    /// Wraps the text of an unexpected failure.
    pub fn from_message(msg: String) -> (res: AppError)
        ensures
            res matches AppError::Any(m) && m@ == msg@,
    {
        AppError::Any(msg)
    }

    /// The HTTP status code that answers this error: 400 (bad request), for
    /// every kind of error.
    pub fn status_code(&self) -> (res: u16)
        ensures
            res == app_error_status(*self),
            res == 400,
    {
        400
    }

    /// The human-readable description of this error.
    pub fn message(&self) -> (res: String)
        ensures
            res@ == app_error_text(*self),
    {
        match self {
            AppError::AnchorCommitUnsupported => String::from_str("anchor commit not supported"),
            AppError::NoPrevCommitFound => String::from_str("donot have previous commit"),
            AppError::CommitStreamIdNotFoundOnStore(stream_id) => String::from_str(
                "publishing commit with stream_id ",
            ).concat(stream_id.as_str()).concat(" not found in store"),
            AppError::StreamWithModelNotInDapp(stream_id, model_id, dapp_id) => {
                let dapp = uuid_text(*dapp_id);
                String::from_str("stream_id ").concat(stream_id.as_str()).concat(
                    " with model_id ",
                ).concat(model_id.as_str()).concat(" not belong to dapp ").concat(dapp.as_str())
            },
            AppError::InvalidQuery => String::from_str("invalid query"),
            AppError::BadQuery(msg) => String::from_str("bad query: ").concat(msg.as_str()),
            AppError::BadJson(msg) => String::from_str("bad json: ").concat(msg.as_str()),
            AppError::Any(msg) => msg.clone(),
        }
    }
}

} // verus!
