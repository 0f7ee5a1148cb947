//! The decisions of the relayer's requests and of its migration switch: which
//! form a stream is answered in, and how a request for several streams is
//! served.

use vstd::prelude::*;
use vstd::string::*;
use crate::errors::AppError;
use crate::text::views;
use crate::text::{comma_list_contains, split_commas, split_on};

verus! {

/// A request for one stream is answered with the raw stream state when its
/// format is `ceramic`, and with the file otherwise.
pub fn wants_ceramic_format(format: &Option<String>) -> (res: bool)
    ensures
        res == (format matches Some(f) && f@ == "ceramic"@),
{
    match format {
        Some(f) => *f == String::from_str("ceramic"),
        None => false,
    }
}

/// A request that names signals and a dapp asks for that dapp's index
/// folders: the model it names is replaced by the dapp's index folder model.
pub fn needs_index_folder_model(signal_count: usize, dapp_id: Option<u128>) -> (res: bool)
    ensures
        res == (signal_count > 0 && dapp_id is Some),
{
    signal_count > 0 && dapp_id.is_some()
}

/// How a request for several streams is served.
pub enum LoadStreamsRoute {
    ByModelId(String),
    ByStreamIds(Vec<String>, u128),
}

/// A request for several streams is served by model when it names a model,
/// else by the comma-separated stream ids of a dapp when it names both;
/// any other request is invalid.
pub fn route_load_streams(
    model_id: &Option<String>,
    stream_ids: &Option<String>,
    dapp_id: Option<u128>,
) -> (res: Result<LoadStreamsRoute, AppError>)
    ensures
        model_id matches Some(m) ==> (res matches Ok(LoadStreamsRoute::ByModelId(r)) && r@
            == m@),
        model_id is None && stream_ids is Some && dapp_id is Some ==> (res matches Ok(
            LoadStreamsRoute::ByStreamIds(ids, d),
        ) && views(ids@) == split_on(stream_ids->0@, ',') && d == dapp_id->0),
        model_id is None && (stream_ids is None || dapp_id is None) ==> (res matches Err(
            AppError::InvalidQuery,
        )),
{
    match model_id {
        Some(m) => Ok(LoadStreamsRoute::ByModelId(m.clone())),
        None => match (stream_ids, dapp_id) {
            (Some(ids), Some(d)) => {
                let pieces = split_commas(ids.as_str());
                Ok(LoadStreamsRoute::ByStreamIds(pieces, d))
            },
            _ => Err(AppError::InvalidQuery),
        },
    }
}

/// Whether the migration switch (the comma-separated list that the
/// environment gives, if any) asks for the stream store to be migrated.
pub fn migration_requested(switch: &Option<String>) -> (res: bool)
    ensures
        res == (switch matches Some(v) && split_on(v@, ',').contains("stream_store"@)),
{
    match switch {
        Some(v) => comma_list_contains(v.as_str(), "stream_store"),
        None => false,
    }
}

} // verus!
