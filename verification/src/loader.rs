//! Loading: JSON documents as assets, and what a poll of the assets means for
//! the game.
use vstd::prelude::*;
use crate::error::LevelError;
use crate::json::{json_text, Json, JsonTree};
use crate::phase::{Event, EventModel};

verus! {

/// A JSON document that was loaded as an asset.
#[derive(Debug, PartialEq, Eq)]
pub struct JsonFile(pub Json);

impl View for JsonFile {
    type V = JsonTree;

    open spec fn view(&self) -> JsonTree {
        self.0@
    }
}

impl JsonFile {
    /// Reads a document from the bytes of a file.
    pub fn load(bytes: &[u8]) -> (file: Result<JsonFile, LevelError>)
        ensures
            match file {
                Ok(file) => json_text(bytes@) == Some(file@),
                Err(error) => json_text(bytes@) is None && error == LevelError::MalformedDocument,
            },
    {
        match Json::parse(bytes) {
            Some(json) => Ok(JsonFile(json)),
            None => Err(LevelError::MalformedDocument),
        }
    }
}

/// How far a group of assets has come, taken together.
#[derive(Clone, Copy, Debug, PartialEq, Eq, Structural)]
pub enum LoadStatus {
    NotLoaded,
    Loading,
    Loaded,
    Failed,
}

/// The event that a poll stands for.
pub open spec fn poll_event(status: LoadStatus, manifest: Option<JsonTree>) -> EventModel {
    match status {
        LoadStatus::Failed => EventModel::AssetsFailed,
        LoadStatus::Loaded => match manifest {
            Some(manifest) => EventModel::AssetsLoaded(manifest),
            None => EventModel::AssetsFailed,
        },
        _ => EventModel::AssetsPending,
    }
}

/// Turns one poll of the assets into an event for the game: loading goes on
/// until every asset is loaded, and has failed once one asset has failed or
/// the level manifest is not among the loaded ones.
pub fn update(status: LoadStatus, manifest: Option<JsonFile>) -> (event: Event)
    ensures
        event@ == poll_event(
            status,
            match manifest {
                Some(file) => Some(file@),
                None => None,
            },
        ),
{
    match status {
        LoadStatus::Failed => Event::AssetsFailed,
        LoadStatus::Loaded => match manifest {
            Some(file) => Event::AssetsLoaded(file),
            None => Event::AssetsFailed,
        },
        _ => Event::AssetsPending,
    }
}

} // verus!
