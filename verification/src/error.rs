//! The ways in which loading a level can fail.
use vstd::prelude::*;

verus! {

/// Why a document, a level or the loading phase was refused.
#[derive(Clone, Copy, Debug, PartialEq, Eq, Structural)]
pub enum LevelError {
    /// A document is not JSON, lacks a required field, or has a field of the
    /// wrong shape.
    MalformedDocument,
    /// A document uses an embedded tileset or a layer that is not a tile layer.
    UnsupportedFeature,
    /// A tile identifier belongs to no tileset, or a level names a successor
    /// that the registry does not hold.
    UnresolvedReference,
    /// Two tilesets of one map claim the same tile identifier.
    OverlappingTilesetRanges,
    /// A required asset could not be loaded.
    AssetLoadFailure,
}

impl LevelError {
    /// A one-line description of the error.
    pub fn message(&self) -> (text: &'static str)
        ensures
            text@ == self.message_text(),
    {
        match self {
            LevelError::MalformedDocument => "malformed document",
            LevelError::UnsupportedFeature => "unsupported feature",
            LevelError::UnresolvedReference => "unresolved reference",
            LevelError::OverlappingTilesetRanges => "overlapping tileset ranges",
            LevelError::AssetLoadFailure => "asset load failure",
        }
    }

    /// The text of [`LevelError::message`].
    pub open spec fn message_text(&self) -> Seq<char> {
        match self {
            LevelError::MalformedDocument => "malformed document"@,
            LevelError::UnsupportedFeature => "unsupported feature"@,
            LevelError::UnresolvedReference => "unresolved reference"@,
            LevelError::OverlappingTilesetRanges => "overlapping tileset ranges"@,
            LevelError::AssetLoadFailure => "asset load failure"@,
        }
    }
}

} // verus!
