//! Map and tileset documents.
//!
//! Each document type has a mathematical model, its view, over which the
//! contracts of the library are stated.
use vstd::prelude::*;
use crate::json::{Json, JsonTree};

verus! {

/// A tile layer: a grid of global tile identifiers in row-major order, where 0
/// marks an empty cell.
#[derive(Debug, PartialEq, Eq)]
pub struct TiledTileLayer {
    pub id: u32,
    pub name: String,
    pub data: Vec<u32>,
    pub height: u32,
    pub width: u32,
    pub opacity: u32,
    pub visible: bool,
    pub x: u32,
    pub y: u32,
}

/// The model of a [`TiledTileLayer`].
pub struct TileLayer {
    pub id: u32,
    pub name: Seq<char>,
    pub data: Seq<u32>,
    pub height: u32,
    pub width: u32,
    pub opacity: u32,
    pub visible: bool,
    pub x: u32,
    pub y: u32,
}

impl View for TiledTileLayer {
    type V = TileLayer;

    open spec fn view(&self) -> TileLayer {
        TileLayer {
            id: self.id,
            name: self.name@,
            data: self.data@,
            height: self.height,
            width: self.width,
            opacity: self.opacity,
            visible: self.visible,
            x: self.x,
            y: self.y,
        }
    }
}

/// A layer in a tile map.
#[derive(Debug, PartialEq, Eq)]
pub enum TiledLayer {
    TileLayer(TiledTileLayer),
    /// A layer of a kind that the library does not place.
    Unsupported,
}

/// The model of a [`TiledLayer`].
pub enum Layer {
    TileLayer(TileLayer),
    Unsupported,
}

impl View for TiledLayer {
    type V = Layer;

    open spec fn view(&self) -> Layer {
        match self {
            TiledLayer::TileLayer(layer) => Layer::TileLayer(layer@),
            TiledLayer::Unsupported => Layer::Unsupported,
        }
    }
}

/// A map's reference to a tileset.
#[derive(Debug, PartialEq, Eq)]
pub enum Tileset {
    /// A tileset kept in a document of its own.
    External { first_gid: u32, source: String },
    /// A tileset written out inside the map.
    Unsupported,
}

/// The model of a [`Tileset`].
pub enum TilesetRef {
    External { first_gid: u32, source: Seq<char> },
    Unsupported,
}

impl View for Tileset {
    type V = TilesetRef;

    open spec fn view(&self) -> TilesetRef {
        match self {
            Tileset::External { first_gid, source } => TilesetRef::External {
                first_gid: *first_gid,
                source: source@,
            },
            Tileset::Unsupported => TilesetRef::Unsupported,
        }
    }
}

/// A tiled map.
#[derive(Debug, PartialEq, Eq)]
pub struct TiledMap {
    pub height: u32,
    pub width: u32,
    pub layers: Vec<TiledLayer>,
    pub tile_height: u32,
    pub tile_width: u32,
    pub tilesets: Vec<Tileset>,
}

/// The model of a [`TiledMap`].
pub struct MapDocument {
    pub height: u32,
    pub width: u32,
    pub layers: Seq<Layer>,
    pub tile_height: u32,
    pub tile_width: u32,
    pub tilesets: Seq<TilesetRef>,
}

impl View for TiledMap {
    type V = MapDocument;

    open spec fn view(&self) -> MapDocument {
        MapDocument {
            height: self.height,
            width: self.width,
            layers: self.layers@.map_values(|layer: TiledLayer| layer@),
            tile_height: self.tile_height,
            tile_width: self.tile_width,
            tilesets: self.tilesets@.map_values(|tileset: Tileset| tileset@),
        }
    }
}

/// One named property of a tile.
#[derive(Clone, Debug, PartialEq, Eq)]
pub struct Property {
    pub name: String,
    pub value: Json,
}

/// The model of a [`Property`].
pub struct PropertyEntry {
    pub name: Seq<char>,
    pub value: JsonTree,
}

impl View for Property {
    type V = PropertyEntry;

    open spec fn view(&self) -> PropertyEntry {
        PropertyEntry { name: self.name@, value: self.value@ }
    }
}

/// The properties that a tileset gives to one of its tiles.
#[derive(Clone, Debug, PartialEq, Eq)]
pub struct TileProperties {
    pub id: u32,
    pub properties: Vec<Property>,
}

/// The model of a [`TileProperties`].
pub struct TileOverride {
    pub id: u32,
    pub properties: Seq<PropertyEntry>,
}

impl View for TileProperties {
    type V = TileOverride;

    open spec fn view(&self) -> TileOverride {
        TileOverride {
            id: self.id,
            properties: self.properties@.map_values(|property: Property| property@),
        }
    }
}

/// A tileset: an image cut into a grid of tiles of one size.
#[derive(Debug, PartialEq, Eq)]
pub struct TiledTileset {
    pub name: String,
    pub columns: u32,
    pub image: String,
    pub image_height: u32,
    pub image_width: u32,
    pub margin: u32,
    pub spacing: u32,
    pub tile_count: u32,
    pub tile_height: u32,
    pub tile_width: u32,
    pub tiles: Vec<TileProperties>,
}

/// The model of a [`TiledTileset`].
pub struct TilesetDescriptor {
    pub name: Seq<char>,
    pub columns: u32,
    pub image: Seq<char>,
    pub image_height: u32,
    pub image_width: u32,
    pub margin: u32,
    pub spacing: u32,
    pub tile_count: u32,
    pub tile_height: u32,
    pub tile_width: u32,
    pub tiles: Seq<TileOverride>,
}

impl View for TiledTileset {
    type V = TilesetDescriptor;

    open spec fn view(&self) -> TilesetDescriptor {
        TilesetDescriptor {
            name: self.name@,
            columns: self.columns,
            image: self.image@,
            image_height: self.image_height,
            image_width: self.image_width,
            margin: self.margin,
            spacing: self.spacing,
            tile_count: self.tile_count,
            tile_height: self.tile_height,
            tile_width: self.tile_width,
            tiles: self.tiles@.map_values(|tile: TileProperties| tile@),
        }
    }
}

} // verus!
