//! From JSON values to map, tileset and level documents.
//!
//! A document is an object; a field that is required must be present and have
//! the shape that its type asks for, and members that the library does not
//! know are passed over. A document that breaks these rules is malformed. A
//! map that holds an embedded tileset, or a layer that is not a tile layer, is
//! refused as unsupported. Where a map has several faults, the first one in
//! reading order is reported: the map's own numbers, then its layers one by
//! one, then its tilesets one by one, then whether each layer fits the map.
use vstd::prelude::*;
use crate::error::LevelError;
use crate::json::{trees_of, Json, JsonTree};
use crate::tiled::{
    Layer, MapDocument, PropertyEntry, TileLayer, TileOverride, TiledLayer, TiledMap,
    TiledTileLayer, TiledTileset, TileProperties, Property, Tileset, TilesetDescriptor,
    TilesetRef,
};

verus! {

impl JsonTree {
    /// Member `key` as a number in `0 ..= u32::MAX`.
    pub open spec fn u32_at(self, key: Seq<char>) -> Option<u32> {
        match self.member(key) {
            Some(value) => value.as_u32(),
            None => None,
        }
    }

    /// Member `key` as a string.
    pub open spec fn text_at(self, key: Seq<char>) -> Option<Seq<char>> {
        match self.member(key) {
            Some(value) => value.as_text(),
            None => None,
        }
    }

    /// Member `key` as a truth value.
    pub open spec fn bool_at(self, key: Seq<char>) -> Option<bool> {
        match self.member(key) {
            Some(value) => value.as_bool(),
            None => None,
        }
    }

    /// Member `key` as an array.
    pub open spec fn array_at(self, key: Seq<char>) -> Option<Seq<JsonTree>> {
        match self.member(key) {
            Some(value) => value.as_array(),
            None => None,
        }
    }
}

impl Json {
    /// Member `key` as a number in `0 ..= u32::MAX`.
    pub fn u32_at(&self, key: &str) -> (number: Option<u32>)
        ensures
            number == self@.u32_at(key@),
    {
        match self.member(key) {
            Some(value) => value.as_u32(),
            None => None,
        }
    }

    /// Member `key` as a string.
    pub fn text_at(&self, key: &str) -> (text: Option<String>)
        ensures
            match text {
                Some(text) => self@.text_at(key@) == Some(text@),
                None => self@.text_at(key@) is None,
            },
    {
        match self.member(key) {
            Some(value) => match value.as_text() {
                Some(text) => Some(text.clone()),
                None => None,
            },
            None => None,
        }
    }

    /// Member `key` as a truth value.
    pub fn bool_at(&self, key: &str) -> (truth: Option<bool>)
        ensures
            truth == self@.bool_at(key@),
    {
        match self.member(key) {
            Some(value) => value.as_bool(),
            None => None,
        }
    }

    /// Member `key` as an array.
    pub fn array_at(&self, key: &str) -> (items: Option<&Vec<Json>>)
        ensures
            match items {
                Some(items) => self@.array_at(key@) == Some(trees_of(items@)),
                None => self@.array_at(key@) is None,
            },
    {
        match self.member(key) {
            Some(value) => value.as_array(),
            None => None,
        }
    }
}

/// The numbers of a list whose items are all numbers in `0 ..= u32::MAX`.
pub open spec fn u32s_of(items: Seq<JsonTree>) -> Option<Seq<u32>> {
    if forall|i: int| 0 <= i < items.len() ==> (#[trigger] items[i]).as_u32() is Some {
        Some(Seq::new(items.len(), |i: int| items[i].as_u32()->0))
    } else {
        None
    }
}

/// The numbers of a list whose items are all numbers in `0 ..= u32::MAX`.
pub fn read_u32s(items: &Vec<Json>) -> (numbers: Option<Vec<u32>>)
    ensures
        match numbers {
            Some(numbers) => u32s_of(trees_of(items@)) == Some(numbers@),
            None => u32s_of(trees_of(items@)) is None,
        },
{
    let mut numbers: Vec<u32> = Vec::new();
    let mut i: usize = 0;
    while i < items.len()
        invariant
            i <= items@.len(),
            numbers@.len() == i,
            forall|k: int|
                0 <= k < i ==> (#[trigger] trees_of(items@)[k]).as_u32() is Some && numbers@[k] == trees_of(
                    items@,
                )[k].as_u32()->0,
        decreases items@.len() - i,
    {
        match items[i].as_u32() {
            Some(number) => {
                numbers.push(number);
            },
            None => {
                assert(trees_of(items@)[i as int].as_u32() is None);
                return None;
            },
        }
        i += 1;
    }
    assert(numbers@ =~= u32s_of(trees_of(items@))->0);
    Some(numbers)
}

/// The tile layer that an object describes.
pub open spec fn tile_layer_of(tree: JsonTree) -> Option<TileLayer> {
    if tree.u32_at("id"@) is Some && tree.text_at("name"@) is Some && tree.array_at("data"@) is Some && u32s_of(
        tree.array_at("data"@)->0,
    ) is Some && tree.u32_at("height"@) is Some && tree.u32_at("width"@) is Some && tree.u32_at("opacity"@) is Some
        && tree.bool_at("visible"@) is Some && tree.u32_at("x"@) is Some && tree.u32_at("y"@) is Some {
        Some(
            TileLayer {
                id: tree.u32_at("id"@)->0,
                name: tree.text_at("name"@)->0,
                data: u32s_of(tree.array_at("data"@)->0)->0,
                height: tree.u32_at("height"@)->0,
                width: tree.u32_at("width"@)->0,
                opacity: tree.u32_at("opacity"@)->0,
                visible: tree.bool_at("visible"@)->0,
                x: tree.u32_at("x"@)->0,
                y: tree.u32_at("y"@)->0,
            },
        )
    } else {
        None
    }
}

/// The tile layer that an object describes.
pub fn read_tile_layer(json: &Json) -> (layer: Option<TiledTileLayer>)
    ensures
        match layer {
            Some(layer) => tile_layer_of(json@) == Some(layer@),
            None => tile_layer_of(json@) is None,
        },
{
    let id = match json.u32_at("id") {
        Some(id) => id,
        None => {
            return None;
        },
    };
    let name = match json.text_at("name") {
        Some(name) => name,
        None => {
            return None;
        },
    };
    let items = match json.array_at("data") {
        Some(items) => items,
        None => {
            return None;
        },
    };
    let data = match read_u32s(items) {
        Some(data) => data,
        None => {
            return None;
        },
    };
    let height = match json.u32_at("height") {
        Some(height) => height,
        None => {
            return None;
        },
    };
    let width = match json.u32_at("width") {
        Some(width) => width,
        None => {
            return None;
        },
    };
    let opacity = match json.u32_at("opacity") {
        Some(opacity) => opacity,
        None => {
            return None;
        },
    };
    let visible = match json.bool_at("visible") {
        Some(visible) => visible,
        None => {
            return None;
        },
    };
    let x = match json.u32_at("x") {
        Some(x) => x,
        None => {
            return None;
        },
    };
    let y = match json.u32_at("y") {
        Some(y) => y,
        None => {
            return None;
        },
    };
    Some(TiledTileLayer { id, name, data, height, width, opacity, visible, x, y })
}

/// Whether an object describes a layer of another kind than a tile layer: it
/// names a type other than `tilelayer`, or it holds objects.
pub open spec fn is_foreign_layer(tree: JsonTree) -> bool {
    (tree.text_at("type"@) is Some && tree.text_at("type"@)->0 != "tilelayer"@) || tree.member("objects"@) is Some
}

/// The layer that a value describes.
pub open spec fn layer_of(tree: JsonTree) -> Result<Layer, LevelError> {
    if !(tree is Object) {
        Err(LevelError::MalformedDocument)
    } else if is_foreign_layer(tree) {
        Err(LevelError::UnsupportedFeature)
    } else {
        match tile_layer_of(tree) {
            Some(layer) => Ok(Layer::TileLayer(layer)),
            None => Err(LevelError::MalformedDocument),
        }
    }
}

/// The layer that a value describes.
pub fn read_layer(json: &Json) -> (layer: Result<TiledLayer, LevelError>)
    ensures
        match layer {
            Ok(layer) => layer_of(json@) matches Ok(model) && model == layer@,
            Err(error) => layer_of(json@) matches Err(reason) && reason == error,
        },
{
    if !json.is_object() {
        return Err(LevelError::MalformedDocument);
    }
    let foreign_type = match json.text_at("type") {
        Some(kind) => !crate::json::str_eq(kind.as_str(), "tilelayer"),
        None => false,
    };
    if foreign_type || json.member("objects").is_some() {
        return Err(LevelError::UnsupportedFeature);
    }
    match read_tile_layer(json) {
        Some(layer) => Ok(TiledLayer::TileLayer(layer)),
        None => Err(LevelError::MalformedDocument),
    }
}

/// Whether an object describes a tileset in place, where a reference to a
/// tileset's document is expected: it names no source, but a tile count.
pub open spec fn is_embedded_tileset(tree: JsonTree) -> bool {
    tree.member("source"@) is None && tree.member("tilecount"@) is Some
}

/// The tileset reference that a value describes.
pub open spec fn tileset_ref_of(tree: JsonTree) -> Result<TilesetRef, LevelError> {
    if !(tree is Object) {
        Err(LevelError::MalformedDocument)
    } else if is_embedded_tileset(tree) {
        Err(LevelError::UnsupportedFeature)
    } else if tree.u32_at("firstgid"@) is Some && tree.text_at("source"@) is Some {
        Ok(TilesetRef::External { first_gid: tree.u32_at("firstgid"@)->0, source: tree.text_at("source"@)->0 })
    } else {
        Err(LevelError::MalformedDocument)
    }
}

/// The tileset reference that a value describes.
pub fn read_tileset_ref(json: &Json) -> (tileset: Result<Tileset, LevelError>)
    ensures
        match tileset {
            Ok(tileset) => tileset_ref_of(json@) matches Ok(model) && model == tileset@,
            Err(error) => tileset_ref_of(json@) matches Err(reason) && reason == error,
        },
{
    if !json.is_object() {
        return Err(LevelError::MalformedDocument);
    }
    if json.member("source").is_none() && json.member("tilecount").is_some() {
        return Err(LevelError::UnsupportedFeature);
    }
    let first_gid = match json.u32_at("firstgid") {
        Some(first_gid) => first_gid,
        None => {
            return Err(LevelError::MalformedDocument);
        },
    };
    let source = match json.text_at("source") {
        Some(source) => source,
        None => {
            return Err(LevelError::MalformedDocument);
        },
    };
    Ok(Tileset::External { first_gid, source })
}

/// The layers that the first `count` of `items` describe, or the error of the
/// first item that has one.
pub open spec fn layers_of(items: Seq<JsonTree>, count: nat) -> Result<Seq<Layer>, LevelError>
    decreases count,
{
    if count == 0 {
        Ok(Seq::empty())
    } else {
        match layers_of(items, (count - 1) as nat) {
            Err(error) => Err(error),
            Ok(layers) => match layer_of(items[count - 1]) {
                Err(error) => Err(error),
                Ok(layer) => Ok(layers.push(layer)),
            },
        }
    }
}

/// The tileset references that the first `count` of `items` describe, or the
/// error of the first item that has one.
pub open spec fn tileset_refs_of(items: Seq<JsonTree>, count: nat) -> Result<Seq<TilesetRef>, LevelError>
    decreases count,
{
    if count == 0 {
        Ok(Seq::empty())
    } else {
        match tileset_refs_of(items, (count - 1) as nat) {
            Err(error) => Err(error),
            Ok(tilesets) => match tileset_ref_of(items[count - 1]) {
                Err(error) => Err(error),
                Ok(tileset) => Ok(tilesets.push(tileset)),
            },
        }
    }
}

/// Once an item fails, the list fails with that item's error.
pub proof fn layers_error_stays(items: Seq<JsonTree>, failed: nat, count: nat)
    requires
        failed <= count,
        layers_of(items, failed) is Err,
    ensures
        layers_of(items, count) == layers_of(items, failed),
    decreases count,
{
    if failed < count {
        layers_error_stays(items, failed, (count - 1) as nat);
    }
}

/// Once an item fails, the list fails with that item's error.
pub proof fn tileset_refs_error_stays(items: Seq<JsonTree>, failed: nat, count: nat)
    requires
        failed <= count,
        tileset_refs_of(items, failed) is Err,
    ensures
        tileset_refs_of(items, count) == tileset_refs_of(items, failed),
    decreases count,
{
    if failed < count {
        tileset_refs_error_stays(items, failed, (count - 1) as nat);
    }
}

/// The models of a list of layers.
pub open spec fn layer_models(layers: Seq<TiledLayer>) -> Seq<Layer> {
    layers.map_values(|layer: TiledLayer| layer@)
}

/// The models of a list of tileset references.
pub open spec fn tileset_ref_models(tilesets: Seq<Tileset>) -> Seq<TilesetRef> {
    tilesets.map_values(|tileset: Tileset| tileset@)
}

/// The layers that a list of values describes.
pub fn read_layers(items: &Vec<Json>) -> (layers: Result<Vec<TiledLayer>, LevelError>)
    ensures
        match layers {
            Ok(layers) => layers_of(trees_of(items@), items@.len()) matches Ok(models) && models == layer_models(
                layers@,
            ),
            Err(error) => layers_of(trees_of(items@), items@.len()) matches Err(reason) && reason == error,
        },
{
    let ghost trees = trees_of(items@);
    let mut layers: Vec<TiledLayer> = Vec::new();
    let mut i: usize = 0;
    assert(layer_models(layers@) =~= Seq::empty());
    while i < items.len()
        invariant
            i <= items@.len(),
            trees == trees_of(items@),
            layers_of(trees, i as nat) matches Ok(models) && models == layer_models(layers@),
        decreases items@.len() - i,
    {
        match read_layer(&items[i]) {
            Ok(layer) => {
                let ghost before = layers@;
                layers.push(layer);
                assert(layer_models(layers@) =~= layer_models(before).push(layer@));
            },
            Err(error) => {
                proof {
                    assert(layers_of(trees, (i + 1) as nat) matches Err(reason) && reason == error);
                    layers_error_stays(trees, (i + 1) as nat, items@.len());
                }
                return Err(error);
            },
        }
        i += 1;
    }
    Ok(layers)
}

/// The tileset references that a list of values describes.
pub fn read_tileset_refs(items: &Vec<Json>) -> (tilesets: Result<Vec<Tileset>, LevelError>)
    ensures
        match tilesets {
            Ok(tilesets) => tileset_refs_of(trees_of(items@), items@.len()) matches Ok(models) && models
                == tileset_ref_models(tilesets@),
            Err(error) => tileset_refs_of(trees_of(items@), items@.len()) matches Err(reason) && reason == error,
        },
{
    let ghost trees = trees_of(items@);
    let mut tilesets: Vec<Tileset> = Vec::new();
    let mut i: usize = 0;
    assert(tileset_ref_models(tilesets@) =~= Seq::empty());
    while i < items.len()
        invariant
            i <= items@.len(),
            trees == trees_of(items@),
            tileset_refs_of(trees, i as nat) matches Ok(models) && models == tileset_ref_models(tilesets@),
        decreases items@.len() - i,
    {
        match read_tileset_ref(&items[i]) {
            Ok(tileset) => {
                let ghost before = tilesets@;
                tilesets.push(tileset);
                assert(tileset_ref_models(tilesets@) =~= tileset_ref_models(before).push(tileset@));
            },
            Err(error) => {
                proof {
                    assert(tileset_refs_of(trees, (i + 1) as nat) matches Err(reason) && reason == error);
                    tileset_refs_error_stays(trees, (i + 1) as nat, items@.len());
                }
                return Err(error);
            },
        }
        i += 1;
    }
    Ok(tilesets)
}

/// The map that a value describes.
pub open spec fn map_of(tree: JsonTree) -> Result<MapDocument, LevelError> {
    if tree.u32_at("height"@) is Some && tree.u32_at("width"@) is Some && tree.u32_at("tileheight"@) is Some
        && tree.u32_at("tilewidth"@) is Some && tree.array_at("layers"@) is Some && tree.array_at("tilesets"@)
        is Some {
        let layers = tree.array_at("layers"@)->0;
        let tilesets = tree.array_at("tilesets"@)->0;
        match layers_of(layers, layers.len()) {
            Err(error) => Err(error),
            Ok(layers) => match tileset_refs_of(tilesets, tilesets.len()) {
                Err(error) => Err(error),
                Ok(tilesets) => {
                    let map = MapDocument {
                        height: tree.u32_at("height"@)->0,
                        width: tree.u32_at("width"@)->0,
                        layers,
                        tile_height: tree.u32_at("tileheight"@)->0,
                        tile_width: tree.u32_at("tilewidth"@)->0,
                        tilesets,
                    };
                    if map.consistent() {
                        Ok(map)
                    } else {
                        Err(LevelError::MalformedDocument)
                    }
                },
            },
        }
    } else {
        Err(LevelError::MalformedDocument)
    }
}

/// The map that a JSON text describes.
pub open spec fn map_of_text(bytes: Seq<u8>) -> Result<MapDocument, LevelError> {
    match crate::json::json_text(bytes) {
        Some(tree) => map_of(tree),
        None => Err(LevelError::MalformedDocument),
    }
}

impl TiledMap {
    /// Reads a map from a JSON value.
    pub fn from_json(json: &Json) -> (map: Result<TiledMap, LevelError>)
        ensures
            match map {
                Ok(map) => map_of(json@) matches Ok(model) && model == map@,
                Err(error) => map_of(json@) matches Err(reason) && reason == error,
            },
    {
        let height = match json.u32_at("height") {
            Some(height) => height,
            None => {
                return Err(LevelError::MalformedDocument);
            },
        };
        let width = match json.u32_at("width") {
            Some(width) => width,
            None => {
                return Err(LevelError::MalformedDocument);
            },
        };
        let tile_height = match json.u32_at("tileheight") {
            Some(tile_height) => tile_height,
            None => {
                return Err(LevelError::MalformedDocument);
            },
        };
        let tile_width = match json.u32_at("tilewidth") {
            Some(tile_width) => tile_width,
            None => {
                return Err(LevelError::MalformedDocument);
            },
        };
        let layer_items = match json.array_at("layers") {
            Some(items) => items,
            None => {
                return Err(LevelError::MalformedDocument);
            },
        };
        let tileset_items = match json.array_at("tilesets") {
            Some(items) => items,
            None => {
                return Err(LevelError::MalformedDocument);
            },
        };
        let layers = match read_layers(layer_items) {
            Ok(layers) => layers,
            Err(error) => {
                return Err(error);
            },
        };
        let tilesets = match read_tileset_refs(tileset_items) {
            Ok(tilesets) => tilesets,
            Err(error) => {
                return Err(error);
            },
        };
        let map = TiledMap { height, width, layers, tile_height, tile_width, tilesets };
        if map.is_consistent() {
            Ok(map)
        } else {
            Err(LevelError::MalformedDocument)
        }
    }

    /// Reads a map from a JSON text.
    pub fn parse(bytes: &[u8]) -> (map: Result<TiledMap, LevelError>)
        ensures
            match map {
                Ok(map) => map_of_text(bytes@) matches Ok(model) && model == map@,
                Err(error) => map_of_text(bytes@) matches Err(reason) && reason == error,
            },
    {
        match Json::parse(bytes) {
            Some(json) => TiledMap::from_json(&json),
            None => Err(LevelError::MalformedDocument),
        }
    }
}

/// The property that an object describes.
pub open spec fn property_of(tree: JsonTree) -> Option<PropertyEntry> {
    if tree.text_at("name"@) is Some && tree.member("value"@) is Some {
        Some(PropertyEntry { name: tree.text_at("name"@)->0, value: tree.member("value"@)->0 })
    } else {
        None
    }
}

/// The properties that a list of objects describes.
pub open spec fn properties_of(items: Seq<JsonTree>) -> Option<Seq<PropertyEntry>> {
    if forall|i: int| 0 <= i < items.len() ==> property_of(#[trigger] items[i]) is Some {
        Some(Seq::new(items.len(), |i: int| property_of(items[i])->0))
    } else {
        None
    }
}

/// The tile properties that an object describes.
pub open spec fn override_of(tree: JsonTree) -> Option<TileOverride> {
    if tree.u32_at("id"@) is Some && tree.array_at("properties"@) is Some && properties_of(
        tree.array_at("properties"@)->0,
    ) is Some {
        Some(TileOverride { id: tree.u32_at("id"@)->0, properties: properties_of(tree.array_at("properties"@)->0)->0 })
    } else {
        None
    }
}

/// The tile properties that a list of objects describes.
pub open spec fn overrides_of(items: Seq<JsonTree>) -> Option<Seq<TileOverride>> {
    if forall|i: int| 0 <= i < items.len() ==> override_of(#[trigger] items[i]) is Some {
        Some(Seq::new(items.len(), |i: int| override_of(items[i])->0))
    } else {
        None
    }
}

/// The tile properties of a tileset: none where the document has no `tiles`
/// member.
pub open spec fn tiles_of(tree: JsonTree) -> Option<Seq<TileOverride>> {
    match tree.member("tiles"@) {
        None => Some(Seq::empty()),
        Some(tiles) => match tiles.as_array() {
            Some(items) => overrides_of(items),
            None => None,
        },
    }
}

/// The tileset that a value describes.
pub open spec fn tileset_of(tree: JsonTree) -> Result<TilesetDescriptor, LevelError> {
    if tree.text_at("name"@) is Some && tree.u32_at("columns"@) is Some && tree.text_at("image"@) is Some
        && tree.u32_at("imageheight"@) is Some && tree.u32_at("imagewidth"@) is Some && tree.u32_at("margin"@)
        is Some && tree.u32_at("spacing"@) is Some && tree.u32_at("tilecount"@) is Some && tree.u32_at(
        "tileheight"@,
    ) is Some && tree.u32_at("tilewidth"@) is Some && tiles_of(tree) is Some {
        Ok(
            TilesetDescriptor {
                name: tree.text_at("name"@)->0,
                columns: tree.u32_at("columns"@)->0,
                image: tree.text_at("image"@)->0,
                image_height: tree.u32_at("imageheight"@)->0,
                image_width: tree.u32_at("imagewidth"@)->0,
                margin: tree.u32_at("margin"@)->0,
                spacing: tree.u32_at("spacing"@)->0,
                tile_count: tree.u32_at("tilecount"@)->0,
                tile_height: tree.u32_at("tileheight"@)->0,
                tile_width: tree.u32_at("tilewidth"@)->0,
                tiles: tiles_of(tree)->0,
            },
        )
    } else {
        Err(LevelError::MalformedDocument)
    }
}

/// The tileset that a JSON text describes.
pub open spec fn tileset_of_text(bytes: Seq<u8>) -> Result<TilesetDescriptor, LevelError> {
    match crate::json::json_text(bytes) {
        Some(tree) => tileset_of(tree),
        None => Err(LevelError::MalformedDocument),
    }
}

/// The models of a list of properties.
pub open spec fn property_models(properties: Seq<Property>) -> Seq<PropertyEntry> {
    properties.map_values(|property: Property| property@)
}

/// The models of a list of tile properties.
pub open spec fn override_models(tiles: Seq<TileProperties>) -> Seq<TileOverride> {
    tiles.map_values(|tile: TileProperties| tile@)
}

/// The property that an object describes.
pub fn read_property(json: &Json) -> (property: Option<Property>)
    ensures
        match property {
            Some(property) => property_of(json@) == Some(property@),
            None => property_of(json@) is None,
        },
{
    let name = match json.text_at("name") {
        Some(name) => name,
        None => {
            return None;
        },
    };
    match json.member("value") {
        Some(value) => Some(Property { name, value: value.clone() }),
        None => None,
    }
}

/// The properties that a list of objects describes.
pub fn read_properties(items: &Vec<Json>) -> (properties: Option<Vec<Property>>)
    ensures
        match properties {
            Some(properties) => properties_of(trees_of(items@)) == Some(property_models(properties@)),
            None => properties_of(trees_of(items@)) is None,
        },
{
    let ghost trees = trees_of(items@);
    let mut properties: Vec<Property> = Vec::new();
    let mut i: usize = 0;
    while i < items.len()
        invariant
            i <= items@.len(),
            trees == trees_of(items@),
            properties@.len() == i,
            forall|k: int|
                0 <= k < i ==> property_of(#[trigger] trees[k]) is Some && properties@[k]@ == property_of(
                    trees[k],
                )->0,
        decreases items@.len() - i,
    {
        match read_property(&items[i]) {
            Some(property) => {
                properties.push(property);
            },
            None => {
                assert(property_of(trees[i as int]) is None);
                return None;
            },
        }
        i += 1;
    }
    assert(property_models(properties@) =~= properties_of(trees)->0);
    Some(properties)
}

/// The tile properties that an object describes.
pub fn read_override(json: &Json) -> (tile: Option<TileProperties>)
    ensures
        match tile {
            Some(tile) => override_of(json@) == Some(tile@),
            None => override_of(json@) is None,
        },
{
    let id = match json.u32_at("id") {
        Some(id) => id,
        None => {
            return None;
        },
    };
    let items = match json.array_at("properties") {
        Some(items) => items,
        None => {
            return None;
        },
    };
    match read_properties(items) {
        Some(properties) => Some(TileProperties { id, properties }),
        None => None,
    }
}

/// The tile properties that a list of objects describes.
pub fn read_overrides(items: &Vec<Json>) -> (tiles: Option<Vec<TileProperties>>)
    ensures
        match tiles {
            Some(tiles) => overrides_of(trees_of(items@)) == Some(override_models(tiles@)),
            None => overrides_of(trees_of(items@)) is None,
        },
{
    let ghost trees = trees_of(items@);
    let mut tiles: Vec<TileProperties> = Vec::new();
    let mut i: usize = 0;
    while i < items.len()
        invariant
            i <= items@.len(),
            trees == trees_of(items@),
            tiles@.len() == i,
            forall|k: int|
                0 <= k < i ==> override_of(#[trigger] trees[k]) is Some && tiles@[k]@ == override_of(trees[k])->0,
        decreases items@.len() - i,
    {
        match read_override(&items[i]) {
            Some(tile) => {
                tiles.push(tile);
            },
            None => {
                assert(override_of(trees[i as int]) is None);
                return None;
            },
        }
        i += 1;
    }
    assert(override_models(tiles@) =~= overrides_of(trees)->0);
    Some(tiles)
}

/// The tile properties of a tileset.
fn read_tiles(json: &Json) -> (tiles: Option<Vec<TileProperties>>)
    ensures
        match tiles {
            Some(tiles) => tiles_of(json@) == Some(override_models(tiles@)),
            None => tiles_of(json@) is None,
        },
{
    match json.member("tiles") {
        None => {
            let tiles: Vec<TileProperties> = Vec::new();
            assert(override_models(tiles@) =~= Seq::empty());
            Some(tiles)
        },
        Some(tiles) => match tiles.as_array() {
            Some(items) => read_overrides(items),
            None => None,
        },
    }
}

impl TiledTileset {
    /// Reads a tileset from a JSON value.
    pub fn from_json(json: &Json) -> (tileset: Result<TiledTileset, LevelError>)
        ensures
            match tileset {
                Ok(tileset) => tileset_of(json@) matches Ok(model) && model == tileset@,
                Err(error) => tileset_of(json@) matches Err(reason) && reason == error,
            },
    {
        let name = match json.text_at("name") {
            Some(name) => name,
            None => {
                return Err(LevelError::MalformedDocument);
            },
        };
        let columns = match json.u32_at("columns") {
            Some(columns) => columns,
            None => {
                return Err(LevelError::MalformedDocument);
            },
        };
        let image = match json.text_at("image") {
            Some(image) => image,
            None => {
                return Err(LevelError::MalformedDocument);
            },
        };
        let image_height = match json.u32_at("imageheight") {
            Some(image_height) => image_height,
            None => {
                return Err(LevelError::MalformedDocument);
            },
        };
        let image_width = match json.u32_at("imagewidth") {
            Some(image_width) => image_width,
            None => {
                return Err(LevelError::MalformedDocument);
            },
        };
        let margin = match json.u32_at("margin") {
            Some(margin) => margin,
            None => {
                return Err(LevelError::MalformedDocument);
            },
        };
        let spacing = match json.u32_at("spacing") {
            Some(spacing) => spacing,
            None => {
                return Err(LevelError::MalformedDocument);
            },
        };
        let tile_count = match json.u32_at("tilecount") {
            Some(tile_count) => tile_count,
            None => {
                return Err(LevelError::MalformedDocument);
            },
        };
        let tile_height = match json.u32_at("tileheight") {
            Some(tile_height) => tile_height,
            None => {
                return Err(LevelError::MalformedDocument);
            },
        };
        let tile_width = match json.u32_at("tilewidth") {
            Some(tile_width) => tile_width,
            None => {
                return Err(LevelError::MalformedDocument);
            },
        };
        let tiles = match read_tiles(json) {
            Some(tiles) => tiles,
            None => {
                return Err(LevelError::MalformedDocument);
            },
        };
        Ok(
            TiledTileset {
                name,
                columns,
                image,
                image_height,
                image_width,
                margin,
                spacing,
                tile_count,
                tile_height,
                tile_width,
                tiles,
            },
        )
    }

    /// Reads a tileset from a JSON text.
    pub fn parse(bytes: &[u8]) -> (tileset: Result<TiledTileset, LevelError>)
        ensures
            match tileset {
                Ok(tileset) => tileset_of_text(bytes@) matches Ok(model) && model == tileset@,
                Err(error) => tileset_of_text(bytes@) matches Err(reason) && reason == error,
            },
    {
        match Json::parse(bytes) {
            Some(json) => TiledTileset::from_json(&json),
            None => Err(LevelError::MalformedDocument),
        }
    }
}

} // verus!
