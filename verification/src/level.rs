//! Levels: the tiles of a map, and with them the documents and the registry
//! that a level is made from.
use vstd::prelude::*;
use vstd::string::StringSliceAdditionalSpecFns;
use crate::atlas::AtlasRect;
use crate::error::LevelError;
use crate::gid::{owner, overlapping, GidRange, GidResolver};
use crate::table::IndexTable;
use crate::tiled::{Layer, MapDocument, TileLayer, TileOverride, TilesetDescriptor, TilesetRef};

pub use crate::phase::level_transition;
pub use crate::registry::{setup_levels, CurrentLevel, LevelData, Levels};
pub use crate::tiled::{
    Property, TileProperties, TiledLayer, TiledMap, TiledTileLayer, TiledTileset, Tileset,
};

verus! {

/// The tile identifiers of a tileset's property entries, in document order.
pub open spec fn override_ids(tiles: Seq<TileOverride>) -> Seq<u32> {
    tiles.map_values(|tile: TileOverride| tile.id)
}

/// The position of the last of `ids` that equals `id`.
pub open spec fn last_with_id(ids: Seq<u32>, id: u32) -> Option<int>
    decreases ids.len(),
{
    if ids.len() == 0 {
        None
    } else if ids.last() == id {
        Some(ids.len() - 1)
    } else {
        last_with_id(ids.drop_last(), id)
    }
}

/// What `last_with_id` finds is a position that holds the identifier, and no
/// later position does.
pub proof fn last_with_id_is_last(ids: Seq<u32>, id: u32)
    ensures
        match last_with_id(ids, id) {
            Some(i) => 0 <= i < ids.len() && ids[i] == id && forall|j: int|
                i < j < ids.len() ==> ids[j] != id,
            None => forall|j: int| 0 <= j < ids.len() ==> ids[j] != id,
        },
    decreases ids.len(),
{
    if ids.len() > 0 && ids.last() != id {
        let rest = ids.drop_last();
        last_with_id_is_last(rest, id);
        assert forall|j: int| 0 <= j < rest.len() implies rest[j] == ids[j] by {}
    }
}

/// Whether `entries` maps each identifier to the last position of `ids` that
/// holds it, and holds no other identifier.
pub open spec fn holds_positions(entries: Map<u32, usize>, ids: Seq<u32>) -> bool {
    forall|id: u32|
        match #[trigger] last_with_id(ids, id) {
            Some(i) => entries.contains_key(id) && entries[id] == i,
            None => !entries.contains_key(id),
        }
}

/// The property entries of a tileset, found by tile identifier.
///
/// Where a tileset lists one tile twice, the later entry stands.
pub struct PropertyMap {
    table: IndexTable,
    ids: Ghost<Seq<u32>>,
}

impl PropertyMap {
    #[verifier::type_invariant]
    spec fn indexed(&self) -> bool {
        holds_positions(self.table@, self.ids@)
    }

    /// The tile identifiers of the entries that the map was built from.
    pub closed spec fn ids(&self) -> Seq<u32> {
        self.ids@
    }

    /// Indexes the property entries of `tileset`.
    pub fn new(tileset: &TiledTileset) -> (map: PropertyMap)
        ensures
            map.ids() == override_ids(tileset@.tiles),
    {
        let mut table = IndexTable::new();
        let ghost ids = override_ids(tileset@.tiles);
        let mut i: usize = 0;
        assert(ids.take(0) =~= Seq::empty());
        while i < tileset.tiles.len()
            invariant
                i <= tileset.tiles@.len(),
                ids == override_ids(tileset@.tiles),
                ids.len() == tileset.tiles@.len(),
                holds_positions(table@, ids.take(i as int)),
            decreases tileset.tiles@.len() - i,
        {
            let id = tileset.tiles[i].id;
            let ghost before = ids.take(i as int);
            table.insert(id, i);
            proof {
                let now = ids.take(i + 1);
                assert(now.drop_last() =~= before);
                assert(now.last() == id);
                assert forall|other: u32| true implies match #[trigger] last_with_id(now, other) {
                    Some(k) => table@.contains_key(other) && table@[other] == k,
                    None => !table@.contains_key(other),
                } by {
                    let seen = last_with_id(before, other);
                }
            }
            i += 1;
        }
        assert(ids.take(i as int) =~= ids);
        PropertyMap { table, ids: Ghost(ids) }
    }

    /// The position, among the tileset's property entries, of the entry for
    /// tile `local`.
    pub fn get(&self, local: u32) -> (found: Option<usize>)
        ensures
            match last_with_id(self.ids(), local) {
                Some(i) => found matches Some(position) && position == i,
                None => found is None,
            },
    {
        proof {
            use_type_invariant(self);
            last_with_id_is_last(self.ids@, local);
        }
        self.table.get(local)
    }
}

/// One tile to draw: a rectangle of a tileset's image at a place in the world.
///
/// Every tile of a level is such a record, so a level is taken down by
/// discarding the records that it was set up with.
#[derive(Debug, PartialEq, Eq)]
pub struct Tile {
    /// The path of the tileset's image.
    pub image: String,
    /// The tile's rectangle in that image.
    pub atlas: AtlasRect,
    pub world_x: u64,
    pub world_y: u64,
    /// The position of the tileset among the map's tilesets.
    pub tileset: usize,
    /// The tile's identifier within its tileset.
    pub local_id: u32,
    /// The position of the tile's entry among the tileset's property entries.
    pub properties: Option<usize>,
}

/// The model of a [`Tile`].
pub struct Placement {
    pub image: Seq<char>,
    pub atlas: AtlasRect,
    pub world_x: int,
    pub world_y: int,
    pub tileset: int,
    pub local_id: u32,
    pub properties: Option<int>,
}

impl View for Tile {
    type V = Placement;

    open spec fn view(&self) -> Placement {
        Placement {
            image: self.image@,
            atlas: self.atlas,
            world_x: self.world_x as int,
            world_y: self.world_y as int,
            tileset: self.tileset as int,
            local_id: self.local_id,
            properties: match self.properties {
                Some(i) => Some(i as int),
                None => None,
            },
        }
    }
}

/// The models of a list of tiles.
pub open spec fn placements_of(tiles: Seq<Tile>) -> Seq<Placement> {
    tiles.map_values(|tile: Tile| tile@)
}

/// The models of a list of tilesets.
pub open spec fn descriptors_of(tilesets: Seq<TiledTileset>) -> Seq<TilesetDescriptor> {
    tilesets.map_values(|tileset: TiledTileset| tileset@)
}

impl TilesetRef {
    /// The first identifier that the referenced tileset claims.
    pub open spec fn first_gid(self) -> u32 {
        match self {
            TilesetRef::External { first_gid, .. } => first_gid,
            TilesetRef::Unsupported => 0,
        }
    }
}

impl MapDocument {
    /// Whether the map holds a tileset or a layer of an unsupported kind.
    pub open spec fn has_unsupported(self) -> bool {
        (exists|i: int| 0 <= i < self.tilesets.len() && #[trigger] self.tilesets[i] is Unsupported) || (exists|
            k: int,
        | 0 <= k < self.layers.len() && #[trigger] self.layers[k] is Unsupported)
    }

    /// Whether a tile layer has one cell for each place of its grid and is no
    /// taller than the map.
    pub open spec fn fits(self, layer: TileLayer) -> bool {
        layer.data.len() == layer.width * layer.height && layer.height <= self.height
    }

    /// Whether every tile layer of the map fits it.
    pub open spec fn consistent(self) -> bool {
        forall|k: int|
            0 <= k < self.layers.len() ==> match #[trigger] self.layers[k] {
                Layer::TileLayer(layer) => self.fits(layer),
                Layer::Unsupported => true,
            }
    }

    /// The world x coordinate of grid column `x`.
    pub open spec fn world_x(self, x: int) -> int {
        x * self.tile_width
    }

    /// The world y coordinate of grid row `y`. Row 0 is the top row of the
    /// grid, and the world's y axis points up.
    pub open spec fn world_y(self, y: int) -> int {
        (self.height - 1 - y) * self.tile_height
    }
}

/// The rows of a map are flipped: the top row of the grid lies highest in the
/// world, the bottom row at zero, and each row one tile height above the next.
pub proof fn rows_are_flipped(map: MapDocument, y: int)
    requires
        0 <= y < map.height,
    ensures
        map.world_y(0) == (map.height - 1) * map.tile_height,
        map.world_y(map.height - 1) == 0,
        0 <= map.world_y(y) <= map.world_y(0),
        y + 1 < map.height ==> map.world_y(y) == map.world_y(y + 1) + map.tile_height,
{
    let tall = map.tile_height as int;
    let rows = map.height as int;
    assert(0 * tall == 0);
    assert(0 <= (rows - 1 - y) * tall <= (rows - 1) * tall) by (nonlinear_arith)
        requires
            0 <= y < rows,
            0 <= tall,
    ;
    assert((rows - 1 - y) * tall == (rows - 1 - (y + 1)) * tall + tall) by (nonlinear_arith);
}

/// The identifiers that each tileset of a map claims: its first identifier
/// from the map, its tile count from the tileset's own document.
pub open spec fn gid_ranges(map: MapDocument, tilesets: Seq<TilesetDescriptor>) -> Seq<GidRange> {
    Seq::new(
        map.tilesets.len(),
        |i: int| GidRange { first_gid: map.tilesets[i].first_gid(), tile_count: tilesets[i].tile_count },
    )
}

/// The tile in cell `cell` of a layer, counted row by row: none for an empty
/// cell, an error where the identifier belongs to no tileset or the tileset
/// has no grid.
pub open spec fn place(
    map: MapDocument,
    tilesets: Seq<TilesetDescriptor>,
    layer: TileLayer,
    cell: int,
) -> Result<Option<Placement>, LevelError> {
    let gid = layer.data[cell];
    let ranges = gid_ranges(map, tilesets);
    if gid == 0 {
        Ok(None)
    } else {
        match owner(ranges, gid) {
            None => Err(LevelError::UnresolvedReference),
            Some(i) => {
                let local = (gid - ranges[i].first_gid) as u32;
                match tilesets[i].atlas_rect(local) {
                    Err(error) => Err(error),
                    Ok(atlas) => Ok(
                        Some(
                            Placement {
                                image: tilesets[i].image,
                                atlas,
                                world_x: map.world_x(cell % (layer.width as int)),
                                world_y: map.world_y(cell / (layer.width as int)),
                                tileset: i,
                                local_id: local,
                                properties: last_with_id(override_ids(tilesets[i].tiles), local),
                            },
                        ),
                    ),
                }
            },
        }
    }
}

/// The tiles of the first `cells` cells of a layer, or the error of the first
/// cell that has one.
pub open spec fn layer_placements(
    map: MapDocument,
    tilesets: Seq<TilesetDescriptor>,
    layer: TileLayer,
    cells: nat,
) -> Result<Seq<Placement>, LevelError>
    decreases cells,
{
    if cells == 0 {
        Ok(Seq::empty())
    } else {
        match layer_placements(map, tilesets, layer, (cells - 1) as nat) {
            Err(error) => Err(error),
            Ok(placed) => match place(map, tilesets, layer, cells - 1) {
                Err(error) => Err(error),
                Ok(None) => Ok(placed),
                Ok(Some(tile)) => Ok(placed.push(tile)),
            },
        }
    }
}

/// The tiles of the first `layers` layers of a map, or the error of the first
/// cell that has one.
pub open spec fn map_placements(map: MapDocument, tilesets: Seq<TilesetDescriptor>, layers: nat) -> Result<
    Seq<Placement>,
    LevelError,
>
    decreases layers,
{
    if layers == 0 {
        Ok(Seq::empty())
    } else {
        match map_placements(map, tilesets, (layers - 1) as nat) {
            Err(error) => Err(error),
            Ok(placed) => match map.layers[layers - 1] {
                Layer::Unsupported => Ok(placed),
                Layer::TileLayer(layer) => match layer_placements(map, tilesets, layer, layer.data.len()) {
                    Err(error) => Err(error),
                    Ok(more) => Ok(placed + more),
                },
            },
        }
    }
}

/// The tiles of a map, layer by layer and row by row, or the reason why the
/// map cannot be set up.
pub open spec fn placements(map: MapDocument, tilesets: Seq<TilesetDescriptor>) -> Result<
    Seq<Placement>,
    LevelError,
> {
    if map.has_unsupported() {
        Err(LevelError::UnsupportedFeature)
    } else if !map.consistent() {
        Err(LevelError::MalformedDocument)
    } else if tilesets.len() != map.tilesets.len() {
        Err(LevelError::UnresolvedReference)
    } else if overlapping(gid_ranges(map, tilesets)) {
        Err(LevelError::OverlappingTilesetRanges)
    } else {
        map_placements(map, tilesets, map.layers.len())
    }
}

/// Once a cell of a layer fails, the layer fails with that cell's error.
pub proof fn layer_error_stays(
    map: MapDocument,
    tilesets: Seq<TilesetDescriptor>,
    layer: TileLayer,
    failed: nat,
    cells: nat,
)
    requires
        failed <= cells,
        layer_placements(map, tilesets, layer, failed) is Err,
    ensures
        layer_placements(map, tilesets, layer, cells) == layer_placements(map, tilesets, layer, failed),
    decreases cells,
{
    if failed < cells {
        layer_error_stays(map, tilesets, layer, failed, (cells - 1) as nat);
    }
}

/// Once a layer of a map fails, the map fails with that layer's error.
pub proof fn map_error_stays(map: MapDocument, tilesets: Seq<TilesetDescriptor>, failed: nat, layers: nat)
    requires
        failed <= layers,
        map_placements(map, tilesets, failed) is Err,
    ensures
        map_placements(map, tilesets, layers) == map_placements(map, tilesets, failed),
    decreases layers,
{
    if failed < layers {
        map_error_stays(map, tilesets, failed, (layers - 1) as nat);
    }
}

impl TiledMap {
    /// Whether the map holds a tileset or a layer of an unsupported kind.
    pub fn has_unsupported(&self) -> (found: bool)
        ensures
            found == self@.has_unsupported(),
    {
        let mut i: usize = 0;
        while i < self.tilesets.len()
            invariant
                i <= self.tilesets@.len(),
                forall|j: int| 0 <= j < i ==> !(#[trigger] self@.tilesets[j] is Unsupported),
            decreases self.tilesets@.len() - i,
        {
            match &self.tilesets[i] {
                Tileset::Unsupported => {
                    assert(self@.tilesets[i as int] is Unsupported);
                    return true;
                },
                Tileset::External { .. } => {},
            }
            i += 1;
        }
        let mut k: usize = 0;
        while k < self.layers.len()
            invariant
                k <= self.layers@.len(),
                forall|j: int| 0 <= j < self.tilesets@.len() ==> !(#[trigger] self@.tilesets[j] is Unsupported),
                forall|j: int| 0 <= j < k ==> !(#[trigger] self@.layers[j] is Unsupported),
            decreases self.layers@.len() - k,
        {
            match &self.layers[k] {
                TiledLayer::Unsupported => {
                    assert(self@.layers[k as int] is Unsupported);
                    return true;
                },
                TiledLayer::TileLayer(_) => {},
            }
            k += 1;
        }
        false
    }

    /// Whether `layer` has one cell for each place of its grid and is no
    /// taller than the map.
    pub fn fits(&self, layer: &TiledTileLayer) -> (ok: bool)
        ensures
            ok == self@.fits(layer@),
    {
        proof {
            crate::atlas::product_fits(layer.width as int, layer.height as int);
        }
        let cells: u64 = layer.width as u64 * layer.height as u64;
        layer.data.len() as u64 == cells && layer.height <= self.height
    }

    /// Whether every tile layer of the map fits it.
    pub fn is_consistent(&self) -> (ok: bool)
        ensures
            ok == self@.consistent(),
    {
        let mut k: usize = 0;
        while k < self.layers.len()
            invariant
                k <= self.layers@.len(),
                forall|j: int|
                    0 <= j < k ==> match #[trigger] self@.layers[j] {
                        Layer::TileLayer(layer) => self@.fits(layer),
                        Layer::Unsupported => true,
                    },
            decreases self.layers@.len() - k,
        {
            match &self.layers[k] {
                TiledLayer::TileLayer(layer) => {
                    if !self.fits(layer) {
                        assert(self@.layers[k as int] == Layer::TileLayer(layer@));
                        return false;
                    }
                },
                TiledLayer::Unsupported => {},
            }
            k += 1;
        }
        true
    }
}

/// Whether `properties` holds, for each of `tilesets`, the index of its
/// property entries.
spec fn indexes_of(properties: Seq<PropertyMap>, tilesets: Seq<TilesetDescriptor>) -> bool {
    properties.len() == tilesets.len() && forall|j: int|
        0 <= j < properties.len() ==> (#[trigger] properties[j]).ids() == override_ids(tilesets[j].tiles)
}

/// The tile in cell `cell` of `layer`, which lies in column `x` of row `y`.
fn place_tile(
    map: &TiledMap,
    tilesets: &Vec<TiledTileset>,
    resolver: &GidResolver,
    properties: &Vec<PropertyMap>,
    layer: &TiledTileLayer,
    cell: usize,
    x: u32,
    y: u32,
) -> (placed: Result<Option<Tile>, LevelError>)
    requires
        tilesets@.len() == map@.tilesets.len(),
        resolver.ranges() == gid_ranges(map@, descriptors_of(tilesets@)),
        indexes_of(properties@, descriptors_of(tilesets@)),
        cell < layer.data@.len(),
        cell == y * layer.width + x,
        x < layer.width,
        y < map.height,
    ensures
        match placed {
            Ok(Some(tile)) => place(map@, descriptors_of(tilesets@), layer@, cell as int) matches Ok(Some(placement))
                && placement == tile@,
            Ok(None) => place(map@, descriptors_of(tilesets@), layer@, cell as int) matches Ok(None),
            Err(error) => place(map@, descriptors_of(tilesets@), layer@, cell as int) matches Err(reason)
                && reason == error,
        },
{
    let ghost models = descriptors_of(tilesets@);
    let gid = layer.data[cell];
    if gid == 0 {
        return Ok(None);
    }
    let (i, local) = match resolver.resolve(gid) {
        Ok(pair) => pair,
        Err(error) => {
            return Err(error);
        },
    };
    proof {
        crate::gid::owner_is_last(gid_ranges(map@, models), gid);
    }
    let tileset = &tilesets[i];
    assert(models[i as int] == tileset@);
    let atlas = match tileset.atlas_rect(local) {
        Ok(atlas) => atlas,
        Err(error) => {
            return Err(error);
        },
    };
    proof {
        vstd::arithmetic::div_mod::lemma_fundamental_div_mod_converse(
            cell as int,
            layer.width as int,
            y as int,
            x as int,
        );
        crate::atlas::product_fits(x as int, map.tile_width as int);
        crate::atlas::product_fits(map.height - 1 - y, map.tile_height as int);
    }
    let found = properties[i].get(local);
    let tile = Tile {
        image: tileset.image.clone(),
        atlas,
        world_x: x as u64 * map.tile_width as u64,
        world_y: (map.height - 1 - y) as u64 * map.tile_height as u64,
        tileset: i,
        local_id: local,
        properties: found,
    };
    assert(properties@[i as int].ids() == override_ids(models[i as int].tiles));
    Ok(Some(tile))
}

/// The path under which an asset is kept, from the path by which a document
/// refers to it: the document's path without its first two bytes, which lead
/// from the document's folder to the asset root. A path that is shorter, or
/// in which a character straddles that place, names no asset.
pub fn asset_path(path: &str) -> (asset: Option<&str>)
    ensures
        match asset {
            Some(rest) => vstd::utf8::is_char_boundary(path.spec_bytes(), 2) && rest.spec_bytes()
                == path.spec_bytes().subrange(2, path.spec_bytes().len() as int),
            None => !vstd::utf8::is_char_boundary(path.spec_bytes(), 2),
        },
{
    if path.is_char_boundary(2) {
        let parts = path.split_at(2);
        Some(parts.1)
    } else {
        None
    }
}

/// Sets up the tiles of a map.
///
/// `tilesets` holds the documents of the map's tilesets, in the order in which
/// the map refers to them. The tiles come layer by layer, each layer row by
/// row from the top, empty cells left out.
pub fn spawn_map(map: &TiledMap, tilesets: &Vec<TiledTileset>) -> (spawned: Result<Vec<Tile>, LevelError>)
    ensures
        match spawned {
            Ok(tiles) => placements(map@, descriptors_of(tilesets@)) matches Ok(placed) && placed == placements_of(
                tiles@,
            ),
            Err(error) => placements(map@, descriptors_of(tilesets@)) matches Err(reason) && reason == error,
        },
{
    let ghost models = descriptors_of(tilesets@);
    if map.has_unsupported() {
        return Err(LevelError::UnsupportedFeature);
    }
    if !map.is_consistent() {
        return Err(LevelError::MalformedDocument);
    }
    if tilesets.len() != map.tilesets.len() {
        return Err(LevelError::UnresolvedReference);
    }
    let mut ranges: Vec<GidRange> = Vec::new();
    let mut properties: Vec<PropertyMap> = Vec::new();
    let mut i: usize = 0;
    while i < tilesets.len()
        invariant
            i <= tilesets@.len(),
            tilesets@.len() == map@.tilesets.len(),
            models == descriptors_of(tilesets@),
            ranges@ =~= gid_ranges(map@, models).take(i as int),
            indexes_of(properties@, models.take(i as int)),
        decreases tilesets@.len() - i,
    {
        let first_gid = match &map.tilesets[i] {
            Tileset::External { first_gid, .. } => *first_gid,
            Tileset::Unsupported => 0,
        };
        ranges.push(GidRange { first_gid, tile_count: tilesets[i].tile_count });
        properties.push(PropertyMap::new(&tilesets[i]));
        i += 1;
    }
    assert(models.take(i as int) =~= models);
    assert(ranges@ =~= gid_ranges(map@, models));
    let resolver = match GidResolver::new(ranges) {
        Ok(resolver) => resolver,
        Err(error) => {
            return Err(error);
        },
    };
    let mut tiles: Vec<Tile> = Vec::new();
    let ghost mut done: Seq<Placement> = Seq::empty();
    let mut k: usize = 0;
    assert(placements_of(tiles@) =~= done);
    while k < map.layers.len()
        invariant
            k <= map.layers@.len(),
            tilesets@.len() == map@.tilesets.len(),
            models == descriptors_of(tilesets@),
            resolver.ranges() == gid_ranges(map@, models),
            indexes_of(properties@, models),
            !map@.has_unsupported(),
            map@.consistent(),
            !overlapping(gid_ranges(map@, models)),
            map_placements(map@, models, k as nat) == Ok::<Seq<Placement>, LevelError>(done),
            placements_of(tiles@) == done,
        decreases map.layers@.len() - k,
    {
        match &map.layers[k] {
            TiledLayer::Unsupported => {},
            TiledLayer::TileLayer(layer) => {
                assert(map@.layers[k as int] == Layer::TileLayer(layer@));
                assert(map@.fits(layer@));
                let ghost mut part: Seq<Placement> = Seq::empty();
                let mut cell: usize = 0;
                let mut x: u32 = 0;
                let mut y: u32 = 0;
                assert(placements_of(tiles@) =~= done + part);
                while cell < layer.data.len()
                    invariant
                        k < map.layers@.len(),
                        map@.layers[k as int] == Layer::TileLayer(layer@),
                        map@.fits(layer@),
                        tilesets@.len() == map@.tilesets.len(),
                        models == descriptors_of(tilesets@),
                        resolver.ranges() == gid_ranges(map@, models),
                        indexes_of(properties@, models),
                        !map@.has_unsupported(),
                        map@.consistent(),
                        !overlapping(gid_ranges(map@, models)),
                        map_placements(map@, models, k as nat) == Ok::<Seq<Placement>, LevelError>(done),
                        cell <= layer.data@.len(),
                        cell == y * layer.width + x,
                        layer.width > 0 ==> x < layer.width,
                        layer_placements(map@, models, layer@, cell as nat) == Ok::<Seq<Placement>, LevelError>(
                            part,
                        ),
                        placements_of(tiles@) == done + part,
                    decreases layer.data@.len() - cell,
                {
                    proof {
                        let w = layer.width as int;
                        let h = layer.height as int;
                        let row = y as int;
                        assert(w > 0 && row < h) by (nonlinear_arith)
                            requires
                                0 <= row,
                                0 <= x,
                                0 <= w,
                                0 <= h,
                                row * w + x < w * h,
                        ;
                    }
                    let placed = place_tile(map, tilesets, &resolver, &properties, layer, cell, x, y);
                    match placed {
                        Err(error) => {
                            proof {
                                let total = layer.data@.len();
                                assert(layer_placements(map@, models, layer@, (cell + 1) as nat) == Err::<
                                    Seq<Placement>,
                                    LevelError,
                                >(error));
                                layer_error_stays(map@, models, layer@, (cell + 1) as nat, total);
                                assert(map_placements(map@, models, (k + 1) as nat) == Err::<
                                    Seq<Placement>,
                                    LevelError,
                                >(error));
                                map_error_stays(map@, models, (k + 1) as nat, map@.layers.len());
                            }
                            return Err(error);
                        },
                        Ok(None) => {},
                        Ok(Some(tile)) => {
                            let ghost before = tiles@;
                            proof {
                                part = part.push(tile@);
                            }
                            tiles.push(tile);
                            assert(placements_of(tiles@) =~= placements_of(before).push(tile@));
                            assert(placements_of(tiles@) =~= done + part);
                        },
                    }
                    cell += 1;
                    if x + 1 == layer.width {
                        x = 0;
                        assert((y + 1) * layer.width == y * layer.width + layer.width) by (nonlinear_arith);
                        assert(y < layer.height);
                        y += 1;
                    } else {
                        x += 1;
                    }
                }
                proof {
                    done = done + part;
                }
            },
        }
        k += 1;
    }
    Ok(tiles)
}

} // verus!
