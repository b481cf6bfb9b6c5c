//! From a tile's identifier within its tileset to its place in the image.
//!
//! The tiles of a tileset lie in the image row by row, `columns` to a row. A
//! tile's offset is its column times the tile width and its row times the tile
//! height; the descriptor's margin and spacing take no part in it.
use vstd::prelude::*;
use crate::error::LevelError;
use crate::tiled::{TiledTileset, TilesetDescriptor};

verus! {

/// A rectangle of pixels inside a tileset's image.
#[derive(Clone, Copy, Debug, PartialEq, Eq, Structural)]
pub struct AtlasRect {
    pub x: u64,
    pub y: u64,
    pub width: u32,
    pub height: u32,
}

impl TilesetDescriptor {
    /// The column of tile `local` in the image's grid.
    pub open spec fn column_of(self, local: u32) -> int
        recommends
            self.columns > 0,
    {
        local as int % self.columns as int
    }

    /// The row of tile `local` in the image's grid.
    pub open spec fn row_of(self, local: u32) -> int
        recommends
            self.columns > 0,
    {
        local as int / self.columns as int
    }

    /// The rectangle of tile `local`; a tileset without columns has none.
    pub open spec fn atlas_rect(self, local: u32) -> Result<AtlasRect, LevelError> {
        if self.columns == 0 {
            Err(LevelError::MalformedDocument)
        } else {
            Ok(
                AtlasRect {
                    x: (self.column_of(local) * self.tile_width) as u64,
                    y: (self.row_of(local) * self.tile_height) as u64,
                    width: self.tile_width,
                    height: self.tile_height,
                },
            )
        }
    }
}

/// The first tile of a tileset lies at the origin of the image.
pub proof fn first_tile_at_origin(tileset: TilesetDescriptor)
    requires
        tileset.columns > 0,
    ensures
        tileset.atlas_rect(0) matches Ok(rect) && rect.x == 0 && rect.y == 0,
{
    assert(0int * (tileset.tile_width as int) == 0);
    assert(0int * (tileset.tile_height as int) == 0);
}

/// In a tileset whose tiles fill a grid of `rows` rows, the last tile lies in
/// the last column of the last row.
pub proof fn last_tile_in_last_cell(tileset: TilesetDescriptor, rows: int)
    requires
        tileset.columns > 0,
        rows > 0,
        tileset.tile_count == tileset.columns * rows,
    ensures
        tileset.column_of((tileset.tile_count - 1) as u32) == tileset.columns - 1,
        tileset.row_of((tileset.tile_count - 1) as u32) == rows - 1,
{
    let columns = tileset.columns as int;
    assert(columns * rows - 1 == (rows - 1) * columns + (columns - 1)) by (nonlinear_arith);
    assert(columns * rows >= 1) by (nonlinear_arith)
        requires
            columns >= 1,
            rows >= 1,
    ;
    vstd::arithmetic::div_mod::lemma_fundamental_div_mod_converse(
        columns * rows - 1,
        columns,
        rows - 1,
        columns - 1,
    );
}

/// The product of two 32-bit numbers fits in 64 bits.
pub proof fn product_fits(a: int, b: int)
    requires
        0 <= a <= u32::MAX,
        0 <= b <= u32::MAX,
    ensures
        0 <= a * b <= u64::MAX,
{
    assert(0 <= a * b <= 0xffff_ffff * 0xffff_ffff) by (nonlinear_arith)
        requires
            0 <= a <= 0xffff_ffff,
            0 <= b <= 0xffff_ffff,
    ;
}

impl TiledTileset {
    /// The rectangle of tile `local` in the tileset's image.
    pub fn atlas_rect(&self, local: u32) -> (rect: Result<AtlasRect, LevelError>)
        ensures
            rect == self@.atlas_rect(local),
    {
        if self.columns == 0 {
            return Err(LevelError::MalformedDocument);
        }
        let column: u32 = local % self.columns;
        let row: u32 = local / self.columns;
        proof {
            product_fits(column as int, self.tile_width as int);
            product_fits(row as int, self.tile_height as int);
        }
        Ok(
            AtlasRect {
                x: column as u64 * self.tile_width as u64,
                y: row as u64 * self.tile_height as u64,
                width: self.tile_width,
                height: self.tile_height,
            },
        )
    }
}

} // verus!
