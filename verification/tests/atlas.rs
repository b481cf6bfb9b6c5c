use tileworld::atlas::AtlasRect;
use tileworld::error::LevelError;
use tileworld::tiled::TiledTileset;

fn tileset(columns: u32, tile_count: u32, tile_width: u32, tile_height: u32) -> TiledTileset {
    TiledTileset {
        name: String::from("ground"),
        columns,
        image: String::from("../textures/ground.png"),
        image_height: 64,
        image_width: 64,
        margin: 0,
        spacing: 0,
        tile_count,
        tile_height,
        tile_width,
        tiles: vec![],
    }
}

#[test]
fn tile_five_of_four_columns_is_in_column_one_row_one() {
    let set = tileset(4, 16, 16, 16);
    assert_eq!(set.atlas_rect(5), Ok(AtlasRect { x: 16, y: 16, width: 16, height: 16 }));
}

#[test]
fn tile_zero_is_at_the_origin() {
    let set = tileset(4, 16, 16, 16);
    assert_eq!(set.atlas_rect(0), Ok(AtlasRect { x: 0, y: 0, width: 16, height: 16 }));
}

#[test]
fn the_last_tile_is_in_the_last_row_and_column() {
    let set = tileset(4, 16, 16, 16);
    assert_eq!(set.atlas_rect(15), Ok(AtlasRect { x: 48, y: 48, width: 16, height: 16 }));
}

#[test]
fn tiles_need_not_be_square() {
    let set = tileset(3, 9, 8, 20);
    assert_eq!(set.atlas_rect(7), Ok(AtlasRect { x: 8, y: 40, width: 8, height: 20 }));
}

#[test]
fn margin_and_spacing_do_not_move_a_tile() {
    let mut set = tileset(4, 16, 16, 16);
    set.margin = 3;
    set.spacing = 2;
    assert_eq!(set.atlas_rect(5), Ok(AtlasRect { x: 16, y: 16, width: 16, height: 16 }));
}

#[test]
fn a_tileset_without_columns_has_no_rectangles() {
    let set = tileset(0, 16, 16, 16);
    assert_eq!(set.atlas_rect(0), Err(LevelError::MalformedDocument));
}

#[test]
fn the_largest_numbers_do_not_overflow() {
    let set = tileset(u32::MAX, u32::MAX, u32::MAX, u32::MAX);
    let rect = set.atlas_rect(u32::MAX - 1).unwrap();
    assert_eq!(rect.x, (u32::MAX as u64 - 1) * u32::MAX as u64);
    assert_eq!(rect.y, 0);
    let tall = tileset(1, u32::MAX, 1, u32::MAX);
    assert_eq!(tall.atlas_rect(u32::MAX).unwrap().y, u32::MAX as u64 * u32::MAX as u64);
}
