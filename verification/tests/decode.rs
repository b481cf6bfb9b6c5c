use tileworld::decode::{read_layer, read_tileset_ref, read_u32s};
use tileworld::error::LevelError;
use tileworld::json::Json;
use tileworld::loader::JsonFile;
use tileworld::tiled::{
    Property, TileProperties, TiledLayer, TiledMap, TiledTileLayer, TiledTileset, Tileset,
};

const MAP: &str = r#"{
    "width": 2, "height": 2, "tilewidth": 16, "tileheight": 16,
    "nextlayerid": 2, "nextobjectid": 1, "orientation": "orthogonal",
    "layers": [
        {"id": 1, "name": "ground", "type": "tilelayer", "data": [1, 0, 0, 2],
         "width": 2, "height": 2, "opacity": 1, "visible": true, "x": 0, "y": 0}
    ],
    "tilesets": [{"firstgid": 1, "source": "../tilesets/ground.json"}]
}"#;

const TILESET: &str = r#"{
    "name": "ground", "columns": 4, "image": "../textures/ground.png",
    "imagewidth": 64, "imageheight": 32, "margin": 0, "spacing": 0,
    "tilecount": 8, "tilewidth": 16, "tileheight": 16,
    "tiles": [{"id": 3, "properties": [{"name": "solid", "type": "bool", "value": true}]}]
}"#;

fn with(text: &str, from: &str, to: &str) -> String {
    assert!(text.contains(from));
    text.replacen(from, to, 1)
}

#[test]
fn a_map_is_read_field_by_field() {
    let map = TiledMap::parse(MAP.as_bytes()).unwrap();
    let expected = TiledMap {
        height: 2,
        width: 2,
        layers: vec![TiledLayer::TileLayer(TiledTileLayer {
            id: 1,
            name: String::from("ground"),
            data: vec![1, 0, 0, 2],
            height: 2,
            width: 2,
            opacity: 1,
            visible: true,
            x: 0,
            y: 0,
        })],
        tile_height: 16,
        tile_width: 16,
        tilesets: vec![Tileset::External {
            first_gid: 1,
            source: String::from("../tilesets/ground.json"),
        }],
    };
    assert_eq!(map, expected);
}

#[test]
fn a_map_needs_no_members_beyond_the_required_ones() {
    let text = with(MAP, "\"nextlayerid\": 2, \"nextobjectid\": 1, \"orientation\": \"orthogonal\",", "");
    assert!(TiledMap::parse(text.as_bytes()).is_ok());
    let untyped = with(MAP, "\"type\": \"tilelayer\",", "");
    assert!(TiledMap::parse(untyped.as_bytes()).is_ok());
}

#[test]
fn text_that_is_not_json_is_malformed() {
    assert_eq!(TiledMap::parse(b"{\"width\": "), Err(LevelError::MalformedDocument));
    assert_eq!(TiledTileset::parse(b"not json"), Err(LevelError::MalformedDocument));
    assert_eq!(JsonFile::load(b"["), Err(LevelError::MalformedDocument));
}

#[test]
fn a_map_that_is_no_object_is_malformed() {
    assert_eq!(TiledMap::parse(b"[]"), Err(LevelError::MalformedDocument));
    assert_eq!(TiledMap::parse(b"3"), Err(LevelError::MalformedDocument));
}

#[test]
fn a_map_without_a_required_field_is_malformed() {
    for field in ["\"width\": 2,", "\"height\": 2,", "\"tilewidth\": 16,", "\"tileheight\": 16,"] {
        let text = with(MAP, field, "");
        assert_eq!(TiledMap::parse(text.as_bytes()), Err(LevelError::MalformedDocument));
    }
    let no_tilesets = with(MAP, "\"tilesets\"", "\"other\"");
    assert_eq!(TiledMap::parse(no_tilesets.as_bytes()), Err(LevelError::MalformedDocument));
    let no_layers = with(MAP, "\"layers\"", "\"other\"");
    assert_eq!(TiledMap::parse(no_layers.as_bytes()), Err(LevelError::MalformedDocument));
}

#[test]
fn a_field_of_the_wrong_shape_is_malformed() {
    let cases = [
        ("\"width\": 2, \"height\"", "\"width\": \"2\", \"height\""),
        ("\"width\": 2, \"height\"", "\"width\": -2, \"height\""),
        ("\"width\": 2, \"height\"", "\"width\": 2.0, \"height\""),
        ("\"width\": 2, \"height\"", "\"width\": 4294967296, \"height\""),
        ("\"visible\": true", "\"visible\": 1"),
        ("\"name\": \"ground\"", "\"name\": 7"),
        ("\"data\": [1, 0, 0, 2]", "\"data\": 5"),
        ("\"firstgid\": 1", "\"firstgid\": null"),
        ("\"source\": \"../tilesets/ground.json\"", "\"source\": 1"),
    ];
    for (from, to) in cases {
        let text = with(MAP, from, to);
        assert_eq!(TiledMap::parse(text.as_bytes()), Err(LevelError::MalformedDocument));
    }
}

#[test]
fn a_tile_id_that_is_no_number_is_malformed() {
    let text = with(MAP, "[1, 0, 0, 2]", "[1, \"x\", 0, 2]");
    assert_eq!(TiledMap::parse(text.as_bytes()), Err(LevelError::MalformedDocument));
}

#[test]
fn a_layer_must_fill_its_grid() {
    let text = with(MAP, "[1, 0, 0, 2]", "[1, 0, 0]");
    assert_eq!(TiledMap::parse(text.as_bytes()), Err(LevelError::MalformedDocument));
}

#[test]
fn an_object_layer_is_unsupported() {
    let text = with(MAP, "\"type\": \"tilelayer\"", "\"type\": \"objectgroup\"");
    assert_eq!(TiledMap::parse(text.as_bytes()), Err(LevelError::UnsupportedFeature));
    let layer = Json::parse(b"{\"id\": 2, \"name\": \"things\", \"objects\": []}").unwrap();
    assert_eq!(read_layer(&layer), Err(LevelError::UnsupportedFeature));
}

#[test]
fn an_embedded_tileset_is_unsupported() {
    let text = with(
        MAP,
        "{\"firstgid\": 1, \"source\": \"../tilesets/ground.json\"}",
        "{\"firstgid\": 1, \"name\": \"ground\", \"tilecount\": 8, \"columns\": 4}",
    );
    assert_eq!(TiledMap::parse(text.as_bytes()), Err(LevelError::UnsupportedFeature));
}

#[test]
fn a_tileset_reference_without_a_source_is_malformed() {
    let reference = Json::parse(b"{\"firstgid\": 1}").unwrap();
    assert_eq!(read_tileset_ref(&reference), Err(LevelError::MalformedDocument));
    assert_eq!(read_tileset_ref(&Json::Natural(1)), Err(LevelError::MalformedDocument));
    assert_eq!(read_layer(&Json::Null), Err(LevelError::MalformedDocument));
}

#[test]
fn the_first_fault_of_a_map_is_reported() {
    let layers_first = with(MAP, "\"type\": \"tilelayer\"", "\"type\": \"imagelayer\"");
    let both = with(&layers_first, "\"firstgid\": 1", "\"firstgid\": true");
    assert_eq!(TiledMap::parse(both.as_bytes()), Err(LevelError::UnsupportedFeature));
    let two_layers = with(
        MAP,
        "\"layers\": [",
        "\"layers\": [{\"id\": 0}, {\"type\": \"objectgroup\"},",
    );
    assert_eq!(TiledMap::parse(two_layers.as_bytes()), Err(LevelError::MalformedDocument));
    let other_order = with(
        MAP,
        "\"layers\": [",
        "\"layers\": [{\"type\": \"objectgroup\"}, {\"id\": 0},",
    );
    assert_eq!(TiledMap::parse(other_order.as_bytes()), Err(LevelError::UnsupportedFeature));
}

#[test]
fn a_tileset_is_read_field_by_field() {
    let tileset = TiledTileset::parse(TILESET.as_bytes()).unwrap();
    let expected = TiledTileset {
        name: String::from("ground"),
        columns: 4,
        image: String::from("../textures/ground.png"),
        image_height: 32,
        image_width: 64,
        margin: 0,
        spacing: 0,
        tile_count: 8,
        tile_height: 16,
        tile_width: 16,
        tiles: vec![TileProperties {
            id: 3,
            properties: vec![Property { name: String::from("solid"), value: Json::Bool(true) }],
        }],
    };
    assert_eq!(tileset, expected);
}

#[test]
fn a_tileset_may_leave_out_its_tiles() {
    let start = TILESET.find(",\n    \"tiles\"").unwrap();
    let text = format!("{}}}", &TILESET[..start]);
    let tileset = TiledTileset::parse(text.as_bytes()).unwrap();
    assert_eq!(tileset.tiles, vec![]);
    assert_eq!(tileset.tile_count, 8);
}

#[test]
fn a_tileset_without_a_required_field_is_malformed() {
    for field in [
        "\"name\": \"ground\",",
        "\"columns\": 4,",
        "\"image\": \"../textures/ground.png\",",
        "\"imagewidth\": 64,",
        "\"imageheight\": 32,",
        "\"margin\": 0,",
        "\"spacing\": 0,",
        "\"tilecount\": 8,",
        "\"tilewidth\": 16,",
        "\"tileheight\": 16,",
    ] {
        let text = with(TILESET, field, "");
        assert_eq!(TiledTileset::parse(text.as_bytes()), Err(LevelError::MalformedDocument));
    }
}

#[test]
fn tile_properties_of_the_wrong_shape_are_malformed() {
    let cases = [
        ("\"tiles\": [", "\"tiles\": 3, \"rest\": ["),
        ("{\"id\": 3,", "{\"id\": \"3\","),
        ("{\"id\": 3,", "{"),
        ("\"name\": \"solid\",", ""),
        (", \"value\": true", ""),
        ("\"properties\": [", "\"props\": ["),
    ];
    for (from, to) in cases {
        let text = with(TILESET, from, to);
        assert_eq!(TiledTileset::parse(text.as_bytes()), Err(LevelError::MalformedDocument));
    }
}

#[test]
fn a_property_keeps_any_value() {
    let text = with(TILESET, "\"value\": true", "\"value\": {\"a\": [1.5, null]}");
    let tileset = TiledTileset::parse(text.as_bytes()).unwrap();
    let expected = Json::Object(vec![(
        String::from("a"),
        Json::Array(vec![Json::Real(String::from("1.5")), Json::Null]),
    )]);
    assert_eq!(tileset.tiles[0].properties[0].value, expected);
}

#[test]
fn numbers_are_read_in_order() {
    let items = vec![Json::Natural(3), Json::Natural(0), Json::Natural(4294967295)];
    assert_eq!(read_u32s(&items), Some(vec![3, 0, u32::MAX]));
    assert_eq!(read_u32s(&vec![]), Some(vec![]));
    assert_eq!(read_u32s(&vec![Json::Natural(1), Json::Null]), None);
    assert_eq!(read_u32s(&vec![Json::Natural(4294967296)]), None);
}

#[test]
fn a_loaded_file_holds_the_parsed_value() {
    let file = JsonFile::load(b"{\"a\": 1}").unwrap();
    assert_eq!(file.0.member("a"), Some(&Json::Natural(1)));
}
