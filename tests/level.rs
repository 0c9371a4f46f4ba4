use cleaners::codegen::{tiles_file, write_tile};
use cleaners::geometry::vec2;
use cleaners::items::BloodLevel;
use cleaners::level::{
    build_grid, parse_marker, CustomData, EnumTag, GridTile, Item, Marker, Tile, TileBackground,
};

fn tag(id: &str, tile_ids: &[usize]) -> EnumTag {
    EnumTag { enum_value_id: id.to_string(), tile_ids: tile_ids.to_vec() }
}

fn data(tile_id: usize, text: &str) -> CustomData {
    CustomData { tile_id, data: text.to_string() }
}

fn placed(px: usize, py: usize, sx: usize, sy: usize, tile: usize) -> GridTile {
    GridTile { position: (px, py), source: (sx, sy), tile }
}

fn blank() -> Tile {
    Tile::blank()
}

#[test]
fn markers_by_name() {
    assert_eq!(parse_marker("BLOOD_1"), Some(Marker::Blood(BloodLevel::Tall)));
    assert_eq!(parse_marker("BLOOD_2"), Some(Marker::Blood(BloodLevel::Grande)));
    assert_eq!(parse_marker("BLOOD_3"), Some(Marker::Blood(BloodLevel::Venti)));
    assert_eq!(parse_marker("BLEACH"), Some(Marker::Item(Item::Bleach)));
    assert_eq!(parse_marker("KNIFE"), Some(Marker::Item(Item::Knife)));
    assert_eq!(parse_marker("SPONGE"), Some(Marker::Item(Item::Sponge)));
    assert_eq!(parse_marker("BAG_ROLL"), Some(Marker::Item(Item::BagRoll)));
    assert_eq!(parse_marker("BODY_BAG"), Some(Marker::Item(Item::BodyBag)));
    assert_eq!(parse_marker("BAG"), Some(Marker::Item(Item::Bag)));
    assert_eq!(parse_marker("BODY"), Some(Marker::Item(Item::Body)));
    assert_eq!(parse_marker("DROP_POINT"), Some(Marker::DropPoint));
    assert_eq!(parse_marker("BODY "), None);
    assert_eq!(parse_marker("bag"), None);
    assert_eq!(parse_marker(""), None);
}

#[test]
fn grid_grows_to_fit_tiles() {
    let tags = vec![tag("Floor", &[1])];
    let grid = build_grid(&vec![placed(32, 16, 48, 0, 1)], &tags, &vec![]).unwrap();
    assert_eq!(grid.len(), 3);
    assert!(grid[0].is_empty());
    assert!(grid[1].is_empty());
    assert_eq!(grid[2].len(), 2);
    assert_eq!(grid[2][0], blank());
    assert_eq!(grid[2][1], Tile { background: TileBackground::Floor(vec2(3, 0)), ..blank() });
}

#[test]
fn no_tiles_no_columns() {
    assert_eq!(build_grid(&vec![], &vec![], &vec![]).unwrap().len(), 0);
}

#[test]
fn tags_choose_layer() {
    let tags = vec![
        tag("Wall", &[1, 3]),
        tag("Floor", &[2, 3]),
        tag("Furniture", &[3, 4]),
        tag("Other", &[5]),
    ];
    let tiles = vec![
        placed(0, 0, 16, 32, 1),
        placed(0, 16, 0, 0, 2),
        placed(0, 16, 64, 16, 3),
        placed(0, 32, 0, 0, 4),
        placed(0, 48, 0, 0, 5),
    ];
    let grid = build_grid(&tiles, &tags, &vec![]).unwrap();
    assert_eq!(grid[0][0].background, TileBackground::Wall(vec2(1, 2)));
    assert_eq!(grid[0][1].background, TileBackground::Floor(vec2(0, 0)));
    assert_eq!(grid[0][1].furniture, TileBackground::Wall(vec2(4, 1)));
    assert_eq!(grid[0][2], blank());
    assert_eq!(grid[0][3], blank());
}

#[test]
fn attached_text_marks_cells() {
    let tags = vec![tag("Floor", &[1, 2, 3])];
    let custom = vec![data(2, "KNIFE"), data(3, "BLOOD_3"), data(2, "BAG"), data(4, "DROP_POINT")];
    let tiles = vec![
        placed(0, 0, 0, 0, 1),
        placed(0, 0, 0, 0, 2),
        placed(0, 0, 0, 0, 3),
        placed(16, 0, 0, 0, 4),
    ];
    let grid = build_grid(&tiles, &tags, &custom).unwrap();
    assert_eq!(
        grid[0][0],
        Tile {
            background: TileBackground::Floor(vec2(0, 0)),
            item: Item::Knife,
            blood_level: BloodLevel::Venti,
            ..blank()
        }
    );
    assert_eq!(grid[1][0], Tile { drop_point: true, ..blank() });
}

#[test]
fn unknown_text_is_an_error() {
    let custom = vec![data(7, "KNIFE"), data(8, "TABLE")];
    let tiles = vec![placed(0, 0, 0, 0, 7), placed(0, 0, 0, 0, 8), placed(0, 0, 0, 0, 9)];
    assert_eq!(build_grid(&tiles, &vec![], &custom), Err("TABLE".to_string()));
}

#[test]
fn tile_source_text() {
    let t = Tile {
        background: TileBackground::Wall(vec2(12, 0)),
        furniture: TileBackground::Unset,
        item: Item::Body,
        blood_level: BloodLevel::Grande,
        drop_point: true,
    };
    assert_eq!(
        write_tile(t),
        "Tile {\n                    background: TileBackground::Wall(vec2(12, 0)),\n                    furniture: Furniture::None,\n                    item: Item::Body(BodyLevel::Start, BODY_CHOPPING_TIME),\n                    player: false,\n                    blood_level: BloodLevel::Grande(CLEANING_TIME),\n                    drop_point: true,\n                }"
    );
}

#[test]
fn level_source_text() {
    let floor = Tile { background: TileBackground::Floor(vec2(1, 2)), ..blank() };
    let shelf = Tile {
        background: TileBackground::Floor(vec2(1, 2)),
        furniture: TileBackground::Wall(vec2(30, 4)),
        item: Item::Sponge,
        ..blank()
    };
    let text = tiles_file(&vec![vec![floor, shelf], vec![floor]], 3).unwrap();
    let tile = |furniture: &str, item: &str| {
        format!(
            "Tile {{\n                    background: TileBackground::Floor(vec2(1, 2)),\n                    furniture: Furniture::{furniture},\n                    item: Item::{item},\n                    player: false,\n                    blood_level: BloodLevel::None,\n                    drop_point: false,\n                }}"
        )
    };
    let expected = format!(
        "\nuse crate::{{Tile, TileBackground, Item, vec2, BloodLevel, BodyLevel, BODY_CHOPPING_TIME, Furniture, CLEANING_TIME}};\n        \npub fn create_level_3() -> Vec<Vec<Tile>> {{\n    vec![\n        vec![{},{}],vec![{}]\n    ]\n}}\n",
        tile("None", "None"),
        tile("Wall(vec2(30, 4))", "Sponge"),
        tile("None", "None"),
    );
    assert_eq!(text, expected);
}

#[test]
fn empty_level_source_text() {
    let text = tiles_file(&vec![vec![]], 10).unwrap();
    assert!(text.contains("pub fn create_level_10() -> Vec<Vec<Tile>> {\n    vec![\n        vec![]\n    ]\n}\n"));
}

#[test]
fn cell_without_ground_is_reported() {
    let floor = Tile { background: TileBackground::Floor(vec2(1, 2)), ..blank() };
    let tiles = vec![vec![floor, floor], vec![floor, blank(), blank()], vec![blank()]];
    assert_eq!(tiles_file(&tiles, 0), Err(vec2(1, 1)));
}

#[test]
fn every_placed_tile_has_its_cell() {
    let tags = vec![tag("Floor", &[1])];
    let tiles = vec![
        placed(80, 0, 0, 0, 1),
        placed(0, 95, 0, 0, 1),
        placed(33, 17, 0, 0, 2),
        placed(80, 160, 0, 0, 1),
    ];
    let grid = build_grid(&tiles, &tags, &vec![]).unwrap();
    for t in &tiles {
        let (x, y) = (t.position.0 / 16, t.position.1 / 16);
        assert!(x < grid.len() && y < grid[x].len());
    }
    assert_eq!(grid.len(), 6);
    assert_eq!(grid[5].len(), 11);
    assert_eq!(grid[0].len(), 6);
    assert_eq!(grid[2].len(), 2);
}
