use grid_motion::config::DebugConfig;
use grid_motion::editor::{Blueprint, Brush, EditorData, Selection};
use grid_motion::grid::Pos;
use grid_motion::level::{load_auto_save, LevelEdit, LevelSave, Tile, TileDef, TileDefs, TileMap};

fn empty_level() -> LevelEdit {
    LevelEdit {
        dimensions: Pos { x: 0, y: 0 },
        tile_map: TileMap::new(),
        tile_defs: TileDefs { defs: Vec::new() },
    }
}

#[test]
fn tile_map_insert_and_get() {
    let mut map = TileMap::new();
    assert_eq!(map.len(), 0);
    assert_eq!(map.get(&Pos { x: 1, y: 2 }), None);
    map.insert(Pos { x: 1, y: 2 }, Tile::AirBlock);
    map.insert(Pos { x: 3, y: 4 }, Tile::TileDefKey(9));
    assert_eq!(map.len(), 2);
    assert_eq!(map.get(&Pos { x: 1, y: 2 }), Some(Tile::AirBlock));
    // inserting again replaces, it does not duplicate
    map.insert(Pos { x: 1, y: 2 }, Tile::TileDefKey(1));
    assert_eq!(map.len(), 2);
    assert_eq!(map.get(&Pos { x: 1, y: 2 }), Some(Tile::TileDefKey(1)));
    assert_eq!(map.get(&Pos { x: 3, y: 4 }), Some(Tile::TileDefKey(9)));
}

#[test]
fn load_auto_save_defaults_when_no_save_exists() {
    let edit = load_auto_save(None);
    assert_eq!(edit.dimensions, Pos { x: 0, y: 0 });
    assert_eq!(edit.tile_map.len(), 0);
    assert_eq!(edit.tile_defs.defs.len(), 0);
}

#[test]
fn load_auto_save_keeps_last_placement_per_cell() {
    let save = LevelSave {
        dimensions: Pos { x: 8, y: 8 },
        tiles: vec![
            (Pos { x: 0, y: 0 }, Tile::AirBlock),
            (Pos { x: 1, y: 0 }, Tile::TileDefKey(2)),
            (Pos { x: 0, y: 0 }, Tile::TileDefKey(5)),
        ],
        tile_defs: TileDefs { defs: vec![(2, TileDef { dimens: Pos { x: 1, y: 1 } })] },
    };
    let edit = load_auto_save(Some(save));
    assert_eq!(edit.dimensions, Pos { x: 8, y: 8 });
    assert_eq!(edit.tile_map.len(), 2);
    assert_eq!(edit.tile_map.get(&Pos { x: 0, y: 0 }), Some(Tile::TileDefKey(5)));
    assert_eq!(edit.tile_map.get(&Pos { x: 1, y: 0 }), Some(Tile::TileDefKey(2)));
    assert_eq!(edit.tile_defs.defs.len(), 1);
}

#[test]
fn blueprint_insert_tile_covers_with_dummies() {
    let mut bp = Blueprint::new(Pos { x: 4, y: 4 });
    bp.insert_tile(Pos { x: 1, y: 1 }, &Pos { x: 2, y: 3 }, Tile::TileDefKey(7));
    assert_eq!(bp.tiles.get(&Pos { x: 1, y: 1 }), Some(Tile::TileDefKey(7)));
    for x in 1..3 {
        for y in 1..4 {
            if (x, y) != (1, 1) {
                assert_eq!(
                    bp.tiles.get(&Pos { x, y }),
                    Some(Tile::Dummy(Pos { x: 1, y: 1 }))
                );
            }
        }
    }
    assert_eq!(bp.tiles.get(&Pos { x: 0, y: 0 }), None);
    assert_eq!(bp.tiles.get(&Pos { x: 3, y: 1 }), None);
}

#[test]
fn blueprint_overlap_detection() {
    let mut bp = Blueprint::new(Pos { x: 6, y: 6 });
    bp.insert_tile(Pos { x: 0, y: 0 }, &Pos { x: 2, y: 2 }, Tile::TileDefKey(1));
    assert!(bp.overlaps(Pos { x: 1, y: 1 }, Pos { x: 3, y: 3 }));
    assert!(bp.overlaps(Pos { x: 0, y: 0 }, Pos { x: 1, y: 1 }));
    assert!(!bp.overlaps(Pos { x: 2, y: 0 }, Pos { x: 2, y: 2 }));
    assert!(!bp.overlaps(Pos { x: 0, y: 2 }, Pos { x: 4, y: 1 }));
    // an empty probe rectangle overlaps nothing
    assert!(!bp.overlaps(Pos { x: 0, y: 0 }, Pos { x: 0, y: 0 }));
}

#[test]
fn from_placing_tiles_stamps_brush_blocks() {
    let mut level = empty_level();
    level.tile_defs.defs.push((7, TileDef { dimens: Pos { x: 2, y: 2 } }));
    let ed = EditorData {
        brush: Brush { key: Some(7) },
        selection: Selection { dimens: Pos { x: 3, y: 2 } },
    };
    let bp = Blueprint::from_placing_tiles(&ed, &level);
    assert_eq!(bp.dimensions, Pos { x: 3, y: 2 });
    // block origins at (0,0) and (2,0); dummies fill out each 2x2 block
    assert_eq!(bp.tiles.get(&Pos { x: 0, y: 0 }), Some(Tile::TileDefKey(7)));
    assert_eq!(bp.tiles.get(&Pos { x: 2, y: 0 }), Some(Tile::TileDefKey(7)));
    assert_eq!(bp.tiles.get(&Pos { x: 1, y: 1 }), Some(Tile::Dummy(Pos { x: 0, y: 0 })));
    assert_eq!(bp.tiles.get(&Pos { x: 3, y: 1 }), Some(Tile::Dummy(Pos { x: 2, y: 0 })));
    assert_eq!(bp.tiles.get(&Pos { x: 4, y: 0 }), None);
    assert_eq!(bp.tiles.get(&Pos { x: 0, y: 2 }), None);
}

#[test]
fn from_placing_tiles_without_brush_key_fills_air() {
    let level = empty_level();
    let ed = EditorData {
        brush: Brush { key: None },
        selection: Selection { dimens: Pos { x: 2, y: 1 } },
    };
    let bp = Blueprint::from_placing_tiles(&ed, &level);
    assert_eq!(bp.tiles.len(), 2);
    assert_eq!(bp.tiles.get(&Pos { x: 0, y: 0 }), Some(Tile::AirBlock));
    assert_eq!(bp.tiles.get(&Pos { x: 1, y: 0 }), Some(Tile::AirBlock));
    assert_eq!(bp.tiles.get(&Pos { x: 2, y: 0 }), None);
}

#[test]
fn from_placing_tiles_empty_selection() {
    let level = empty_level();
    let ed = EditorData {
        brush: Brush { key: None },
        selection: Selection { dimens: Pos { x: 0, y: 0 } },
    };
    let bp = Blueprint::from_placing_tiles(&ed, &level);
    assert_eq!(bp.tiles.len(), 0);
}

#[test]
fn speed_stepping_walks_the_preset_ladder() {
    let mut config = DebugConfig { speed_presets: vec![1000, 2000, 4000], player_speed: 2000 };
    assert_eq!(config.increase_speed(), (2000, 4000));
    assert_eq!(config.player_speed, 4000);
    // no faster preset: unchanged, both values the current speed
    assert_eq!(config.increase_speed(), (4000, 4000));
    assert_eq!(config.player_speed, 4000);
    assert_eq!(config.decrease_speed(), (4000, 2000));
    assert_eq!(config.decrease_speed(), (2000, 1000));
    assert_eq!(config.decrease_speed(), (1000, 1000));
    assert_eq!(config.player_speed, 1000);
}

#[test]
fn speed_stepping_follows_list_order() {
    // increase takes the first faster preset in list order,
    // decrease the last slower one
    let mut config = DebugConfig { speed_presets: vec![3000, 1000, 5000], player_speed: 2000 };
    assert_eq!(config.increase_speed(), (2000, 3000));
    let mut config2 = DebugConfig { speed_presets: vec![3000, 1000, 5000], player_speed: 4000 };
    assert_eq!(config2.decrease_speed(), (4000, 1000));
}

#[test]
fn speed_stepping_with_no_presets() {
    let mut config = DebugConfig { speed_presets: vec![], player_speed: 1234 };
    assert_eq!(config.increase_speed(), (1234, 1234));
    assert_eq!(config.decrease_speed(), (1234, 1234));
    assert_eq!(config.player_speed, 1234);
}
