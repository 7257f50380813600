use wasteland::catalog::{ROOM_HEIGHT, ROOM_WIDTH, WORLD_HEIGHT, WORLD_WIDTH};
use wasteland::game::{gate_at, Gate};
use wasteland::grid::GameMap;
use wasteland::item::ItemType;
use wasteland::terrain::{MapType, TileType};
use wasteland::text::decimal_text;

#[test]
fn outside_the_grid_is_never_walkable() {
    let m = GameMap::new_world_map();
    assert!(!m.is_walkable(-1, 0));
    assert!(!m.is_walkable(0, -1));
    assert!(!m.is_walkable(WORLD_WIDTH, 0));
    assert!(!m.is_walkable(0, WORLD_HEIGHT));
    assert!(!m.is_walkable(i32::MIN, i32::MAX));
    assert!(m.is_walkable(0, 0));
    assert!(m.is_walkable(WORLD_WIDTH - 1, WORLD_HEIGHT - 1));
    let t = GameMap::new_town_map(0);
    assert!(!t.is_walkable(ROOM_WIDTH, 5));
    assert!(!t.is_walkable(5, ROOM_HEIGHT));
}

#[test]
fn world_layout() {
    let m = GameMap::new_world_map();
    assert_eq!((m.width, m.height), (80, 40));
    assert_eq!(m.map_type, MapType::WorldMap);
    assert_eq!(m.name, "Wasteland");
    assert!(m.items.is_empty());
    assert_eq!(m.tile_at(25, 7), TileType::Mountain);
    assert_eq!(m.tile_at(15, 20), TileType::Forest);
    assert_eq!(m.tile_at(45, 32), TileType::Water);
    assert_eq!(m.tile_at(15, 10), TileType::Town);
    assert_eq!(m.tile_at(50, 25), TileType::Town);
    assert_eq!(m.tile_at(40, 8), TileType::Dungeon);
    assert_eq!(m.tile_at(25, 30), TileType::Dungeon);
    assert_eq!(m.tile_at(40, 20), TileType::Grass);
    assert!(!m.is_walkable(25, 7));
    assert!(!m.is_walkable(45, 32));
    assert!(m.is_walkable(15, 20));
    assert!(m.is_walkable(40, 8));
}

#[test]
fn town_layout() {
    let m = GameMap::new_town_map(0);
    assert_eq!((m.width, m.height), (40, 30));
    assert_eq!(m.map_type, MapType::Town);
    assert_eq!(m.name, "Town #1");
    assert_eq!(m.tile_at(0, 0), TileType::Wall);
    assert_eq!(m.tile_at(39, 29), TileType::Wall);
    assert_eq!(m.tile_at(7, 7), TileType::Wall);
    assert_eq!(m.tile_at(10, 8), TileType::Door);
    assert_eq!(m.tile_at(25, 18), TileType::Door);
    assert_eq!(m.tile_at(22, 20), TileType::Wall);
    assert_eq!(m.tile_at(10, 15), TileType::Water);
    assert_eq!(m.tile_at(1, 1), TileType::Floor);
    assert_eq!(m.items.len(), 1);
    assert_eq!((m.items[0].x, m.items[0].y), (10, 15));
    assert_eq!(m.items[0].item.name, "Town Supply");
    assert_eq!(m.items[0].item.glyph, "$");
    assert_eq!(m.items[0].item.item_type, ItemType::Consumable { heal: 30 });
    assert_eq!(GameMap::new_town_map(1).name, "Town #2");
    assert_eq!(GameMap::new_town_map(11).name, "Town #12");
}

#[test]
fn dungeon_layout() {
    let m = GameMap::new_dungeon_map(1);
    assert_eq!((m.width, m.height), (40, 30));
    assert_eq!(m.map_type, MapType::Dungeon);
    assert_eq!(m.name, "Dungeon #2");
    assert_eq!(m.tile_at(11, 5), TileType::Wall);
    assert_eq!(m.tile_at(12, 5), TileType::Door);
    assert_eq!(m.tile_at(20, 12), TileType::Wall);
    assert_eq!(m.tile_at(20, 15), TileType::Door);
    assert_eq!(m.tile_at(27, 9), TileType::Water);
    assert_eq!(m.tile_at(5, 5), TileType::Floor);
    assert_eq!(m.tile_at(0, 15), TileType::Wall);
    assert_eq!(m.items.len(), 1);
    assert_eq!((m.items[0].x, m.items[0].y), (5, 5));
    assert_eq!(m.items[0].item.name, "Treasure Chest");
    assert_eq!(m.items[0].item.item_type, ItemType::Weapon { damage: 25 });
}

#[test]
fn take_item_removes_only_that_cell() {
    let mut m = GameMap::new_town_map(0);
    assert!(m.take_item(1, 1).is_none());
    assert_eq!(m.items.len(), 1);
    let it = m.take_item(10, 15).unwrap();
    assert_eq!(it.name, "Town Supply");
    assert!(m.items.is_empty());
    assert!(m.take_item(10, 15).is_none());
}

#[test]
fn clone_keeps_the_catalog_apart() {
    let template = GameMap::new_dungeon_map(0);
    let mut copy = template.clone();
    assert!(copy.take_item(5, 5).is_some());
    assert_eq!(template.items.len(), 1);
    assert_eq!(copy.name, template.name);
    assert_eq!(copy.tiles, template.tiles);
}

#[test]
fn tile_properties() {
    let walkable = [
        TileType::Floor,
        TileType::Door,
        TileType::Grass,
        TileType::Forest,
        TileType::Town,
        TileType::Dungeon,
    ];
    for t in walkable {
        assert!(t.is_walkable());
    }
    for t in [TileType::Wall, TileType::Water, TileType::Mountain] {
        assert!(!t.is_walkable());
        assert!(!t.is_enterable());
    }
    assert!(TileType::Town.is_enterable());
    assert!(TileType::Dungeon.is_enterable());
    assert!(!TileType::Grass.is_enterable());
}

#[test]
fn tile_glyphs() {
    assert_eq!(TileType::Floor.as_char(), ".");
    assert_eq!(TileType::Wall.as_char(), "#");
    assert_eq!(TileType::Door.as_char(), "+");
    assert_eq!(TileType::Water.as_char(), "~");
    assert_eq!(TileType::Grass.as_char(), "\"");
    assert_eq!(TileType::Mountain.as_char(), "^");
    assert_eq!(TileType::Forest.as_char(), "&");
    assert_eq!(TileType::Town.as_char(), "※");
    assert_eq!(TileType::Dungeon.as_char(), "▼");
}

#[test]
fn gate_table() {
    assert_eq!(
        gate_at(15, 10),
        Some(Gate { kind: MapType::Town, index: 0, entry_x: 20, entry_y: 15 })
    );
    assert_eq!(
        gate_at(50, 25),
        Some(Gate { kind: MapType::Town, index: 1, entry_x: 20, entry_y: 15 })
    );
    assert_eq!(
        gate_at(40, 8),
        Some(Gate { kind: MapType::Dungeon, index: 0, entry_x: 5, entry_y: 5 })
    );
    assert_eq!(
        gate_at(25, 30),
        Some(Gate { kind: MapType::Dungeon, index: 1, entry_x: 5, entry_y: 5 })
    );
    assert_eq!(gate_at(40, 20), None);
}

#[test]
fn decimal_rendering() {
    assert_eq!(decimal_text(0), "0");
    assert_eq!(decimal_text(7), "7");
    assert_eq!(decimal_text(15), "15");
    assert_eq!(decimal_text(100), "100");
    assert_eq!(decimal_text(u64::MAX), "18446744073709551615");
}
