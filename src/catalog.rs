//! The fixed map layouts: one overworld, and the town and dungeon rooms.

use vstd::prelude::*;
use vstd::string::*;
use crate::grid::{GameMap, GroundItem};
use crate::item::{Item, ItemType};
use crate::terrain::{MapType, TileType};
use crate::text::{decimal, decimal_text};

verus! {

pub const WORLD_WIDTH: i32 = 80;

pub const WORLD_HEIGHT: i32 = 40;

pub const ROOM_WIDTH: i32 = 40;

pub const ROOM_HEIGHT: i32 = 30;

/// The overworld: grassland with a mountain range, a forest and a lake, two
/// town gates and two dungeon gates.
pub open spec fn world_tile(x: int, y: int) -> TileType {
    if (x == 15 && y == 10) || (x == 50 && y == 25) {
        TileType::Town
    } else if (x == 40 && y == 8) || (x == 25 && y == 30) {
        TileType::Dungeon
    } else if 40 <= x < 60 && 30 <= y < 35 {
        TileType::Water
    } else if 10 <= x < 20 && 15 <= y < 25 {
        TileType::Forest
    } else if 20 <= x < 30 && 5 <= y < 10 {
        TileType::Mountain
    } else {
        TileType::Grass
    }
}

/// The outer ring of a room.
pub open spec fn room_border(x: int, y: int) -> bool {
    x == 0 || x == ROOM_WIDTH - 1 || y == 0 || y == ROOM_HEIGHT - 1
}

/// A town: a walled square with two buildings, each with one door, and a
/// well.
pub open spec fn town_tile(x: int, y: int) -> TileType {
    if x == 10 && y == 15 {
        TileType::Water
    } else if (x == 10 && y == 8) || (x == 25 && y == 18) {
        TileType::Door
    } else if room_border(x, y) || (5 <= x < 15 && 5 <= y < 12) || (20 <= x < 30 && 15 <= y < 22) {
        TileType::Wall
    } else {
        TileType::Floor
    }
}

/// A dungeon: a walled room with two inner walls, each with one door, and a
/// pool.
pub open spec fn dungeon_tile(x: int, y: int) -> TileType {
    if 25 <= x < 30 && 8 <= y < 12 {
        TileType::Water
    } else if (x == 12 && y == 5) || (x == 20 && y == 15) {
        TileType::Door
    } else if room_border(x, y) || (y == 5 && 10 <= x < 15) || (x == 20 && 10 <= y < 20) {
        TileType::Wall
    } else {
        TileType::Floor
    }
}

/// The tile at `(x, y)` in the layout of maps of kind `kind`.
pub open spec fn layout(kind: MapType, x: int, y: int) -> TileType {
    match kind {
        MapType::WorldMap => world_tile(x, y),
        MapType::Town => town_tile(x, y),
        MapType::Dungeon => dungeon_tile(x, y),
    }
}

fn layout_tile(kind: MapType, x: i32, y: i32) -> (t: TileType)
    ensures
        t == layout(kind, x as int, y as int),
{
    match kind {
        MapType::WorldMap => {
            if (x == 15 && y == 10) || (x == 50 && y == 25) {
                TileType::Town
            } else if (x == 40 && y == 8) || (x == 25 && y == 30) {
                TileType::Dungeon
            } else if 40 <= x && x < 60 && 30 <= y && y < 35 {
                TileType::Water
            } else if 10 <= x && x < 20 && 15 <= y && y < 25 {
                TileType::Forest
            } else if 20 <= x && x < 30 && 5 <= y && y < 10 {
                TileType::Mountain
            } else {
                TileType::Grass
            }
        },
        MapType::Town => {
            let border = x == 0 || x == ROOM_WIDTH - 1 || y == 0 || y == ROOM_HEIGHT - 1;
            if x == 10 && y == 15 {
                TileType::Water
            } else if (x == 10 && y == 8) || (x == 25 && y == 18) {
                TileType::Door
            } else if border || (5 <= x && x < 15 && 5 <= y && y < 12) || (20 <= x && x < 30 && 15
                <= y && y < 22) {
                TileType::Wall
            } else {
                TileType::Floor
            }
        },
        MapType::Dungeon => {
            let border = x == 0 || x == ROOM_WIDTH - 1 || y == 0 || y == ROOM_HEIGHT - 1;
            if 25 <= x && x < 30 && 8 <= y && y < 12 {
                TileType::Water
            } else if (x == 12 && y == 5) || (x == 20 && y == 15) {
                TileType::Door
            } else if border || (y == 5 && 10 <= x && x < 15) || (x == 20 && 10 <= y && y < 20) {
                TileType::Wall
            } else {
                TileType::Floor
            }
        },
    }
}

/// `height` rows of `width` tiles laid out as maps of kind `kind`.
fn build_tiles(kind: MapType, width: i32, height: i32) -> (tiles: Vec<Vec<TileType>>)
    requires
        0 <= width,
        0 <= height,
    ensures
        tiles@.len() == height,
        forall|y: int| 0 <= y < height ==> (#[trigger] tiles@[y])@.len() == width,
        forall|y: int, x: int|
            0 <= y < height && 0 <= x < width ==> #[trigger] tiles@[y]@[x] == layout(kind, x, y),
{
    let mut tiles: Vec<Vec<TileType>> = Vec::new();
    let mut y: i32 = 0;
    while y < height
        invariant
            0 <= width,
            0 <= y <= height,
            tiles@.len() == y,
            forall|k: int| 0 <= k < y ==> (#[trigger] tiles@[k])@.len() == width,
            forall|k: int, x: int|
                0 <= k < y && 0 <= x < width ==> #[trigger] tiles@[k]@[x] == layout(kind, x, k),
        decreases height - y,
    {
        let mut row: Vec<TileType> = Vec::new();
        let mut x: i32 = 0;
        while x < width
            invariant
                0 <= x <= width,
                0 <= y < height,
                row@.len() == x,
                forall|k: int| 0 <= k < x ==> row@[k] == layout(kind, k, y as int),
            decreases width - x,
        {
            row.push(layout_tile(kind, x, y));
            x += 1;
        }
        tiles.push(row);
        y += 1;
    }
    tiles
}

/// A map of kind `kind` holding the given tiles, its items and its name.
pub open spec fn laid_out(m: GameMap, kind: MapType, width: int, height: int) -> bool {
    &&& m.wf()
    &&& m.width == width
    &&& m.height == height
    &&& m.map_type == kind
    &&& forall|x: int, y: int| #[trigger]
        m@.in_bounds(x, y) ==> m@.tile(x, y) == layout(kind, x, y)
}

/// The overworld as built by `new_world_map`.
pub open spec fn is_world_map(m: GameMap) -> bool {
    &&& laid_out(m, MapType::WorldMap, WORLD_WIDTH as int, WORLD_HEIGHT as int)
    &&& m.items@.len() == 0
    &&& m.name@ == "Wasteland"@
}

/// Town `id` as built by `new_town_map`.
pub open spec fn is_town_map(m: GameMap, id: nat) -> bool {
    &&& laid_out(m, MapType::Town, ROOM_WIDTH as int, ROOM_HEIGHT as int)
    &&& m.name@ == "Town #"@ + decimal(id + 1)
    &&& m.items@.len() == 1
    &&& m.items@[0].x == 10 && m.items@[0].y == 15
    &&& m.items@[0].item.name@ == "Town Supply"@
    &&& m.items@[0].item.glyph@ == "$"@
    &&& m.items@[0].item.item_type == (ItemType::Consumable { heal: 30 })
}

/// Dungeon `id` as built by `new_dungeon_map`.
pub open spec fn is_dungeon_map(m: GameMap, id: nat) -> bool {
    &&& laid_out(m, MapType::Dungeon, ROOM_WIDTH as int, ROOM_HEIGHT as int)
    &&& m.name@ == "Dungeon #"@ + decimal(id + 1)
    &&& m.items@.len() == 1
    &&& m.items@[0].x == 5 && m.items@[0].y == 5
    &&& m.items@[0].item.name@ == "Treasure Chest"@
    &&& m.items@[0].item.glyph@ == "☐"@
    &&& m.items@[0].item.item_type == (ItemType::Weapon { damage: 25 })
}

impl GameMap {
    /// The overworld, "Wasteland": no items lie on it.
    pub fn new_world_map() -> (r: GameMap)
        ensures
            is_world_map(r),
    {
        let r = GameMap {
            width: WORLD_WIDTH,
            height: WORLD_HEIGHT,
            tiles: build_tiles(MapType::WorldMap, WORLD_WIDTH, WORLD_HEIGHT),
            items: Vec::new(),
            map_type: MapType::WorldMap,
            name: String::from_str("Wasteland"),
        };
        assert(r.wf());
        r
    }

    /// Town number `town_id + 1`: the town layout, with a supply of healing
    /// lying at `(10, 15)`.
    pub fn new_town_map(town_id: usize) -> (r: GameMap)
        requires
            town_id < usize::MAX,
        ensures
            is_town_map(r, town_id as nat),
    {
        let mut items: Vec<GroundItem> = Vec::new();
        items.push(
            GroundItem {
                x: 10,
                y: 15,
                item: Item::new("Town Supply", "$", ItemType::Consumable { heal: 30 }),
            },
        );
        let r = GameMap {
            width: ROOM_WIDTH,
            height: ROOM_HEIGHT,
            tiles: build_tiles(MapType::Town, ROOM_WIDTH, ROOM_HEIGHT),
            items,
            map_type: MapType::Town,
            name: String::from_str("Town #").concat(decimal_text(town_id as u64 + 1).as_str()),
        };
        assert(r.wf());
        r
    }

    /// Dungeon number `dungeon_id + 1`: the dungeon layout, with a treasure
    /// chest holding a weapon at `(5, 5)`.
    pub fn new_dungeon_map(dungeon_id: usize) -> (r: GameMap)
        requires
            dungeon_id < usize::MAX,
        ensures
            is_dungeon_map(r, dungeon_id as nat),
    {
        let mut items: Vec<GroundItem> = Vec::new();
        items.push(
            GroundItem {
                x: 5,
                y: 5,
                item: Item::new("Treasure Chest", "☐", ItemType::Weapon { damage: 25 }),
            },
        );
        let r = GameMap {
            width: ROOM_WIDTH,
            height: ROOM_HEIGHT,
            tiles: build_tiles(MapType::Dungeon, ROOM_WIDTH, ROOM_HEIGHT),
            items,
            map_type: MapType::Dungeon,
            name: String::from_str("Dungeon #").concat(decimal_text(dungeon_id as u64 + 1).as_str()),
        };
        assert(r.wf());
        r
    }
}

} // verus!
