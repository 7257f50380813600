//! Terrain kinds and map kinds, with their derived properties.

use vstd::prelude::*;

verus! {

/// One cell of terrain.
#[derive(Clone, Copy, PartialEq, Eq, Structural, Debug)]
pub enum TileType {
    Floor,
    Wall,
    Door,
    Water,
    Grass,
    Mountain,
    Forest,
    /// Gate of a town, enterable from the overworld.
    Town,
    /// Gate of a dungeon, enterable from the overworld.
    Dungeon,
}

/// Which family of maps a grid belongs to.
#[derive(Clone, Copy, PartialEq, Eq, Structural, Debug)]
pub enum MapType {
    WorldMap,
    Town,
    Dungeon,
}

/// Whether the player may stand on a tile of kind `t`.
pub open spec fn tile_walkable(t: TileType) -> bool {
    match t {
        TileType::Floor | TileType::Door | TileType::Grass | TileType::Forest
        | TileType::Town | TileType::Dungeon => true,
        TileType::Wall | TileType::Water | TileType::Mountain => false,
    }
}

/// Whether a tile of kind `t` leads into a location.
pub open spec fn tile_enterable(t: TileType) -> bool {
    t is Town || t is Dungeon
}

/// The one-character text that shows a tile of kind `t`.
pub open spec fn tile_glyph(t: TileType) -> Seq<char> {
    match t {
        TileType::Floor => "."@,
        TileType::Wall => "#"@,
        TileType::Door => "+"@,
        TileType::Water => "~"@,
        TileType::Grass => "\""@,
        TileType::Mountain => "^"@,
        TileType::Forest => "&"@,
        TileType::Town => "※"@,
        TileType::Dungeon => "▼"@,
    }
}

impl TileType {
    /// The text that shows this tile.
    pub fn as_char(&self) -> (r: &'static str)
        ensures
            r@ == tile_glyph(*self),
    {
        match self {
            TileType::Floor => ".",
            TileType::Wall => "#",
            TileType::Door => "+",
            TileType::Water => "~",
            TileType::Grass => "\"",
            TileType::Mountain => "^",
            TileType::Forest => "&",
            TileType::Town => "※",
            TileType::Dungeon => "▼",
        }
    }

    /// Whether the player may stand on this tile.
    pub fn is_walkable(&self) -> (r: bool)
        ensures
            r == tile_walkable(*self),
    {
        match self {
            TileType::Floor | TileType::Door | TileType::Grass | TileType::Forest
            | TileType::Town | TileType::Dungeon => true,
            _ => false,
        }
    }

    /// Whether this tile leads into a location.
    pub fn is_enterable(&self) -> (r: bool)
        ensures
            r == tile_enterable(*self),
    {
        match self {
            TileType::Town | TileType::Dungeon => true,
            _ => false,
        }
    }
}

} // verus!
