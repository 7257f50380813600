//! A rectangular grid of terrain with items lying on some of its cells.

use vstd::prelude::*;
use crate::item::Item;
use crate::terrain::{MapType, TileType, tile_walkable};

verus! {

/// An item lying on the cell `(x, y)`.
#[derive(Debug)]
pub struct GroundItem {
    pub x: i32,
    pub y: i32,
    pub item: Item,
}

impl Clone for GroundItem {
    fn clone(&self) -> (r: Self)
        ensures
            r == *self,
    {
        GroundItem { x: self.x, y: self.y, item: self.item.clone() }
    }
}

/// A map: `height` rows of `width` tiles, the items on its cells (at most one
/// per cell), its kind and its display name.
#[derive(Debug)]
pub struct GameMap {
    pub width: i32,
    pub height: i32,
    pub tiles: Vec<Vec<TileType>>,
    pub items: Vec<GroundItem>,
    pub map_type: MapType,
    pub name: String,
}

/// The value of a map: its dimensions, rows of tiles, items, kind and name.
pub struct MapView {
    pub width: int,
    pub height: int,
    pub tiles: Seq<Seq<TileType>>,
    pub items: Seq<GroundItem>,
    pub map_type: MapType,
    pub name: Seq<char>,
}

impl View for GameMap {
    type V = MapView;

    open spec fn view(&self) -> MapView {
        MapView {
            width: self.width as int,
            height: self.height as int,
            tiles: self.tiles@.map_values(|row: Vec<TileType>| row@),
            items: self.items@,
            map_type: self.map_type,
            name: self.name@,
        }
    }
}

impl MapView {
    pub open spec fn in_bounds(&self, x: int, y: int) -> bool {
        0 <= x < self.width && 0 <= y < self.height
    }

    /// The tile at `(x, y)`, for a cell in bounds.
    pub open spec fn tile(&self, x: int, y: int) -> TileType {
        self.tiles[y][x]
    }

    /// The admission rule for movement: in bounds and of a walkable kind.
    pub open spec fn walkable_at(&self, x: int, y: int) -> bool {
        self.in_bounds(x, y) && tile_walkable(self.tile(x, y))
    }

    /// Entry `i` of the item list lies on `(x, y)`.
    pub open spec fn item_slot(&self, i: int, x: int, y: int) -> bool {
        0 <= i < self.items.len() && self.items[i].x == x && self.items[i].y == y
    }

    /// Some item lies on `(x, y)`.
    pub open spec fn holds_item_at(&self, x: int, y: int) -> bool {
        exists|i: int| #[trigger] self.item_slot(i, x, y)
    }

    /// The item on `(x, y)`, where `holds_item_at(x, y)`.
    pub open spec fn item_at(&self, x: int, y: int) -> Item {
        self.items[choose|i: int| #[trigger] self.item_slot(i, x, y)].item
    }

    /// Rows of `width` tiles, `height` of them; every item on a cell of the
    /// grid, and no two on one cell.
    pub open spec fn wf(&self) -> bool {
        &&& 0 <= self.width
        &&& 0 <= self.height
        &&& self.tiles.len() == self.height
        &&& forall|y: int| 0 <= y < self.height ==> (#[trigger] self.tiles[y]).len() == self.width
        &&& forall|i: int|
            0 <= i < self.items.len() ==> self.in_bounds(
                (#[trigger] self.items[i]).x as int,
                self.items[i].y as int,
            )
        &&& forall|i: int, j: int|
            0 <= i < self.items.len() && 0 <= j < self.items.len() && i != j ==> !(
            #[trigger] self.items[i].x == #[trigger] self.items[j].x && self.items[i].y
                == self.items[j].y)
    }
}

/// `new` is `old` with the item on `(x, y)` gone, if there was one, and
/// nothing else changed.
pub open spec fn item_removed(old: MapView, new: MapView, x: int, y: int) -> bool {
    &&& new.width == old.width
    &&& new.height == old.height
    &&& new.tiles == old.tiles
    &&& new.map_type == old.map_type
    &&& new.name == old.name
    &&& !new.holds_item_at(x, y)
    &&& forall|a: int, b: int|
        !(a == x && b == y) ==> (#[trigger] new.holds_item_at(a, b) == old.holds_item_at(a, b)) && (
        old.holds_item_at(a, b) ==> new.item_at(a, b) == old.item_at(a, b))
}

impl GameMap {
    pub open spec fn wf(&self) -> bool {
        self@.wf()
    }

    /// Whether the player may stand on `(x, y)`: false outside the grid,
    /// else the walkability of the tile there.
    pub fn is_walkable(&self, x: i32, y: i32) -> (r: bool)
        requires
            self.wf(),
        ensures
            r == self@.walkable_at(x as int, y as int),
    {
        if x < 0 || x >= self.width || y < 0 || y >= self.height {
            return false;
        }
        assert(self@.tiles[y as int] == self.tiles@[y as int]@);
        self.tiles[y as usize][x as usize].is_walkable()
    }

    /// The tile at `(x, y)`.
    pub fn tile_at(&self, x: i32, y: i32) -> (r: TileType)
        requires
            self.wf(),
            self@.in_bounds(x as int, y as int),
        ensures
            r == self@.tile(x as int, y as int),
    {
        assert(self@.tiles[y as int] == self.tiles@[y as int]@);
        self.tiles[y as usize][x as usize]
    }

    /// Removes the item on `(x, y)`, if any, and hands it over.
    pub fn take_item(&mut self, x: i32, y: i32) -> (r: Option<Item>)
        requires
            old(self).wf(),
        ensures
            final(self).wf(),
            final(self).width == old(self).width,
            final(self).height == old(self).height,
            final(self).map_type == old(self).map_type,
            item_removed(old(self)@, final(self)@, x as int, y as int),
            r == if old(self)@.holds_item_at(x as int, y as int) {
                Some(old(self)@.item_at(x as int, y as int))
            } else {
                None::<Item>
            },
            !old(self)@.holds_item_at(x as int, y as int) ==> *final(self) == *old(self),
    {
        let mut i: usize = 0;
        while i < self.items.len()
            invariant
                self.wf(),
                *self == *old(self),
                i <= self.items@.len(),
                forall|k: int| 0 <= k < i ==> !self@.item_slot(k, x as int, y as int),
            decreases self.items@.len() - i,
        {
            if self.items[i].x == x && self.items[i].y == y {
                let ghost before = *self;
                proof {
                    assert(before@.item_slot(i as int, x as int, y as int));
                    assert(before@.item_at(x as int, y as int) == before.items@[i as int].item);
                }
                let taken = self.items.remove(i);
                proof {
                    let after = *self;
                    assert(after.items@ == before.items@.remove(i as int));
                    assert forall|k: int| #[trigger]
                        after@.item_slot(k, x as int, y as int) implies false by {
                        if k < i {
                            assert(before@.item_slot(k, x as int, y as int));
                        } else {
                            assert(before@.item_slot(k + 1, x as int, y as int));
                        }
                    }
                    assert forall|a: int, b: int| !(a == x && b == y) implies (
                    #[trigger] after@.holds_item_at(a, b) == before@.holds_item_at(a, b)) && (
                    before@.holds_item_at(a, b) ==> after@.item_at(a, b) == before@.item_at(a, b)) by {
                        if before@.holds_item_at(a, b) {
                            let k = choose|k: int| #[trigger] before@.item_slot(k, a, b);
                            let k2 = if k < i { k } else { k - 1 };
                            assert(k != i);
                            assert(after@.item_slot(k2, a, b));
                            let m = choose|m: int| #[trigger] after@.item_slot(m, a, b);
                            let m0 = if m < i { m } else { m + 1 };
                            assert(before@.item_slot(m0, a, b));
                        }
                        if after@.holds_item_at(a, b) {
                            let m = choose|m: int| #[trigger] after@.item_slot(m, a, b);
                            let m0 = if m < i { m } else { m + 1 };
                            assert(before@.item_slot(m0, a, b));
                        }
                    }
                }
                return Some(taken.item);
            }
            i += 1;
        }
        None
    }
}

/// A copy of `rows`, tile by tile.
fn copy_tiles(rows: &Vec<Vec<TileType>>) -> (r: Vec<Vec<TileType>>)
    ensures
        r@.len() == rows@.len(),
        forall|y: int| 0 <= y < rows@.len() ==> (#[trigger] r@[y])@ == rows@[y]@,
{
    let mut r: Vec<Vec<TileType>> = Vec::new();
    let mut y: usize = 0;
    while y < rows.len()
        invariant
            y <= rows@.len(),
            r@.len() == y,
            forall|k: int| 0 <= k < y ==> (#[trigger] r@[k])@ == rows@[k]@,
        decreases rows@.len() - y,
    {
        let src = &rows[y];
        let mut row: Vec<TileType> = Vec::new();
        let mut x: usize = 0;
        while x < src.len()
            invariant
                x <= src@.len(),
                row@ == src@.subrange(0, x as int),
            decreases src@.len() - x,
        {
            row.push(src[x]);
            x += 1;
            assert(row@ =~= src@.subrange(0, x as int));
        }
        assert(row@ =~= src@);
        r.push(row);
        y += 1;
    }
    r
}

impl Clone for GameMap {
    fn clone(&self) -> (r: Self)
        ensures
            r@ == self@,
    {
        let items = self.items.clone();
        assert(items@ =~= self.items@);
        let r = GameMap {
            width: self.width,
            height: self.height,
            tiles: copy_tiles(&self.tiles),
            items,
            map_type: self.map_type,
            name: self.name.clone(),
        };
        assert(r@.tiles =~= self@.tiles);
        r
    }
}

} // verus!
