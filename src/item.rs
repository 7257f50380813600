//! Items that lie on the ground or sit in the player's inventory.

use vstd::prelude::*;

verus! {

/// What an item does.
#[derive(Clone, Copy, PartialEq, Eq, Structural, Debug)]
pub enum ItemType {
    Weapon { damage: i32 },
    Armor { defense: i32 },
    Consumable { heal: i32 },
    Quest,
}

/// An item: its name, the text that shows it on the map, and its kind.
#[derive(Debug)]
pub struct Item {
    pub name: String,
    pub glyph: &'static str,
    pub item_type: ItemType,
}

impl Clone for Item {
    fn clone(&self) -> (r: Self)
        ensures
            r == *self,
    {
        Item { name: self.name.clone(), glyph: self.glyph, item_type: self.item_type }
    }
}

impl Item {
    /// An item with the given name, text and kind.
    pub fn new(name: &str, glyph: &'static str, item_type: ItemType) -> (r: Item)
        ensures
            r.name@ == name@,
            r.glyph == glyph,
            r.item_type == item_type,
    {
        Item { name: String::from_str(name), glyph, item_type }
    }
}

} // verus!
