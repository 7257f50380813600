//! The player and the non-player actors, with the fixed roster of each kind
//! of location.

use vstd::prelude::*;
use crate::dialogue::{DialogueNode, dialogue_shape, dialogue_wf, node, reply};
use crate::item::Item;

verus! {

/// The player's seven attributes; read by the display, never changed here.
#[derive(Clone, Copy, PartialEq, Eq, Structural, Debug)]
pub struct PlayerStats {
    pub strength: i32,
    pub perception: i32,
    pub endurance: i32,
    pub charisma: i32,
    pub intelligence: i32,
    pub agility: i32,
    pub luck: i32,
}

/// The player: position, health, inventory in order of pickup, attributes.
#[derive(Debug)]
pub struct Player {
    pub x: i32,
    pub y: i32,
    pub hp: i32,
    pub max_hp: i32,
    pub inventory: Vec<Item>,
    pub stats: PlayerStats,
}

/// A non-player actor: a friendly one talks through its dialogue graph, a
/// hostile one fights.
#[derive(Debug)]
pub struct Npc {
    pub name: String,
    pub glyph: &'static str,
    pub x: i32,
    pub y: i32,
    pub hp: i32,
    pub max_hp: i32,
    pub hostile: bool,
    pub dialogue: Vec<DialogueNode>,
}

impl Npc {
    /// A live actor whose dialogue graph can be walked.
    pub open spec fn wf(&self) -> bool {
        self.hp > 0 && dialogue_wf(self.dialogue@)
    }

    /// The actor has the given name, place, full health, hostility and
    /// dialogue shape.
    pub open spec fn is(
        &self,
        name: Seq<char>,
        x: int,
        y: int,
        hp: int,
        hostile: bool,
        shape: Seq<Seq<Option<usize>>>,
    ) -> bool {
        &&& self.name@ == name
        &&& self.x == x
        &&& self.y == y
        &&& self.hp == hp
        &&& self.max_hp == hp
        &&& self.hostile == hostile
        &&& dialogue_shape(self.dialogue@) == shape
    }
}

/// A greeting with two or three branches, each closed by one reply.
pub open spec fn branching_shape(branches: Seq<Option<usize>>) -> Seq<Seq<Option<usize>>> {
    seq![branches, seq![None], seq![None]]
}

/// A single line with one reply that ends the conversation.
pub open spec fn one_line_shape() -> Seq<Seq<Option<usize>>> {
    seq![seq![None]]
}

/// The overworld's roster: a travelling merchant.
pub open spec fn is_world_roster(s: Seq<Npc>) -> bool {
    &&& s.len() == 1
    &&& s[0].is(
        "Traveling Merchant"@,
        35,
        20,
        50,
        false,
        branching_shape(seq![Some(1usize), Some(2usize), None]),
    )
}

/// A town's roster: a townsperson and a blacksmith.
pub open spec fn is_town_roster(s: Seq<Npc>) -> bool {
    &&& s.len() == 2
    &&& s[0].is("Townfolk"@, 15, 15, 50, false, branching_shape(seq![Some(1usize), Some(2usize)]))
    &&& s[1].is("Blacksmith"@, 10, 8, 80, false, branching_shape(seq![Some(1usize), Some(2usize)]))
}

/// A dungeon's roster: a guard and a beast, both hostile.
pub open spec fn is_dungeon_roster(s: Seq<Npc>) -> bool {
    &&& s.len() == 2
    &&& s[0].is("Dungeon Guard"@, 10, 10, 80, true, one_line_shape())
    &&& s[1].is("Mutant Beast"@, 25, 15, 100, true, one_line_shape())
}

/// Every actor of the roster is live with a walkable dialogue graph.
pub open spec fn roster_wf(s: Seq<Npc>) -> bool {
    forall|i: int| 0 <= i < s.len() ==> (#[trigger] s[i]).wf()
}

fn npc(
    name: &str,
    glyph: &'static str,
    x: i32,
    y: i32,
    hp: i32,
    hostile: bool,
    dialogue: Vec<DialogueNode>,
) -> (r: Npc)
    ensures
        r.name@ == name@,
        r.glyph == glyph,
        r.x == x,
        r.y == y,
        r.hp == hp,
        r.max_hp == hp,
        r.hostile == hostile,
        r.dialogue@ == dialogue@,
{
    Npc { name: String::from_str(name), glyph, x, y, hp, max_hp: hp, hostile, dialogue }
}

fn merchant() -> (r: Npc)
    ensures
        r.wf(),
        is_world_roster(seq![r]),
{
    let d = vec![
        node(
            "Howdy, stranger! What brings you to these parts?",
            vec![
                reply("I'm here for adventure!", Some(1)),
                reply("Just passing by.", Some(2)),
                reply("None of your business.", None),
            ],
        ),
        node(
            "Adventure, eh? Well, watch out for demonic cows!",
            vec![reply("Thanks for the tip!", None)],
        ),
        node("Safe travels, partner!", vec![reply("See ya!", None)]),
    ];
    let r = npc("Traveling Merchant", "♥", 35, 20, 50, false, d);
    assert(dialogue_shape(r.dialogue@)[0] =~= seq![Some(1usize), Some(2usize), None]);
    assert(dialogue_shape(r.dialogue@)[1] =~= seq![None]);
    assert(dialogue_shape(r.dialogue@)[2] =~= seq![None]);
    assert(dialogue_shape(r.dialogue@) =~= branching_shape(seq![Some(1usize), Some(2usize), None]));
    r
}

/// The overworld's actors, as they stand whenever the overworld is entered.
pub fn world_npcs() -> (r: Vec<Npc>)
    ensures
        roster_wf(r@),
        is_world_roster(r@),
{
    let r = vec![merchant()];
    assert(r@ =~= seq![r@[0]]);
    r
}

fn townfolk() -> (r: Npc)
    ensures
        r.wf(),
        r.is("Townfolk"@, 15, 15, 50, false, branching_shape(seq![Some(1usize), Some(2usize)])),
{
    let d = vec![
        node(
            "Welcome to our town! Are you lost or just weird?",
            vec![
                reply("A bit of both, honestly.", Some(1)),
                reply("I'm looking for work.", Some(2)),
            ],
        ),
        node("That's the spirit! You'll fit right in.", vec![reply("Thanks?", None)]),
        node(
            "Try the saloon. Or the cemetery. Both are lively.",
            vec![reply("I'll check them out.", None)],
        ),
    ];
    let r = npc("Townfolk", "☺", 15, 15, 50, false, d);
    assert(dialogue_shape(r.dialogue@)[0] =~= seq![Some(1usize), Some(2usize)]);
    assert(dialogue_shape(r.dialogue@)[1] =~= seq![None]);
    assert(dialogue_shape(r.dialogue@)[2] =~= seq![None]);
    assert(dialogue_shape(r.dialogue@) =~= branching_shape(seq![Some(1usize), Some(2usize)]));
    r
}

fn blacksmith() -> (r: Npc)
    ensures
        r.wf(),
        r.is("Blacksmith"@, 10, 8, 80, false, branching_shape(seq![Some(1usize), Some(2usize)])),
{
    let d = vec![
        node(
            "Need repairs? Or just here to chat?",
            vec![reply("My gear's busted.", Some(1)), reply("Just lonely.", Some(2))],
        ),
        node("That'll be 50 meat. Up front.", vec![reply("Here you go.", None)]),
        node("Me too, friend. Me too.", vec![reply("...", None)]),
    ];
    let r = npc("Blacksmith", "♦", 10, 8, 80, false, d);
    assert(dialogue_shape(r.dialogue@)[0] =~= seq![Some(1usize), Some(2usize)]);
    assert(dialogue_shape(r.dialogue@)[1] =~= seq![None]);
    assert(dialogue_shape(r.dialogue@)[2] =~= seq![None]);
    assert(dialogue_shape(r.dialogue@) =~= branching_shape(seq![Some(1usize), Some(2usize)]));
    r
}

/// A hostile actor with one line of dialogue.
fn brute(name: &str, glyph: &'static str, x: i32, y: i32, hp: i32, line: &str, answer: &str) -> (r:
    Npc)
    requires
        hp > 0,
    ensures
        r.wf(),
        r.is(name@, x as int, y as int, hp as int, true, one_line_shape()),
        r.glyph == glyph,
{
    let d = vec![node(line, vec![reply(answer, None)])];
    let r = npc(name, glyph, x, y, hp, true, d);
    assert(dialogue_shape(r.dialogue@)[0] =~= seq![None]);
    assert(dialogue_shape(r.dialogue@) =~= one_line_shape());
    r
}

/// The actors of town `town_id`, as they stand whenever it is entered; every
/// town has the same roster.
pub fn town_npcs(town_id: usize) -> (r: Vec<Npc>)
    ensures
        roster_wf(r@),
        is_town_roster(r@),
{
    let r = vec![townfolk(), blacksmith()];
    assert(roster_wf(r@));
    r
}

/// The actors of dungeon `dungeon_id`, as they stand whenever it is entered;
/// every dungeon has the same roster.
pub fn dungeon_npcs(dungeon_id: usize) -> (r: Vec<Npc>)
    ensures
        roster_wf(r@),
        is_dungeon_roster(r@),
{
    let r = vec![
        brute("Dungeon Guard", "G", 10, 10, 80, "Intruders must die!", "Fight!"),
        brute("Mutant Beast", "M", 25, 15, 100, "Hssssss...", "Back away slowly..."),
    ];
    assert(roster_wf(r@));
    r
}

} // verus!
