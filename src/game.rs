//! The world and the mode machine that routes each command to the handler of
//! the current mode.

use vstd::prelude::*;
use vstd::string::*;
use crate::actor::{
    Npc, Player, PlayerStats, dungeon_npcs, is_dungeon_roster, is_town_roster, is_world_roster,
    roster_wf, town_npcs, world_npcs,
};
use crate::catalog::{
    ROOM_HEIGHT, ROOM_WIDTH, WORLD_HEIGHT, WORLD_WIDTH, is_dungeon_map, is_town_map, is_world_map,
};
use crate::dialogue::{option_count, option_target};
use crate::grid::{GameMap, item_removed};
use crate::log::{LOG_CAPACITY, log_append, log_view, push_message};
use crate::terrain::{MapType, tile_enterable};
use crate::text::{decimal, decimal_text};

verus! {

/// How many towns the catalog holds.
pub const TOWN_COUNT: usize = 2;

/// How many dungeons the catalog holds.
pub const DUNGEON_COUNT: usize = 2;

/// Damage of each of the player's attacks.
pub const PLAYER_ATTACK: i32 = 15;

/// Damage of each counter-attack.
pub const ENEMY_ATTACK: i32 = 10;

/// How far the camera sits left of the player.
pub const VIEW_HALF_WIDTH: i32 = 20;

/// How far the camera sits above the player.
pub const VIEW_HALF_HEIGHT: i32 = 10;

/// The mode of play, with the indices that dialogue and combat work on.
#[derive(Clone, Copy, PartialEq, Eq, Structural, Debug)]
pub enum GameState {
    Playing,
    Inventory,
    /// Talking: actor index, node index, index of the selected option.
    Dialogue(usize, usize, usize),
    /// Fighting: actor index of the enemy.
    Combat(usize),
}

/// Where the player stood on the overworld before entering a location.
#[derive(Clone, Copy, PartialEq, Eq, Structural, Debug)]
pub struct MapLocation {
    pub map_type: MapType,
    pub map_id: usize,
    pub x: i32,
    pub y: i32,
}

/// Where a gate of the overworld leads: the kind and catalog index of the
/// location, and where the player appears in it.
#[derive(Clone, Copy, PartialEq, Eq, Structural, Debug)]
pub struct Gate {
    pub kind: MapType,
    pub index: usize,
    pub entry_x: i32,
    pub entry_y: i32,
}

/// Which location each overworld gate leads to.
pub open spec fn gate(x: int, y: int) -> Option<Gate> {
    if x == 15 && y == 10 {
        Some(Gate { kind: MapType::Town, index: 0, entry_x: 20, entry_y: 15 })
    } else if x == 50 && y == 25 {
        Some(Gate { kind: MapType::Town, index: 1, entry_x: 20, entry_y: 15 })
    } else if x == 40 && y == 8 {
        Some(Gate { kind: MapType::Dungeon, index: 0, entry_x: 5, entry_y: 5 })
    } else if x == 25 && y == 30 {
        Some(Gate { kind: MapType::Dungeon, index: 1, entry_x: 5, entry_y: 5 })
    } else {
        None
    }
}

/// What lies behind a gate at `(x, y)` of the overworld, if there is one.
pub fn gate_at(x: i32, y: i32) -> (r: Option<Gate>)
    ensures
        r == gate(x as int, y as int),
{
    if x == 15 && y == 10 {
        Some(Gate { kind: MapType::Town, index: 0, entry_x: 20, entry_y: 15 })
    } else if x == 50 && y == 25 {
        Some(Gate { kind: MapType::Town, index: 1, entry_x: 20, entry_y: 15 })
    } else if x == 40 && y == 8 {
        Some(Gate { kind: MapType::Dungeon, index: 0, entry_x: 5, entry_y: 5 })
    } else if x == 25 && y == 30 {
        Some(Gate { kind: MapType::Dungeon, index: 1, entry_x: 5, entry_y: 5 })
    } else {
        None
    }
}

/// The whole world: the player, the map played on, the catalog of maps, the
/// actors of the map played on, the mode, the message log, the camera, and
/// the overworld position to return to.
#[derive(Debug)]
pub struct Game {
    pub player: Player,
    pub current_map: GameMap,
    pub world_map: GameMap,
    pub town_maps: Vec<GameMap>,
    pub dungeon_maps: Vec<GameMap>,
    pub npcs: Vec<Npc>,
    pub state: GameState,
    pub messages: Vec<String>,
    pub camera_x: i32,
    pub camera_y: i32,
    pub previous_location: Option<MapLocation>,
}

pub open spec fn welcome_message() -> Seq<char> {
    "Welcome to the Wasteland! Press SPACE to enter towns/dungeons, ESC to return."@
}

pub open spec fn combat_message(name: Seq<char>) -> Seq<char> {
    "Combat with "@ + name + "!"@
}

pub open spec fn pickup_message(name: Seq<char>) -> Seq<char> {
    "Picked up "@ + name
}

pub open spec fn entered_message(name: Seq<char>) -> Seq<char> {
    "Entered "@ + name
}

pub open spec fn returned_message() -> Seq<char> {
    "Returned to world map"@
}

pub open spec fn dealt_message() -> Seq<char> {
    "You dealt "@ + decimal(PLAYER_ATTACK as nat) + " damage!"@
}

pub open spec fn defeated_message(name: Seq<char>) -> Seq<char> {
    name + " defeated!"@
}

pub open spec fn enemy_dealt_message() -> Seq<char> {
    "Enemy dealt "@ + decimal(ENEMY_ATTACK as nat) + " damage!"@
}

pub open spec fn fled_message() -> Seq<char> {
    "You ran away!"@
}

/// Health `hp` after a hit of `damage`. Health may fall to zero and below
/// (no defeat follows); it stops at the least `i32`.
pub open spec fn hit(hp: i32, damage: i32) -> i32 {
    if hp - damage < i32::MIN {
        i32::MIN
    } else {
        (hp - damage) as i32
    }
}

/// Some actor of `npcs` stands on `(x, y)`.
pub open spec fn npc_at(npcs: Seq<Npc>, x: int, y: int) -> bool {
    exists|i: int| 0 <= i < npcs.len() && (#[trigger] npcs[i]).x == x && npcs[i].y == y
}

/// Actor `i` is the first of `npcs` that stands on `(x, y)`.
pub open spec fn first_npc_at(npcs: Seq<Npc>, i: int, x: int, y: int) -> bool {
    &&& 0 <= i < npcs.len()
    &&& npcs[i].x == x
    &&& npcs[i].y == y
    &&& forall|j: int| 0 <= j < i ==> !((#[trigger] npcs[j]).x == x && npcs[j].y == y)
}

impl Game {
    /// The catalog map that gate `g` leads to.
    pub open spec fn catalog_map(&self, g: Gate) -> GameMap {
        if g.kind == MapType::Town {
            self.town_maps@[g.index as int]
        } else {
            self.dungeon_maps@[g.index as int]
        }
    }

    /// Gate `g` leads to a location of the catalog, onto one of its cells.
    pub open spec fn gate_ok(&self, g: Gate) -> bool {
        &&& g.kind != MapType::WorldMap
        &&& g.kind == MapType::Town ==> g.index < self.town_maps@.len()
        &&& g.kind == MapType::Dungeon ==> g.index < self.dungeon_maps@.len()
        &&& self.catalog_map(g)@.in_bounds(g.entry_x as int, g.entry_y as int)
    }

    /// The indices that the mode carries refer to a live actor, to a node of
    /// its dialogue and to an option of that node.
    pub open spec fn state_wf(&self) -> bool {
        match self.state {
            GameState::Playing | GameState::Inventory => true,
            GameState::Dialogue(a, n, o) => {
                &&& a < self.npcs@.len()
                &&& n < self.npcs@[a as int].dialogue@.len()
                &&& o < option_count(self.npcs@[a as int].dialogue@, n as int)
            },
            GameState::Combat(a) => a < self.npcs@.len(),
        }
    }

    pub open spec fn wf(&self) -> bool {
        &&& self.current_map.wf()
        &&& self.world_map.wf()
        &&& self.world_map.map_type == MapType::WorldMap
        &&& forall|i: int|
            0 <= i < self.town_maps@.len() ==> {
                &&& (#[trigger] self.town_maps@[i]).wf()
                &&& self.town_maps@[i].map_type == MapType::Town
                &&& self.town_maps@[i].width == ROOM_WIDTH
                &&& self.town_maps@[i].height == ROOM_HEIGHT
            }
        &&& forall|i: int|
            0 <= i < self.dungeon_maps@.len() ==> {
                &&& (#[trigger] self.dungeon_maps@[i]).wf()
                &&& self.dungeon_maps@[i].map_type == MapType::Dungeon
                &&& self.dungeon_maps@[i].width == ROOM_WIDTH
                &&& self.dungeon_maps@[i].height == ROOM_HEIGHT
            }
        &&& self.world_map.width == WORLD_WIDTH
        &&& self.world_map.height == WORLD_HEIGHT
        &&& forall|x: int, y: int| (#[trigger] gate(x, y)) is Some ==> self.gate_ok(gate(x, y)->0)
        &&& (self.current_map.map_type == MapType::WorldMap) == (self.previous_location is None)
        &&& self.previous_location matches Some(l) ==> self.world_map@.in_bounds(l.x as int, l.y as int)
        &&& self.current_map@.in_bounds(self.player.x as int, self.player.y as int)
        &&& roster_wf(self.npcs@)
        &&& forall|i: int|
            0 <= i < self.npcs@.len() ==> self.current_map@.in_bounds(
                (#[trigger] self.npcs@[i]).x as int,
                self.npcs@[i].y as int,
            )
        &&& self.state_wf()
        &&& self.messages@.len() <= LOG_CAPACITY
    }
}

impl Game {
    /// A new game: the player at `(40, 20)` of the overworld with full
    /// health, an empty inventory and every attribute at 5; the catalog of
    /// two towns and two dungeons; the overworld's actors; a welcome message.
    pub fn new() -> (r: Game)
        ensures
            r.wf(),
            r.player.x == 40 && r.player.y == 20,
            r.player.hp == 100 && r.player.max_hp == 100,
            r.player.inventory@.len() == 0,
            r.player.stats == (PlayerStats {
                strength: 5,
                perception: 5,
                endurance: 5,
                charisma: 5,
                intelligence: 5,
                agility: 5,
                luck: 5,
            }),
            is_world_map(r.world_map),
            r.current_map@ == r.world_map@,
            r.town_maps@.len() == TOWN_COUNT,
            forall|i: int| 0 <= i < TOWN_COUNT ==> is_town_map(#[trigger] r.town_maps@[i], i as nat),
            r.dungeon_maps@.len() == DUNGEON_COUNT,
            forall|i: int|
                0 <= i < DUNGEON_COUNT ==> is_dungeon_map(#[trigger] r.dungeon_maps@[i], i as nat),
            is_world_roster(r.npcs@),
            r.state == GameState::Playing,
            log_view(r.messages@) == seq![welcome_message()],
            r.camera_x == 0 && r.camera_y == 0,
            r.previous_location is None,
    {
        let player = Player {
            x: 40,
            y: 20,
            hp: 100,
            max_hp: 100,
            inventory: Vec::new(),
            stats: PlayerStats {
                strength: 5,
                perception: 5,
                endurance: 5,
                charisma: 5,
                intelligence: 5,
                agility: 5,
                luck: 5,
            },
        };
        let world_map = GameMap::new_world_map();
        let town_maps = vec![GameMap::new_town_map(0), GameMap::new_town_map(1)];
        let dungeon_maps = vec![GameMap::new_dungeon_map(0), GameMap::new_dungeon_map(1)];
        let current_map = world_map.clone();
        let mut messages: Vec<String> = Vec::new();
        messages.push(
            String::from_str(
                "Welcome to the Wasteland! Press SPACE to enter towns/dungeons, ESC to return.",
            ),
        );
        let r = Game {
            player,
            current_map,
            world_map,
            town_maps,
            dungeon_maps,
            npcs: world_npcs(),
            state: GameState::Playing,
            messages,
            camera_x: 0,
            camera_y: 0,
            previous_location: None,
        };
        assert(log_view(r.messages@) =~= seq![welcome_message()]);
        assert(r.current_map.wf());
        r
    }

    /// Appends `msg` to the message log; nothing else changes.
    pub fn add_message(&mut self, msg: String)
        ensures
            log_view(final(self).messages@) == log_append(log_view(old(self).messages@), msg@),
            old(self).messages@.len() <= LOG_CAPACITY ==> final(self).messages@.len()
                <= LOG_CAPACITY,
            *final(self) == (Game { messages: final(self).messages, ..*old(self) }),
    {
        push_message(&mut self.messages, msg);
    }
}

/// The player meets actor `i`: a hostile one starts combat (and says so in
/// the log), a friendly one starts its dialogue at node 0 with option 0
/// selected. Nothing else changes; the player stays put.
pub open spec fn encounter(old: Game, new: Game, i: int) -> bool {
    if old.npcs@[i].hostile {
        &&& new == (Game {
            state: GameState::Combat(i as usize),
            messages: new.messages,
            ..old
        })
        &&& log_view(new.messages@) == log_append(
            log_view(old.messages@),
            combat_message(old.npcs@[i].name@),
        )
    } else {
        new == (Game { state: GameState::Dialogue(i as usize, 0, 0), ..old })
    }
}

/// What an attempt to move by `(dx, dy)` does: an actor on the target cell
/// takes priority (the first one, in roster order); else the player steps
/// onto a walkable target and picks up the item lying there, if any; else
/// nothing changes.
pub open spec fn move_outcome(old: Game, new: Game, dx: int, dy: int) -> bool {
    let tx = old.player.x + dx;
    let ty = old.player.y + dy;
    if npc_at(old.npcs@, tx, ty) {
        exists|i: int| #[trigger] first_npc_at(old.npcs@, i, tx, ty) && encounter(old, new, i)
    } else if old.current_map@.walkable_at(tx, ty) {
        if old.current_map@.holds_item_at(tx, ty) {
            let item = old.current_map@.item_at(tx, ty);
            &&& new == (Game {
                player: Player {
                    x: tx as i32,
                    y: ty as i32,
                    inventory: new.player.inventory,
                    ..old.player
                },
                current_map: new.current_map,
                messages: new.messages,
                ..old
            })
            &&& new.player.inventory@ == old.player.inventory@.push(item)
            &&& item_removed(old.current_map@, new.current_map@, tx, ty)
            &&& log_view(new.messages@) == log_append(
                log_view(old.messages@),
                pickup_message(item.name@),
            )
        } else {
            new == (Game { player: Player { x: tx as i32, y: ty as i32, ..old.player }, ..old })
        }
    } else {
        new == old
    }
}

/// The first actor of `npcs` standing on `(x, y)`, if any.
pub fn find_npc_at(npcs: &Vec<Npc>, x: i32, y: i32) -> (r: Option<usize>)
    ensures
        match r {
            Some(i) => first_npc_at(npcs@, i as int, x as int, y as int),
            None => !npc_at(npcs@, x as int, y as int),
        },
{
    let mut i: usize = 0;
    while i < npcs.len()
        invariant
            i <= npcs@.len(),
            forall|j: int| 0 <= j < i ==> !((#[trigger] npcs@[j]).x == x && npcs@[j].y == y),
        decreases npcs@.len() - i,
    {
        if npcs[i].x == x && npcs[i].y == y {
            return Some(i);
        }
        i += 1;
    }
    None
}

impl Game {
    /// Tries to move the player by `(dx, dy)`; see `move_outcome`.
    pub fn move_player(&mut self, dx: i32, dy: i32)
        requires
            old(self).wf(),
            -1 <= dx <= 1,
            -1 <= dy <= 1,
        ensures
            final(self).wf(),
            move_outcome(*old(self), *final(self), dx as int, dy as int),
    {
        let new_x = self.player.x + dx;
        let new_y = self.player.y + dy;
        match find_npc_at(&self.npcs, new_x, new_y) {
            Some(i) => {
                if self.npcs[i].hostile {
                    self.state = GameState::Combat(i);
                    let name = self.npcs[i].name.as_str();
                    let msg = String::from_str("Combat with ").concat(name).concat("!");
                    self.add_message(msg);
                } else {
                    self.state = GameState::Dialogue(i, 0, 0);
                }
                proof {
                    assert(first_npc_at(old(self).npcs@, i as int, new_x as int, new_y as int));
                    assert(npc_at(old(self).npcs@, new_x as int, new_y as int));
                }
                return;
            },
            None => {},
        }
        if self.current_map.is_walkable(new_x, new_y) {
            self.player.x = new_x;
            self.player.y = new_y;
            match self.current_map.take_item(new_x, new_y) {
                Some(item) => {
                    let msg = String::from_str("Picked up ").concat(item.name.as_str());
                    self.add_message(msg);
                    self.player.inventory.push(item);
                },
                None => {},
            }
        }
    }
}

/// What an attempt to enter a location does: on an enterable overworld cell
/// listed by `gate`, the player is taken to a copy of the catalog map that
/// this gate leads to, onto its entry cell, among that location's
/// actors, and the overworld cell is remembered; else nothing changes.
pub open spec fn enter_outcome(old: Game, new: Game) -> bool {
    let px = old.player.x as int;
    let py = old.player.y as int;
    if old.current_map.map_type == MapType::WorldMap && tile_enterable(
        old.current_map@.tile(px, py),
    ) && gate(px, py) is Some {
        let g = gate(px, py)->0;
        &&& new == (Game {
            player: Player { x: g.entry_x, y: g.entry_y, ..old.player },
            current_map: new.current_map,
            npcs: new.npcs,
            messages: new.messages,
            previous_location: Some(
                MapLocation { map_type: MapType::WorldMap, map_id: 0, x: px as i32, y: py as i32 },
            ),
            ..old
        })
        &&& new.current_map@ == old.catalog_map(g)@
        &&& if g.kind == MapType::Town {
            is_town_roster(new.npcs@)
        } else {
            is_dungeon_roster(new.npcs@)
        }
        &&& log_view(new.messages@) == log_append(
            log_view(old.messages@),
            entered_message(new.current_map.name@),
        )
    } else {
        new == old
    }
}

/// What an attempt to return to the overworld does: from a location, the
/// player is taken to a fresh copy of the overworld, onto the remembered
/// cell, among the overworld's actors, and the memory is cleared; on the
/// overworld nothing changes.
pub open spec fn return_outcome(old: Game, new: Game) -> bool {
    if old.current_map.map_type != MapType::WorldMap && old.previous_location is Some {
        let l = old.previous_location->0;
        &&& new == (Game {
            player: Player { x: l.x, y: l.y, ..old.player },
            current_map: new.current_map,
            npcs: new.npcs,
            messages: new.messages,
            previous_location: None,
            ..old
        })
        &&& new.current_map@ == old.world_map@
        &&& is_world_roster(new.npcs@)
        &&& log_view(new.messages@) == log_append(log_view(old.messages@), returned_message())
    } else {
        new == old
    }
}

impl Game {
    /// Replaces the actors with the overworld's.
    fn load_world_npcs(&mut self)
        ensures
            *final(self) == (Game { npcs: final(self).npcs, ..*old(self) }),
            roster_wf(final(self).npcs@),
            is_world_roster(final(self).npcs@),
    {
        self.npcs = world_npcs();
    }

    /// Replaces the actors with those of town `town_id`.
    fn load_town_npcs(&mut self, town_id: usize)
        ensures
            *final(self) == (Game { npcs: final(self).npcs, ..*old(self) }),
            roster_wf(final(self).npcs@),
            is_town_roster(final(self).npcs@),
    {
        self.npcs = town_npcs(town_id);
    }

    /// Replaces the actors with those of dungeon `dungeon_id`.
    fn load_dungeon_npcs(&mut self, dungeon_id: usize)
        ensures
            *final(self) == (Game { npcs: final(self).npcs, ..*old(self) }),
            roster_wf(final(self).npcs@),
            is_dungeon_roster(final(self).npcs@),
    {
        self.npcs = dungeon_npcs(dungeon_id);
    }

    /// Enters the town or dungeon whose gate the player stands on; see
    /// `enter_outcome`.
    pub fn try_enter_location(&mut self)
        requires
            old(self).wf(),
            old(self).state == GameState::Playing,
        ensures
            final(self).wf(),
            enter_outcome(*old(self), *final(self)),
    {
        let x = self.player.x;
        let y = self.player.y;
        if self.current_map.map_type != MapType::WorldMap {
            return;
        }
        let tile = self.current_map.tile_at(x, y);
        if !tile.is_enterable() {
            return;
        }
        let g = match gate_at(x, y) {
            Some(g) => g,
            None => {
                return;
            },
        };
        proof {
            assert(self.gate_ok(g));
        }
        self.previous_location = Some(
            MapLocation { map_type: MapType::WorldMap, map_id: 0, x, y },
        );
        if g.kind == MapType::Town {
            self.current_map = self.town_maps[g.index].clone();
            self.load_town_npcs(g.index);
        } else {
            self.current_map = self.dungeon_maps[g.index].clone();
            self.load_dungeon_npcs(g.index);
        }
        self.player.x = g.entry_x;
        self.player.y = g.entry_y;
        let msg = String::from_str("Entered ").concat(self.current_map.name.as_str());
        self.add_message(msg);
    }

    /// Leaves a town or dungeon for the overworld; see `return_outcome`.
    pub fn return_to_world_map(&mut self)
        requires
            old(self).wf(),
            old(self).state == GameState::Playing,
        ensures
            final(self).wf(),
            return_outcome(*old(self), *final(self)),
    {
        if self.current_map.map_type == MapType::WorldMap {
            return;
        }
        match self.previous_location {
            Some(prev) => {
                self.current_map = self.world_map.clone();
                self.player.x = prev.x;
                self.player.y = prev.y;
                self.previous_location = None;
                self.load_world_npcs();
                self.add_message(String::from_str("Returned to world map"));
            },
            None => {},
        }
    }
}

/// What an attack on actor `i` does: its health drops by `PLAYER_ATTACK`.
/// Once that leaves it at zero or below it is defeated: it leaves the roster
/// and play resumes. Else it strikes back and the player's health drops by
/// `ENEMY_ATTACK`. The log records each blow.
pub open spec fn attack_outcome(old: Game, new: Game, i: int) -> bool {
    let target = old.npcs@[i];
    let hp = target.hp - PLAYER_ATTACK;
    let dealt = log_append(log_view(old.messages@), dealt_message());
    if hp <= 0 {
        &&& new == (Game {
            npcs: new.npcs,
            state: GameState::Playing,
            messages: new.messages,
            ..old
        })
        &&& new.npcs@ == old.npcs@.remove(i)
        &&& log_view(new.messages@) == log_append(dealt, defeated_message(target.name@))
    } else {
        &&& new == (Game {
            player: Player { hp: hit(old.player.hp, ENEMY_ATTACK), ..old.player },
            npcs: new.npcs,
            messages: new.messages,
            ..old
        })
        &&& new.npcs@ == old.npcs@.update(i, Npc { hp: hp as i32, ..target })
        &&& log_view(new.messages@) == log_append(dealt, enemy_dealt_message())
    }
}

/// What fleeing does: play resumes, the enemy keeps its health, and the log
/// says so.
pub open spec fn flee_outcome(old: Game, new: Game) -> bool {
    &&& new == (Game { state: GameState::Playing, messages: new.messages, ..old })
    &&& log_view(new.messages@) == log_append(log_view(old.messages@), fled_message())
}

/// The dialogue cursor after a Confirm on option `o` of node `n` of actor
/// `a`'s dialogue: on to the option's node with its first option selected,
/// or back to play where the option ends the conversation.
pub open spec fn confirmed_state(g: Game, a: int, n: int, o: int) -> GameState {
    match option_target(g.npcs@[a].dialogue@, n, o) {
        Some(m) => GameState::Dialogue(a as usize, m, 0),
        None => GameState::Playing,
    }
}

impl Game {
    /// The player strikes the enemy of the combat; see `attack_outcome`.
    pub fn attack(&mut self)
        requires
            old(self).wf(),
            old(self).state is Combat,
        ensures
            final(self).wf(),
            attack_outcome(*old(self), *final(self), old(self).state->Combat_0 as int),
    {
        let i = match self.state {
            GameState::Combat(i) => i,
            _ => 0,
        };
        let hp = self.npcs[i].hp - PLAYER_ATTACK;
        self.npcs[i].hp = hp;
        let amount = decimal_text(PLAYER_ATTACK as u64);
        let dealt = String::from_str("You dealt ").concat(amount.as_str()).concat(" damage!");
        self.add_message(dealt);
        if hp <= 0 {
            let defeated = self.npcs[i].name.clone().concat(" defeated!");
            self.add_message(defeated);
            self.npcs.remove(i);
            self.state = GameState::Playing;
            proof {
                assert(self.npcs@ =~= old(self).npcs@.remove(i as int));
            }
        } else {
            let amount = decimal_text(ENEMY_ATTACK as u64);
            let enemy = String::from_str("Enemy dealt ").concat(amount.as_str()).concat(" damage!");
            self.player.hp = if self.player.hp >= i32::MIN + ENEMY_ATTACK {
                self.player.hp - ENEMY_ATTACK
            } else {
                i32::MIN
            };
            self.add_message(enemy);
        }
    }

    /// The player runs from combat; see `flee_outcome`.
    pub fn flee(&mut self)
        requires
            old(self).wf(),
            old(self).state is Combat,
        ensures
            final(self).wf(),
            flee_outcome(*old(self), *final(self)),
    {
        self.add_message(String::from_str("You ran away!"));
        self.state = GameState::Playing;
    }
}

/// Which way the player is told to move.
#[derive(Clone, Copy, PartialEq, Eq, Structural, Debug)]
pub enum Direction {
    Up,
    Down,
    Left,
    Right,
}

pub open spec fn delta_x(d: Direction) -> int {
    match d {
        Direction::Left => -1,
        Direction::Right => 1,
        _ => 0,
    }
}

pub open spec fn delta_y(d: Direction) -> int {
    match d {
        Direction::Up => -1,
        Direction::Down => 1,
        _ => 0,
    }
}

/// A discrete command from the input layer.
#[derive(Clone, Copy, PartialEq, Eq, Structural, Debug)]
pub enum Command {
    Move(Direction),
    OpenInventory,
    /// Closes the inventory, or leaves a dialogue.
    Cancel,
    EnterLocation,
    ReturnToOverworld,
    DialogueUp,
    DialogueDown,
    DialogueConfirm,
    CombatAttack,
    CombatFlee,
}

/// What command `cmd` does in the mode of `old`: each mode handles its own
/// commands and ignores the others.
pub open spec fn step_outcome(old: Game, new: Game, cmd: Command) -> bool {
    match old.state {
        GameState::Playing => match cmd {
            Command::Move(d) => move_outcome(old, new, delta_x(d), delta_y(d)),
            Command::OpenInventory => new == (Game { state: GameState::Inventory, ..old }),
            Command::EnterLocation => enter_outcome(old, new),
            Command::ReturnToOverworld => return_outcome(old, new),
            _ => new == old,
        },
        GameState::Inventory => match cmd {
            Command::Cancel => new == (Game { state: GameState::Playing, ..old }),
            _ => new == old,
        },
        GameState::Dialogue(a, n, o) => match cmd {
            Command::DialogueUp => new == (Game {
                state: if o > 0 {
                    GameState::Dialogue(a, n, (o - 1) as usize)
                } else {
                    old.state
                },
                ..old
            }),
            Command::DialogueDown => new == (Game {
                state: if o + 1 < option_count(old.npcs@[a as int].dialogue@, n as int) {
                    GameState::Dialogue(a, n, (o + 1) as usize)
                } else {
                    old.state
                },
                ..old
            }),
            Command::DialogueConfirm => new == (Game {
                state: confirmed_state(old, a as int, n as int, o as int),
                ..old
            }),
            Command::Cancel => new == (Game { state: GameState::Playing, ..old }),
            _ => new == old,
        },
        GameState::Combat(a) => match cmd {
            Command::CombatAttack => attack_outcome(old, new, a as int),
            Command::CombatFlee => flee_outcome(old, new),
            _ => new == old,
        },
    }
}

/// `g` with the camera centred on the player.
pub open spec fn camera_follow(g: Game) -> Game {
    Game {
        camera_x: (g.player.x - VIEW_HALF_WIDTH) as i32,
        camera_y: (g.player.y - VIEW_HALF_HEIGHT) as i32,
        ..g
    }
}

impl Game {
    /// Moves the dialogue selection one option up, if it is not the first.
    pub fn select_previous_option(&mut self)
        requires
            old(self).wf(),
            old(self).state is Dialogue,
        ensures
            final(self).wf(),
            step_outcome(*old(self), *final(self), Command::DialogueUp),
    {
        if let GameState::Dialogue(a, n, o) = self.state {
            if o > 0 {
                self.state = GameState::Dialogue(a, n, o - 1);
            }
        }
    }

    /// Moves the dialogue selection one option down, if it is not the last.
    pub fn select_next_option(&mut self)
        requires
            old(self).wf(),
            old(self).state is Dialogue,
        ensures
            final(self).wf(),
            step_outcome(*old(self), *final(self), Command::DialogueDown),
    {
        if let GameState::Dialogue(a, n, o) = self.state {
            let count = self.npcs[a].dialogue[n].options.len();
            assert(o < count);
            if o + 1 < count {
                self.state = GameState::Dialogue(a, n, o + 1);
            }
        }
    }

    /// Takes the selected option: on to its node, or back to play.
    pub fn confirm_option(&mut self)
        requires
            old(self).wf(),
            old(self).state is Dialogue,
        ensures
            final(self).wf(),
            step_outcome(*old(self), *final(self), Command::DialogueConfirm),
    {
        if let GameState::Dialogue(a, n, o) = self.state {
            let next = self.npcs[a].dialogue[n].options[o].next_node;
            proof {
                assert(self.npcs@[a as int].wf());
                let t = option_target(self.npcs@[a as int].dialogue@, n as int, o as int);
                assert(t == next);
            }
            match next {
                Some(m) => {
                    self.state = GameState::Dialogue(a, m, 0);
                },
                None => {
                    self.state = GameState::Playing;
                },
            }
        }
    }

    /// Handles one command in the current mode; see `step_outcome`.
    pub fn handle_command(&mut self, cmd: Command)
        requires
            old(self).wf(),
        ensures
            final(self).wf(),
            step_outcome(*old(self), *final(self), cmd),
    {
        match self.state {
            GameState::Playing => match cmd {
                Command::Move(d) => {
                    let (dx, dy): (i32, i32) = match d {
                        Direction::Up => (0, -1),
                        Direction::Down => (0, 1),
                        Direction::Left => (-1, 0),
                        Direction::Right => (1, 0),
                    };
                    self.move_player(dx, dy);
                },
                Command::OpenInventory => {
                    self.state = GameState::Inventory;
                },
                Command::EnterLocation => self.try_enter_location(),
                Command::ReturnToOverworld => self.return_to_world_map(),
                _ => {},
            },
            GameState::Inventory => match cmd {
                Command::Cancel => {
                    self.state = GameState::Playing;
                },
                _ => {},
            },
            GameState::Dialogue(_, _, _) => match cmd {
                Command::DialogueUp => self.select_previous_option(),
                Command::DialogueDown => self.select_next_option(),
                Command::DialogueConfirm => self.confirm_option(),
                Command::Cancel => {
                    self.state = GameState::Playing;
                },
                _ => {},
            },
            GameState::Combat(_) => match cmd {
                Command::CombatAttack => self.attack(),
                Command::CombatFlee => self.flee(),
                _ => {},
            },
        }
    }

    /// Centres the camera on the player.
    pub fn update_camera(&mut self)
        requires
            old(self).wf(),
        ensures
            final(self).wf(),
            *final(self) == camera_follow(*old(self)),
    {
        self.camera_x = self.player.x - VIEW_HALF_WIDTH;
        self.camera_y = self.player.y - VIEW_HALF_HEIGHT;
    }

    /// One frame: the commands in order, each in the mode that the ones
    /// before it left, then the camera follows the player.
    pub fn frame(&mut self, commands: &Vec<Command>)
        requires
            old(self).wf(),
        ensures
            final(self).wf(),
            exists|trace: Seq<Game>|
                {
                    &&& trace.len() == commands@.len() + 1
                    &&& #[trigger] trace[0] == *old(self)
                    &&& forall|k: int|
                        0 <= k < commands@.len() ==> step_outcome(
                            #[trigger] trace[k],
                            trace[k + 1],
                            commands@[k],
                        )
                    &&& *final(self) == camera_follow(trace.last())
                },
    {
        let ghost mut trace: Seq<Game> = seq![*self];
        let mut k: usize = 0;
        while k < commands.len()
            invariant
                self.wf(),
                k <= commands@.len(),
                trace.len() == k + 1,
                trace[0] == *old(self),
                trace.last() == *self,
                forall|j: int|
                    0 <= j < k ==> step_outcome(#[trigger] trace[j], trace[j + 1], commands@[j]),
            decreases commands@.len() - k,
        {
            self.handle_command(commands[k]);
            proof {
                trace = trace.push(*self);
            }
            k += 1;
        }
        self.update_camera();
        assert(trace[0] == *old(self));
    }
}

} // verus!
