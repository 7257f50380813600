//! Properties that hold of every map, move, dialogue and combat exchange,
//! stated over the outcomes that the handlers' contracts promise.

use vstd::prelude::*;
use crate::game::{
    Game, GameState, PLAYER_ATTACK, attack_outcome, confirmed_state, flee_outcome, move_outcome,
    npc_at,
};
use crate::grid::MapView;

verus! {

/// No cell outside the grid is walkable, whatever the tiles hold.
pub proof fn lemma_outside_not_walkable(m: MapView, x: int, y: int)
    requires
        x < 0 || x >= m.width || y < 0 || y >= m.height,
    ensures
        !m.walkable_at(x, y),
{
}

/// A move onto a cell where an actor stands never moves the player, whatever
/// the terrain there.
pub proof fn lemma_actor_blocks_move(old: Game, new: Game, dx: int, dy: int)
    requires
        move_outcome(old, new, dx, dy),
        npc_at(old.npcs@, old.player.x + dx, old.player.y + dy),
    ensures
        new.player.x == old.player.x,
        new.player.y == old.player.y,
        new.current_map == old.current_map,
        new.player.inventory == old.player.inventory,
{
}

/// A move onto a free walkable cell where an item lies takes the item off
/// the map and appends it, once, to the inventory.
pub proof fn lemma_pickup_transfers_item(old: Game, new: Game, dx: int, dy: int)
    requires
        move_outcome(old, new, dx, dy),
        !npc_at(old.npcs@, old.player.x + dx, old.player.y + dy),
        old.current_map@.walkable_at(old.player.x + dx, old.player.y + dy),
        old.current_map@.holds_item_at(old.player.x + dx, old.player.y + dy),
    ensures
        new.player.x == old.player.x + dx,
        new.player.y == old.player.y + dy,
        !new.current_map@.holds_item_at(old.player.x + dx, old.player.y + dy),
        new.player.inventory@.len() == old.player.inventory@.len() + 1,
        new.player.inventory@.last() == old.current_map@.item_at(
            old.player.x + dx,
            old.player.y + dy,
        ),
        new.player.inventory@.drop_last() == old.player.inventory@,
{
    assert(new.player.inventory@.drop_last() =~= old.player.inventory@);
}

/// Each Confirm in a dialogue either ends it or moves to a later node of the
/// same actor's graph, so no conversation can go on for ever.
pub proof fn lemma_confirm_advances(g: Game, a: usize, n: usize, o: usize)
    requires
        g.wf(),
        g.state == GameState::Dialogue(a, n, o),
    ensures
        confirmed_state(g, a as int, n as int, o as int) matches GameState::Dialogue(b, m, s) ==> b
            == a && m > n && m < g.npcs@[a as int].dialogue@.len() && s == 0,
        confirmed_state(g, a as int, n as int, o as int) is Dialogue || confirmed_state(
            g,
            a as int,
            n as int,
            o as int,
        ) is Playing,
{
    assert(g.npcs@[a as int].wf());
}

/// One attack: while the enemy's health stays above zero the combat goes on
/// with its health lower by exactly `PLAYER_ATTACK`; once it does not, the
/// enemy is gone from the roster and play resumes.
pub proof fn lemma_attack_step(old: Game, new: Game, i: usize)
    requires
        old.wf(),
        old.state == GameState::Combat(i),
        attack_outcome(old, new, i as int),
    ensures
        old.npcs@[i as int].hp - PLAYER_ATTACK > 0 ==> {
            &&& new.state == GameState::Combat(i)
            &&& new.npcs@.len() == old.npcs@.len()
            &&& new.npcs@[i as int].hp == old.npcs@[i as int].hp - PLAYER_ATTACK
            &&& new.npcs@[i as int].name == old.npcs@[i as int].name
        },
        old.npcs@[i as int].hp - PLAYER_ATTACK <= 0 ==> {
            &&& new.state == GameState::Playing
            &&& new.npcs@ == old.npcs@.remove(i as int)
        },
{
}

/// Repeated attacks: along a run of attacks on enemy `i`, its health after
/// `k` of them is its first health less `k * PLAYER_ATTACK`, and the combat
/// lasts only while that is above zero.
pub proof fn lemma_repeated_attacks(trace: Seq<Game>, i: usize)
    requires
        trace.len() >= 1,
        trace[0].wf(),
        trace[0].state == GameState::Combat(i),
        forall|k: int|
            0 <= k < trace.len() - 1 ==> (#[trigger] trace[k]).state == GameState::Combat(i)
                && attack_outcome(trace[k], trace[k + 1], i as int),
    ensures
        forall|k: int|
            0 <= k < trace.len() && (#[trigger] trace[k]).state == GameState::Combat(i) ==> {
                &&& i < trace[k].npcs@.len() == trace[0].npcs@.len()
                &&& trace[k].npcs@[i as int].hp == trace[0].npcs@[i as int].hp - k * PLAYER_ATTACK
                &&& trace[k].npcs@[i as int].hp > 0
            },
    decreases trace.len(),
{
    assert(trace[0].npcs@[i as int].wf());
    if trace.len() > 1 {
        let prefix = trace.drop_last();
        assert forall|k: int| 0 <= k < prefix.len() - 1 implies (#[trigger] prefix[k]).state
            == GameState::Combat(i) && attack_outcome(prefix[k], prefix[k + 1], i as int) by {
            assert(trace[k].state == GameState::Combat(i));
        }
        lemma_repeated_attacks(prefix, i);
        let last = (trace.len() - 1) as int;
        let before = last - 1;
        assert(prefix[before] == trace[before]);
        assert(trace[before].state == GameState::Combat(i));
        assert forall|k: int|
            0 <= k < trace.len() && (#[trigger] trace[k]).state == GameState::Combat(i) implies {
                &&& i < trace[k].npcs@.len() == trace[0].npcs@.len()
                &&& trace[k].npcs@[i as int].hp == trace[0].npcs@[i as int].hp - k * PLAYER_ATTACK
                &&& trace[k].npcs@[i as int].hp > 0
            } by {
            if k < last {
                assert(prefix[k] == trace[k]);
            }
        }
    }
}

/// Fleeing always resumes play and leaves every actor, the enemy's health
/// included, as it was.
pub proof fn lemma_flee_keeps_enemy(old: Game, new: Game, i: usize)
    requires
        old.state == GameState::Combat(i),
        flee_outcome(old, new),
    ensures
        new.state == GameState::Playing,
        new.npcs == old.npcs,
{
}

} // verus!
