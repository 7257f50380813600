use wasteland::game::{Command, Direction, Game, GameState, MapLocation};
use wasteland::terrain::MapType;

fn go(g: &mut Game, d: Direction, times: usize) {
    for _ in 0..times {
        g.handle_command(Command::Move(d));
    }
}

fn last_message(g: &Game) -> String {
    g.messages.last().unwrap().clone()
}

/// From the start, stands next to the dungeon guard, in combat with it.
fn engage_guard() -> Game {
    let mut g = Game::new();
    go(&mut g, Direction::Up, 12);
    assert_eq!((g.player.x, g.player.y), (40, 8));
    g.handle_command(Command::EnterLocation);
    assert_eq!((g.player.x, g.player.y), (5, 5));
    go(&mut g, Direction::Down, 4);
    go(&mut g, Direction::Right, 5);
    assert_eq!((g.player.x, g.player.y), (10, 9));
    g.handle_command(Command::Move(Direction::Down));
    g
}

#[test]
fn three_up_two_left_from_start() {
    let mut g = Game::new();
    assert_eq!((g.player.x, g.player.y), (40, 20));
    go(&mut g, Direction::Up, 3);
    go(&mut g, Direction::Left, 2);
    assert_eq!((g.player.x, g.player.y), (38, 17));
    assert_eq!(g.state, GameState::Playing);
}

#[test]
fn town_gate_round_trip() {
    let mut g = Game::new();
    go(&mut g, Direction::Up, 10);
    go(&mut g, Direction::Left, 25);
    assert_eq!((g.player.x, g.player.y), (15, 10));
    g.handle_command(Command::EnterLocation);
    assert_eq!(g.current_map.map_type, MapType::Town);
    assert_eq!(g.current_map.name, "Town #1");
    assert_eq!((g.player.x, g.player.y), (20, 15));
    assert_eq!(
        g.previous_location,
        Some(MapLocation { map_type: MapType::WorldMap, map_id: 0, x: 15, y: 10 })
    );
    assert_eq!(g.npcs.len(), 2);
    assert_eq!(g.npcs[0].name, "Townfolk");
    assert_eq!(g.npcs[1].name, "Blacksmith");
    assert_eq!(last_message(&g), "Entered Town #1");
    g.handle_command(Command::ReturnToOverworld);
    assert_eq!(g.current_map.map_type, MapType::WorldMap);
    assert_eq!(g.current_map.name, "Wasteland");
    assert_eq!((g.player.x, g.player.y), (15, 10));
    assert_eq!(g.previous_location, None);
    assert_eq!(g.npcs.len(), 1);
    assert_eq!(g.npcs[0].name, "Traveling Merchant");
    assert_eq!(last_message(&g), "Returned to world map");
}

#[test]
fn second_town_gate_leads_to_second_town() {
    let mut g = Game::new();
    go(&mut g, Direction::Right, 10);
    go(&mut g, Direction::Down, 5);
    assert_eq!((g.player.x, g.player.y), (50, 25));
    g.handle_command(Command::EnterLocation);
    assert_eq!(g.current_map.name, "Town #2");
    assert_eq!((g.player.x, g.player.y), (20, 15));
}

#[test]
fn second_dungeon_gate_leads_to_second_dungeon() {
    let mut g = Game::new();
    go(&mut g, Direction::Down, 9);
    go(&mut g, Direction::Left, 15);
    go(&mut g, Direction::Down, 1);
    assert_eq!((g.player.x, g.player.y), (25, 30));
    g.handle_command(Command::EnterLocation);
    assert_eq!(g.current_map.map_type, MapType::Dungeon);
    assert_eq!(g.current_map.name, "Dungeon #2");
    assert_eq!((g.player.x, g.player.y), (5, 5));
    assert_eq!(g.npcs[0].name, "Dungeon Guard");
    assert_eq!(g.npcs[1].name, "Mutant Beast");
}

#[test]
fn entering_off_a_gate_does_nothing() {
    let mut g = Game::new();
    g.handle_command(Command::EnterLocation);
    assert_eq!(g.current_map.map_type, MapType::WorldMap);
    assert_eq!((g.player.x, g.player.y), (40, 20));
    assert_eq!(g.previous_location, None);
    assert_eq!(g.messages.len(), 1);
}

#[test]
fn returning_on_the_overworld_does_nothing() {
    let mut g = Game::new();
    g.handle_command(Command::ReturnToOverworld);
    assert_eq!((g.player.x, g.player.y), (40, 20));
    assert_eq!(g.messages.len(), 1);
}

#[test]
fn guard_attacked_twice_ends_at_fifty() {
    let mut g = engage_guard();
    assert_eq!(g.state, GameState::Combat(0));
    assert_eq!(last_message(&g), "Combat with Dungeon Guard!");
    assert_eq!(g.npcs[0].hp, 80);
    g.handle_command(Command::CombatAttack);
    assert_eq!(g.npcs[0].hp, 65);
    assert_eq!(g.player.hp, 90);
    g.handle_command(Command::CombatAttack);
    assert_eq!(g.npcs[0].hp, 50);
    assert_eq!(g.player.hp, 80);
    assert_eq!(g.state, GameState::Combat(0));
}

#[test]
fn combat_messages_record_each_blow() {
    let mut g = engage_guard();
    g.handle_command(Command::CombatAttack);
    let n = g.messages.len();
    assert_eq!(g.messages[n - 2], "You dealt 15 damage!");
    assert_eq!(g.messages[n - 1], "Enemy dealt 10 damage!");
}

#[test]
fn repeated_attacks_defeat_the_guard() {
    let mut g = engage_guard();
    let mut expected = 80;
    for _ in 0..5 {
        g.handle_command(Command::CombatAttack);
        expected -= 15;
        assert_eq!(g.npcs[0].hp, expected);
        assert_eq!(g.state, GameState::Combat(0));
    }
    g.handle_command(Command::CombatAttack);
    assert_eq!(g.state, GameState::Playing);
    assert_eq!(g.npcs.len(), 1);
    assert_eq!(g.npcs[0].name, "Mutant Beast");
    assert_eq!(g.player.hp, 50);
    assert_eq!(last_message(&g), "Dungeon Guard defeated!");
    g.handle_command(Command::Move(Direction::Down));
    assert_eq!((g.player.x, g.player.y), (10, 10));
}

#[test]
fn fleeing_keeps_enemy_health() {
    let mut g = engage_guard();
    g.handle_command(Command::CombatAttack);
    g.handle_command(Command::CombatFlee);
    assert_eq!(g.state, GameState::Playing);
    assert_eq!(g.npcs[0].hp, 65);
    assert_eq!(last_message(&g), "You ran away!");
    assert_eq!((g.player.x, g.player.y), (10, 9));
}

#[test]
fn walking_into_the_merchant_starts_dialogue_in_place() {
    let mut g = Game::new();
    go(&mut g, Direction::Left, 4);
    assert_eq!((g.player.x, g.player.y), (36, 20));
    g.handle_command(Command::Move(Direction::Left));
    assert_eq!((g.player.x, g.player.y), (36, 20));
    assert_eq!(g.state, GameState::Dialogue(0, 0, 0));
    assert_eq!(g.messages.len(), 1);
}

#[test]
fn dialogue_selection_and_confirm() {
    let mut g = Game::new();
    go(&mut g, Direction::Left, 5);
    g.handle_command(Command::DialogueUp);
    assert_eq!(g.state, GameState::Dialogue(0, 0, 0));
    g.handle_command(Command::DialogueDown);
    assert_eq!(g.state, GameState::Dialogue(0, 0, 1));
    g.handle_command(Command::DialogueDown);
    g.handle_command(Command::DialogueDown);
    assert_eq!(g.state, GameState::Dialogue(0, 0, 2));
    g.handle_command(Command::DialogueUp);
    assert_eq!(g.state, GameState::Dialogue(0, 0, 1));
    g.handle_command(Command::DialogueConfirm);
    assert_eq!(g.state, GameState::Dialogue(0, 2, 0));
    g.handle_command(Command::DialogueConfirm);
    assert_eq!(g.state, GameState::Playing);
}

#[test]
fn dialogue_ending_option_and_cancel() {
    let mut g = Game::new();
    go(&mut g, Direction::Left, 5);
    g.handle_command(Command::DialogueDown);
    g.handle_command(Command::DialogueDown);
    g.handle_command(Command::DialogueConfirm);
    assert_eq!(g.state, GameState::Playing);
    g.handle_command(Command::Move(Direction::Left));
    assert_eq!(g.state, GameState::Dialogue(0, 0, 0));
    g.handle_command(Command::DialogueConfirm);
    assert_eq!(g.state, GameState::Dialogue(0, 1, 0));
    g.handle_command(Command::Cancel);
    assert_eq!(g.state, GameState::Playing);
}

#[test]
fn every_dialogue_path_ends_within_node_count() {
    for first in 0..3usize {
        let mut g = Game::new();
        go(&mut g, Direction::Left, 5);
        for _ in 0..first {
            g.handle_command(Command::DialogueDown);
        }
        let mut confirms = 0;
        while g.state != GameState::Playing {
            g.handle_command(Command::DialogueConfirm);
            confirms += 1;
            assert!(confirms <= 3);
        }
    }
}

#[test]
fn picking_up_the_treasure_chest() {
    let mut g = Game::new();
    go(&mut g, Direction::Up, 12);
    g.handle_command(Command::EnterLocation);
    assert_eq!(g.current_map.items.len(), 1);
    assert!(g.player.inventory.is_empty());
    g.handle_command(Command::Move(Direction::Down));
    g.handle_command(Command::Move(Direction::Up));
    assert_eq!((g.player.x, g.player.y), (5, 5));
    assert_eq!(g.current_map.items.len(), 0);
    assert_eq!(g.player.inventory.len(), 1);
    assert_eq!(g.player.inventory[0].name, "Treasure Chest");
    assert_eq!(last_message(&g), "Picked up Treasure Chest");
    assert_eq!(g.dungeon_maps[0].items.len(), 1);
}

#[test]
fn reentering_a_location_restores_its_items() {
    let mut g = Game::new();
    go(&mut g, Direction::Up, 12);
    g.handle_command(Command::EnterLocation);
    g.handle_command(Command::Move(Direction::Down));
    g.handle_command(Command::Move(Direction::Up));
    assert_eq!(g.current_map.items.len(), 0);
    g.handle_command(Command::ReturnToOverworld);
    assert_eq!((g.player.x, g.player.y), (40, 8));
    g.handle_command(Command::EnterLocation);
    assert_eq!(g.current_map.items.len(), 1);
    assert_eq!(g.player.inventory.len(), 1);
}

#[test]
fn walls_block_movement() {
    let mut g = Game::new();
    go(&mut g, Direction::Up, 12);
    g.handle_command(Command::EnterLocation);
    go(&mut g, Direction::Left, 10);
    assert_eq!((g.player.x, g.player.y), (1, 5));
    go(&mut g, Direction::Up, 10);
    assert_eq!((g.player.x, g.player.y), (1, 1));
}

#[test]
fn log_keeps_the_five_latest() {
    let mut g = Game::new();
    for i in 0..5 {
        g.add_message(format!("note {}", i));
    }
    assert_eq!(g.messages.len(), 5);
    assert_eq!(g.messages, vec!["note 0", "note 1", "note 2", "note 3", "note 4"]);
    g.add_message("note 5".to_string());
    assert_eq!(g.messages, vec!["note 1", "note 2", "note 3", "note 4", "note 5"]);
}

#[test]
fn log_below_capacity_keeps_everything() {
    let mut g = Game::new();
    g.add_message("one".to_string());
    assert_eq!(g.messages.len(), 2);
    assert!(g.messages[0].starts_with("Welcome to the Wasteland!"));
    assert_eq!(g.messages[1], "one");
}

#[test]
fn inventory_opens_and_closes() {
    let mut g = Game::new();
    g.handle_command(Command::OpenInventory);
    assert_eq!(g.state, GameState::Inventory);
    g.handle_command(Command::Move(Direction::Up));
    assert_eq!((g.player.x, g.player.y), (40, 20));
    g.handle_command(Command::Cancel);
    assert_eq!(g.state, GameState::Playing);
}

#[test]
fn commands_of_other_modes_are_ignored() {
    let mut g = Game::new();
    g.handle_command(Command::CombatAttack);
    g.handle_command(Command::DialogueConfirm);
    g.handle_command(Command::Cancel);
    assert_eq!(g.state, GameState::Playing);
    assert_eq!(g.messages.len(), 1);
    let mut d = Game::new();
    go(&mut d, Direction::Left, 5);
    d.handle_command(Command::CombatAttack);
    d.handle_command(Command::Move(Direction::Up));
    assert_eq!(d.state, GameState::Dialogue(0, 0, 0));
    assert_eq!((d.player.x, d.player.y), (36, 20));
}

#[test]
fn frame_runs_commands_then_centres_camera() {
    let mut g = Game::new();
    assert_eq!((g.camera_x, g.camera_y), (0, 0));
    let cmds = vec![
        Command::Move(Direction::Up),
        Command::Move(Direction::Left),
        Command::OpenInventory,
        Command::Move(Direction::Left),
    ];
    g.frame(&cmds);
    assert_eq!((g.player.x, g.player.y), (39, 19));
    assert_eq!(g.state, GameState::Inventory);
    assert_eq!((g.camera_x, g.camera_y), (19, 9));
}

#[test]
fn update_camera_centres_on_player() {
    let mut g = Game::new();
    g.update_camera();
    assert_eq!((g.camera_x, g.camera_y), (20, 10));
}

#[test]
fn new_game_starting_values() {
    let g = Game::new();
    assert_eq!((g.player.hp, g.player.max_hp), (100, 100));
    assert_eq!(g.player.stats.luck, 5);
    assert_eq!(g.player.stats.strength, 5);
    assert_eq!(g.town_maps.len(), 2);
    assert_eq!(g.dungeon_maps.len(), 2);
    assert_eq!(g.town_maps[1].name, "Town #2");
    assert_eq!(g.dungeon_maps[1].name, "Dungeon #2");
    assert_eq!(g.npcs[0].name, "Traveling Merchant");
    assert_eq!((g.npcs[0].x, g.npcs[0].y), (35, 20));
    assert_eq!(
        g.messages[0],
        "Welcome to the Wasteland! Press SPACE to enter towns/dungeons, ESC to return."
    );
}
