use client::geometry::Point;
use client::snapshot::{Color, DevData, GameState, Player, Projectile, SnapshotStore};

fn member(id: u32, x: i64, y: i64) -> Player {
    Player { id, position: Point { x, y }, color: Color { r: 1, g: 1, b: 1 } }
}

fn state_with(players: Vec<Player>) -> GameState {
    GameState {
        players,
        troops: Vec::new(),
        projectiles: Vec::new(),
        map_size: Point { x: 800_000, y: 600_000 },
    }
}

#[test]
fn store_starts_empty() {
    let store = SnapshotStore::new();
    assert!(store.game_state.is_none());
    assert!(store.dev_data.is_none());
}

#[test]
fn store_replaces_the_snapshot_whole() {
    let mut store = SnapshotStore::new();
    let mut first = state_with(vec![member(1, 0, 0), member(2, 5, 5)]);
    first.projectiles.push(Projectile {
        id: 1,
        player_id: 1,
        position: Point { x: 0, y: 0 },
        direction: Point { x: 1_000, y: 0 },
        speed: 1,
        damage: 1,
        time_to_live: 1,
        color: Color { r: 0, g: 0, b: 0 },
    });
    store.update_game_state(first);
    store.update_game_state(state_with(vec![member(3, 9, 9)]));
    let held = store.game_state.as_ref().unwrap();
    assert_eq!(held.players.len(), 1);
    assert_eq!(held.players[0].id, 3);
    assert!(held.projectiles.is_empty());
    assert_eq!(held.map_size, Point { x: 800_000, y: 600_000 });
    assert!(store.dev_data.is_none());
}

#[test]
fn store_replaces_the_diagnostics_whole() {
    let mut store = SnapshotStore::new();
    store.update_game_state(state_with(Vec::new()));
    store.update_dev_data(DevData {
        fps: 30_000,
        player_count: 4,
        troop_count: 40,
        troops_by_player: vec![(1, 10), (2, 30)],
    });
    store.update_dev_data(DevData { fps: 60_000, player_count: 1, troop_count: 2, troops_by_player: vec![(1, 2)] });
    let held = store.dev_data.as_ref().unwrap();
    assert_eq!(held.fps, 60_000);
    assert_eq!(held.player_count, 1);
    assert_eq!(held.troop_count, 2);
    assert_eq!(held.troops_by_player, vec![(1, 2)]);
    assert!(store.game_state.is_some());
}

#[test]
fn find_player_gives_the_position_of_the_first_match() {
    let state = state_with(vec![member(5, 1, 2), member(6, 3, 4), member(6, 7, 8), member(7, 9, 9)]);
    assert_eq!(state.find_player(5), Some(Point { x: 1, y: 2 }));
    assert_eq!(state.find_player(6), Some(Point { x: 3, y: 4 }));
    assert_eq!(state.find_player(7), Some(Point { x: 9, y: 9 }));
}

#[test]
fn find_player_of_an_absent_id_gives_nothing() {
    let state = state_with(vec![member(5, 1, 2)]);
    assert_eq!(state.find_player(4), None);
    assert_eq!(state_with(Vec::new()).find_player(5), None);
}
