//! The game-state snapshot and the diagnostics that the server sends.
//!
//! A snapshot is a plain value: it is stored whole and never modified.

use vstd::prelude::*;
use crate::geometry::Point;

verus! {

/// An opaque colour, one byte per channel.
#[derive(Clone, Copy, Debug, PartialEq, Eq, Structural)]
pub struct Color {
    pub r: u8,
    pub g: u8,
    pub b: u8,
}

/// A participant of the game.
#[derive(Clone, Debug)]
pub struct Player {
    pub id: u32,
    pub position: Point,
    pub color: Color,
}

/// A unit on the map. The combat-tuning fields are carried along untouched;
/// which of them are present depends on `unit_type`.
#[derive(Clone, Debug)]
pub struct Troop {
    pub id: u32,
    pub player_id: u32,
    pub position: Point,
    pub direction: Point,
    pub speed: i64,
    pub health: i64,
    pub attack: i64,
    pub color: Color,
    pub shape: String,
    pub unit_type: String,
    pub is_attacking: bool,
    pub weight: i64,
    pub attack_speed: Option<i64>,
    pub attack_range: Option<i64>,
    pub attack_cooldown: Option<i64>,
    pub attack_rate: Option<i64>,
    pub max_speed: Option<i64>,
    pub acceleration: Option<i64>,
    pub min_range: Option<i64>,
    pub max_range: Option<i64>,
    pub target: Option<u32>,
}

/// A projectile in flight.
#[derive(Clone, Debug)]
pub struct Projectile {
    pub id: u32,
    pub player_id: u32,
    pub position: Point,
    pub direction: Point,
    pub speed: i64,
    pub damage: i64,
    pub time_to_live: i64,
    pub color: Color,
}

/// One authoritative point-in-time copy of all visible game entities.
/// `map_size` holds the width of the map in `x` and its height in `y`.
#[derive(Clone, Debug)]
pub struct GameState {
    pub players: Vec<Player>,
    pub troops: Vec<Troop>,
    pub projectiles: Vec<Projectile>,
    pub map_size: Point,
}

/// Server-side diagnostics for the optional overlay. `troops_by_player`
/// pairs a player id with the number of that player's troops.
#[derive(Clone, Debug)]
pub struct DevData {
    pub fps: i64,
    pub player_count: usize,
    pub troop_count: usize,
    pub troops_by_player: Vec<(u32, usize)>,
}

/// The most recent snapshot and the most recent diagnostics. An update
/// replaces the earlier value whole; nothing is merged.
pub struct SnapshotStore {
    pub game_state: Option<GameState>,
    pub dev_data: Option<DevData>,
}

impl SnapshotStore {
    /// A store that has received nothing yet.
    pub fn new() -> (store: SnapshotStore)
        ensures
            store.game_state is None,
            store.dev_data is None,
    {
        SnapshotStore { game_state: None, dev_data: None }
    }

    /// Replaces the snapshot.
    pub fn update_game_state(&mut self, state: GameState)
        ensures
            final(self).game_state == Some(state),
            final(self).dev_data == old(self).dev_data,
    {
        self.game_state = Some(state);
    }

    /// Replaces the diagnostics.
    pub fn update_dev_data(&mut self, data: DevData)
        ensures
            final(self).dev_data == Some(data),
            final(self).game_state == old(self).game_state,
    {
        self.dev_data = Some(data);
    }
}

/// `i` is the first index in `players` at which the player `id` stands.
pub open spec fn is_first_with_id(players: Seq<Player>, id: u32, i: int) -> bool {
    &&& 0 <= i < players.len()
    &&& players[i].id == id
    &&& forall|j: int| 0 <= j < i ==> players[j].id != id
}

/// The position of the first player with the given id, if there is one.
pub open spec fn player_position(players: Seq<Player>, id: u32) -> Option<Point> {
    if exists|i: int| is_first_with_id(players, id, i) {
        Some(players[choose|i: int| is_first_with_id(players, id, i)].position)
    } else {
        None
    }
}

impl GameState {
    /// Looks up the position of the player `id`.
    pub fn find_player(&self, id: u32) -> (found: Option<Point>)
        ensures
            found == player_position(self.players@, id),
    {
        let mut i: usize = 0;
        while i < self.players.len()
            invariant
                i <= self.players.len(),
                forall|j: int| 0 <= j < i ==> self.players@[j].id != id,
            decreases self.players.len() - i,
        {
            if self.players[i].id == id {
                assert(is_first_with_id(self.players@, id, i as int));
                return Some(self.players[i].position);
            }
            i += 1;
        }
        None
    }
}

} // verus!
