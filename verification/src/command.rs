//! The commands that pointer input produces for the game server.

use vstd::prelude::*;
use crate::fixed::{difference, saturate};
use crate::geometry::Point;

verus! {

/// The number of troops that one spawn command asks for.
pub const SPAWN_COUNT: u32 = 15;

/// Asks for `count` troops at `position`, heading along `direction`. The
/// direction is the raw displacement from the origin to the click, not a
/// unit vector.
#[derive(Clone, Copy, Debug, PartialEq, Eq, Structural)]
pub struct SpawnCommand {
    pub position: Point,
    pub direction: Point,
    pub count: u32,
}

/// Sends the troops `troop_ids` to `target_position`.
#[derive(Clone, Debug, PartialEq, Eq)]
pub struct MoveCommand {
    pub target_position: Point,
    pub troop_ids: Vec<u32>,
}

/// The mathematical value of a [`MoveCommand`].
pub struct MoveCommandModel {
    pub target_position: Point,
    pub troop_ids: Seq<u32>,
}

impl View for MoveCommand {
    type V = MoveCommandModel;

    open spec fn view(&self) -> MoveCommandModel {
        MoveCommandModel { target_position: self.target_position, troop_ids: self.troop_ids@ }
    }
}

/// An intent for the game server.
#[derive(Clone, Debug, PartialEq, Eq)]
pub enum Command {
    Spawn(SpawnCommand),
    Move(MoveCommand),
}

/// The spawn command for a click at `click` by a player standing at
/// `origin`.
pub open spec fn spawn_command(origin: Point, click: Point) -> SpawnCommand {
    SpawnCommand {
        position: origin,
        direction: Point {
            x: saturate(click.x - origin.x) as i64,
            y: saturate(click.y - origin.y) as i64,
        },
        count: SPAWN_COUNT,
    }
}

/// The move command that sends `selected` to `click`.
pub open spec fn move_command(click: Point, selected: Seq<u32>) -> MoveCommandModel {
    MoveCommandModel { target_position: click, troop_ids: selected }
}

/// A move command is a value of its own: it holds the ids that were
/// selected when it was built, and a selection that differs from those ids
/// gives a different command. So nothing that happens to the selection
/// after a command was built shows in that command.
pub proof fn lemma_move_command_is_snapshot(click: Point, selected: Seq<u32>, later: Seq<u32>)
    ensures
        move_command(click, selected).troop_ids == selected,
        later != selected ==> move_command(click, later) != move_command(click, selected),
{
}

/// Builds the spawn command for a click at `click` by a player standing at
/// `origin`.
pub fn build_spawn(origin: Point, click: Point) -> (command: SpawnCommand)
    ensures
        command == spawn_command(origin, click),
{
    SpawnCommand {
        position: origin,
        direction: Point { x: difference(click.x, origin.x), y: difference(click.y, origin.y) },
        count: SPAWN_COUNT,
    }
}

/// Builds the move command that sends `selected` to `click`. The command
/// owns a copy of the ids.
pub fn build_move(click: Point, selected: &Vec<u32>) -> (command: MoveCommand)
    ensures
        command@ == move_command(click, selected@),
{
    let troop_ids = selected.clone();
    MoveCommand { target_position: click, troop_ids }
}

} // verus!
