//! The input state machine: pointer and wheel events drive the camera and
//! the selection and produce commands.

use vstd::prelude::*;
use crate::command::{
    build_move, build_spawn, move_command, spawn_command, Command, MoveCommandModel, SpawnCommand,
};
use crate::fixed::{difference, saturate, UNIT};
use crate::geometry::Point;
use crate::scene::{draw_list, project_scene, DrawInstruction};
use crate::selection::{
    hits_selected, lemma_box_selection_is_owned, SelectionEngine, SelectionModel,
};
use crate::snapshot::{player_position, DevData, GameState, SnapshotStore};
use crate::viewport::{Viewport, ViewportModel};

verus! {

/// The button code of the primary pointer button.
pub const PRIMARY_BUTTON: i16 = 0;

/// A press on the map keeps the selection when it lands less than this far
/// (`10.0` world units) from a selected troop.
pub const SELECT_RADIUS: i64 = 10_000;

/// A pointer event: the position relative to the drawing surface, the
/// button, and whether the pan modifier key is held.
#[derive(Clone, Copy, Debug, PartialEq, Eq, Structural)]
pub struct PointerEvent {
    pub x: i64,
    pub y: i64,
    pub button: i16,
    pub alt_key: bool,
}

impl PointerEvent {
    /// Where the pointer is, in screen space.
    pub open spec fn position(self) -> Point {
        Point { x: self.x, y: self.y }
    }
}

/// What the pointer is doing.
#[derive(Clone, Copy, Debug, PartialEq, Eq, Structural)]
pub enum InputState {
    Idle,
    Panning,
    BoxSelecting,
}

/// The mathematical state of a [`Renderer`].
pub struct RendererModel {
    pub viewport: ViewportModel,
    pub selection: SelectionModel,
    pub panning: bool,
    pub last_mouse: Point,
    pub player_id: Option<u32>,
    pub game_state: Option<GameState>,
    pub dev_data: Option<DevData>,
    pub show_dev_tools: bool,
}

impl RendererModel {
    /// The camera is well formed, and panning and box selection never go
    /// on at once.
    pub open spec fn wf(self) -> bool {
        &&& self.viewport.wf()
        &&& !(self.panning && self.selection.drag is Some)
    }

    /// What the pointer is doing.
    pub open spec fn state(self) -> InputState {
        if self.panning {
            InputState::Panning
        } else if self.selection.drag is Some {
            InputState::BoxSelecting
        } else {
            InputState::Idle
        }
    }

    /// The world position under the pointer.
    pub open spec fn world_at(self, event: PointerEvent) -> Point {
        self.viewport.screen_to_world(event.position())
    }

    /// A press at the world position `p` lands on a selected troop.
    pub open spec fn hits(self, p: Point) -> bool {
        match self.game_state {
            Some(snapshot) => hits_selected(
                self.selection.selected,
                snapshot.troops@,
                p,
                SELECT_RADIUS as int,
            ),
            None => false,
        }
    }

    /// A press of a button. With the primary button and the pan modifier,
    /// panning starts and a drag in progress is abandoned; with the primary
    /// button alone, a drag starts, and the selection is cleared unless the
    /// press lands on a selected troop. Other buttons do nothing.
    pub open spec fn mouse_down(self, event: PointerEvent) -> RendererModel {
        if event.button != PRIMARY_BUTTON {
            self
        } else if event.alt_key {
            RendererModel {
                panning: true,
                last_mouse: event.position(),
                selection: self.selection.cancel_drag(),
                ..self
            }
        } else {
            let world = self.world_at(event);
            let dragging = self.selection.begin_drag(world);
            RendererModel {
                panning: false,
                selection: if self.hits(world) {
                    dragging
                } else {
                    dragging.clear()
                },
                ..self
            }
        }
    }

    /// A movement of the pointer: pans the camera while panning, moves the
    /// free corner of the drag box while box selecting.
    pub open spec fn mouse_move(self, event: PointerEvent) -> RendererModel {
        if self.panning {
            RendererModel {
                viewport: self.viewport.pan_by(
                    saturate(event.x - self.last_mouse.x),
                    saturate(event.y - self.last_mouse.y),
                ),
                last_mouse: event.position(),
                ..self
            }
        } else {
            RendererModel { selection: self.selection.update_drag(self.world_at(event)), ..self }
        }
    }

    /// A release of a button: commits the drag in progress for the bound
    /// player against the snapshot, or abandons it when either is missing,
    /// and returns to idle.
    pub open spec fn mouse_up(self) -> RendererModel {
        RendererModel {
            panning: false,
            selection: match (self.game_state, self.player_id) {
                (Some(snapshot), Some(owner)) => self.selection.commit_drag(owner, snapshot.troops@),
                _ => self.selection.cancel_drag(),
            },
            ..self
        }
    }

    /// A run of pointer movements, oldest first.
    pub open spec fn mouse_moves(self, events: Seq<PointerEvent>) -> RendererModel
        decreases events.len(),
    {
        if events.len() == 0 {
            self
        } else {
            self.mouse_moves(events.drop_last()).mouse_move(events.last())
        }
    }

    /// A turn of the wheel: zooms the camera, in every state.
    pub open spec fn wheel(self, delta_y: int) -> RendererModel {
        RendererModel { viewport: self.viewport.zoom_by(delta_y), ..self }
    }

    /// What to draw: the projection of the snapshot, or nothing while there
    /// is no snapshot.
    pub open spec fn scene(self) -> Seq<DrawInstruction> {
        match self.game_state {
            Some(snapshot) => draw_list(
                self.viewport,
                self.selection.selected,
                self.selection.drag,
                snapshot,
                self.dev_data,
                self.show_dev_tools,
                self.player_id,
            ),
            None => Seq::empty(),
        }
    }

    /// The spawn command that a click produces: none while panning, without
    /// a bound player, without a snapshot, or when the snapshot does not
    /// hold the bound player.
    pub open spec fn click(self, event: PointerEvent) -> Option<SpawnCommand> {
        match (self.game_state, self.player_id) {
            (Some(snapshot), Some(owner)) if !self.panning => match player_position(
                snapshot.players@,
                owner,
            ) {
                Some(origin) => Some(spawn_command(origin, self.world_at(event))),
                None => None,
            },
            _ => None,
        }
    }

    /// The move command that a right click produces: none without a bound
    /// player, without a snapshot, or with nothing selected.
    pub open spec fn right_click(self, event: PointerEvent) -> Option<MoveCommandModel> {
        if self.player_id is Some && self.game_state is Some && self.selection.selected.len() > 0 {
            Some(move_command(self.world_at(event), self.selection.selected))
        } else {
            None
        }
    }
}

/// Every transition keeps a well-formed state well formed: the zoom stays
/// in its range, and panning and box selection never go on at once.
pub proof fn lemma_transitions_keep_wf(state: RendererModel, event: PointerEvent, delta_y: int)
    requires
        state.wf(),
    ensures
        state.mouse_down(event).wf(),
        state.mouse_move(event).wf(),
        state.mouse_up().wf(),
        state.wheel(delta_y).wf(),
        state.mouse_up().state() == InputState::Idle,
{
}

/// Releasing the button over an accidental drag box leaves the selection
/// as the press left it: nothing inside the box is selected.
pub proof fn lemma_accidental_release_selects_nothing(state: RendererModel)
    requires
        state.selection.drag is Some,
        state.selection.drag->0.accidental(),
    ensures
        state.mouse_up().selection.selected == state.selection.selected,
{
}

/// Pointer movements leave the selected troops, the snapshot and the bound
/// player alone, and keep a box selection going.
pub proof fn lemma_moves_keep_selection(state: RendererModel, moves: Seq<PointerEvent>)
    ensures
        state.mouse_moves(moves).selection.selected == state.selection.selected,
        state.mouse_moves(moves).game_state == state.game_state,
        state.mouse_moves(moves).player_id == state.player_id,
        state.mouse_moves(moves).state() == state.state(),
    decreases moves.len(),
{
    if moves.len() > 0 {
        lemma_moves_keep_selection(state, moves.drop_last());
    }
}

/// A whole gesture: a plain press of the primary button, any pointer
/// movements, and a release. When the box that the gesture spans is
/// accidental, the gesture selects nothing: what is selected afterwards is
/// what the press left selected, which is nothing unless the press landed
/// on a selected troop.
pub proof fn lemma_accidental_gesture_selects_nothing(
    state: RendererModel,
    press: PointerEvent,
    moves: Seq<PointerEvent>,
)
    requires
        press.button == PRIMARY_BUTTON,
        !press.alt_key,
        state.mouse_down(press).mouse_moves(moves).selection.drag is Some,
        state.mouse_down(press).mouse_moves(moves).selection.drag->0.accidental(),
    ensures
        state.mouse_down(press).mouse_moves(moves).mouse_up().selection.selected == if state.hits(
            state.world_at(press),
        ) {
            state.selection.selected
        } else {
            Seq::empty()
        },
{
    lemma_moves_keep_selection(state.mouse_down(press), moves);
}

/// After a release that commits a deliberate drag box, every selected id
/// belongs to a troop of the snapshot that the bound player owns and that
/// lies inside the box.
pub proof fn lemma_release_selects_own_troops(state: RendererModel, k: int)
    requires
        state.selection.drag is Some,
        !state.selection.drag->0.accidental(),
        state.game_state is Some,
        state.player_id is Some,
        0 <= k < state.mouse_up().selection.selected.len(),
    ensures
        exists|j: int|
            #![trigger state.game_state->0.troops@[j]]
            0 <= j < state.game_state->0.troops@.len() && state.game_state->0.troops@[j].id
                == state.mouse_up().selection.selected[k] && state.game_state->0.troops@[j].player_id
                == state.player_id->0 && state.selection.drag->0.contains(
                state.game_state->0.troops@[j].position,
            ),
{
    lemma_box_selection_is_owned(
        state.game_state->0.troops@,
        state.player_id->0,
        state.selection.drag->0,
        k,
    );
}

/// The interaction core of one connected client: camera, selection, input
/// state, and the latest snapshot and diagnostics.
pub struct Renderer {
    viewport: Viewport,
    selection: SelectionEngine,
    is_dragging: bool,
    last_mouse: Point,
    player_id: Option<u32>,
    store: SnapshotStore,
    show_dev_tools: bool,
}

impl View for Renderer {
    type V = RendererModel;

    closed spec fn view(&self) -> RendererModel {
        RendererModel {
            viewport: self.viewport@,
            selection: self.selection@,
            panning: self.is_dragging,
            last_mouse: self.last_mouse,
            player_id: self.player_id,
            game_state: self.store.game_state,
            dev_data: self.store.dev_data,
            show_dev_tools: self.show_dev_tools,
        }
    }
}

impl Renderer {
    /// A core with the camera at the origin, zoom `1.0`, nothing selected,
    /// no player bound, no snapshot, and the diagnostics overlay switched
    /// on.
    pub fn new() -> (r: Renderer)
        ensures
            r@.wf(),
            r@.viewport == (ViewportModel { offset_x: 0, offset_y: 0, zoom: UNIT as int }),
            r@.selection == (SelectionModel { drag: None, selected: Seq::empty() }),
            !r@.panning,
            r@.last_mouse == (Point { x: 0, y: 0 }),
            r@.player_id is None,
            r@.game_state is None,
            r@.dev_data is None,
            r@.show_dev_tools,
    {
        Renderer {
            viewport: Viewport::new(),
            selection: SelectionEngine::new(),
            is_dragging: false,
            last_mouse: Point { x: 0, y: 0 },
            player_id: None,
            store: SnapshotStore::new(),
            show_dev_tools: true,
        }
    }

    /// The camera.
    pub fn viewport(&self) -> (v: &Viewport)
        ensures
            v@ == self@.viewport,
    {
        &self.viewport
    }

    /// The drag box in progress and the selected troops.
    pub fn selection(&self) -> (s: &SelectionEngine)
        ensures
            s@ == self@.selection,
    {
        &self.selection
    }

    /// What the pointer is doing.
    pub fn state(&self) -> (s: InputState)
        ensures
            s == self@.state(),
    {
        if self.is_dragging {
            InputState::Panning
        } else if self.selection.drag().is_some() {
            InputState::BoxSelecting
        } else {
            InputState::Idle
        }
    }

    /// The id of the local player, once bound.
    pub fn player_id(&self) -> (id: Option<u32>)
        ensures
            id == self@.player_id,
    {
        self.player_id
    }

    /// The latest snapshot, once one has arrived.
    pub fn game_state(&self) -> (state: &Option<GameState>)
        ensures
            *state == self@.game_state,
    {
        &self.store.game_state
    }

    /// The latest diagnostics, once some have arrived.
    pub fn dev_data(&self) -> (data: &Option<DevData>)
        ensures
            *data == self@.dev_data,
    {
        &self.store.dev_data
    }

    /// Whether the diagnostics overlay is switched on.
    pub fn shows_dev_tools(&self) -> (on: bool)
        ensures
            on == self@.show_dev_tools,
    {
        self.show_dev_tools
    }

    /// Binds the local player.
    pub fn set_player_id(&mut self, player_id: u32)
        ensures
            final(self)@ == (RendererModel { player_id: Some(player_id), ..old(self)@ }),
            old(self)@.wf() ==> final(self)@.wf(),
    {
        self.player_id = Some(player_id);
    }

    /// Replaces the snapshot.
    pub fn update_game_state(&mut self, state: GameState)
        ensures
            final(self)@ == (RendererModel { game_state: Some(state), ..old(self)@ }),
            old(self)@.wf() ==> final(self)@.wf(),
    {
        self.store.update_game_state(state);
    }

    /// Replaces the diagnostics.
    pub fn update_dev_data(&mut self, data: DevData)
        ensures
            final(self)@ == (RendererModel { dev_data: Some(data), ..old(self)@ }),
            old(self)@.wf() ==> final(self)@.wf(),
    {
        self.store.update_dev_data(data);
    }

    /// Switches the diagnostics overlay on or off.
    pub fn toggle_dev_tools(&mut self)
        ensures
            final(self)@ == (RendererModel {
                show_dev_tools: !old(self)@.show_dev_tools,
                ..old(self)@
            }),
            old(self)@.wf() ==> final(self)@.wf(),
    {
        self.show_dev_tools = !self.show_dev_tools;
    }

    /// Handles the press of a pointer button.
    pub fn handle_mouse_down(&mut self, event: PointerEvent)
        ensures
            final(self)@ == old(self)@.mouse_down(event),
            old(self)@.wf() ==> final(self)@.wf(),
    {
        if event.button == PRIMARY_BUTTON {
            if event.alt_key {
                self.selection.cancel_drag();
                self.is_dragging = true;
                self.last_mouse = Point { x: event.x, y: event.y };
            } else {
                let world = self.viewport.screen_to_world(Point { x: event.x, y: event.y });
                self.is_dragging = false;
                self.selection.begin_drag(world);
                let hit = match &self.store.game_state {
                    Some(snapshot) => self.selection.hit_test_selected(world, snapshot, SELECT_RADIUS),
                    None => false,
                };
                if !hit {
                    self.selection.clear();
                }
            }
        }
    }

    /// Handles a movement of the pointer.
    pub fn handle_mouse_move(&mut self, event: PointerEvent)
        ensures
            final(self)@ == old(self)@.mouse_move(event),
            old(self)@.wf() ==> final(self)@.wf(),
    {
        if self.is_dragging {
            let dx = difference(event.x, self.last_mouse.x);
            let dy = difference(event.y, self.last_mouse.y);
            self.viewport.pan_by(dx, dy);
            self.last_mouse = Point { x: event.x, y: event.y };
        } else {
            let world = self.viewport.screen_to_world(Point { x: event.x, y: event.y });
            self.selection.update_drag(world);
        }
    }

    /// Handles the release of a pointer button.
    pub fn handle_mouse_up(&mut self, _event: PointerEvent)
        ensures
            final(self)@ == old(self)@.mouse_up(),
            old(self)@.wf() ==> final(self)@.wf(),
    {
        self.is_dragging = false;
        match (&self.store.game_state, self.player_id) {
            (Some(snapshot), Some(owner)) => {
                self.selection.commit_drag(owner, snapshot);
            },
            _ => {
                self.selection.cancel_drag();
            },
        }
    }

    /// Handles a turn of the wheel.
    pub fn handle_wheel(&mut self, delta_y: i64)
        ensures
            final(self)@ == old(self)@.wheel(delta_y as int),
            old(self)@.wf() ==> final(self)@.wf(),
    {
        self.viewport.zoom_by(delta_y);
    }

    /// Handles a click: the spawn command aimed from the local player's
    /// position at the clicked world position, if there is one to give.
    pub fn handle_click(&mut self, event: PointerEvent) -> (command: Option<Command>)
        ensures
            final(self)@ == old(self)@,
            match command {
                Some(Command::Spawn(spawn)) => old(self)@.click(event) == Some(spawn),
                Some(Command::Move(_)) => false,
                None => old(self)@.click(event) is None,
            },
    {
        if self.is_dragging {
            return None;
        }
        let owner = match self.player_id {
            Some(owner) => owner,
            None => {
                return None;
            },
        };
        let snapshot = match &self.store.game_state {
            Some(snapshot) => snapshot,
            None => {
                return None;
            },
        };
        let world = self.viewport.screen_to_world(Point { x: event.x, y: event.y });
        match snapshot.find_player(owner) {
            Some(origin) => Some(Command::Spawn(build_spawn(origin, world))),
            None => None,
        }
    }

    /// Handles a right click: the move command that sends every selected
    /// troop to the clicked world position, if there is one to give.
    pub fn handle_right_click(&mut self, event: PointerEvent) -> (command: Option<Command>)
        ensures
            final(self)@ == old(self)@,
            match command {
                Some(Command::Move(order)) => old(self)@.right_click(event) == Some(order@),
                Some(Command::Spawn(_)) => false,
                None => old(self)@.right_click(event) is None,
            },
    {
        if self.player_id.is_none() || self.store.game_state.is_none()
            || self.selection.selected().len() == 0 {
            return None;
        }
        let world = self.viewport.screen_to_world(Point { x: event.x, y: event.y });
        Some(Command::Move(build_move(world, self.selection.selected())))
    }

    /// Projects the snapshot into draw instructions, in drawing order.
    pub fn render(&self) -> (out: Vec<DrawInstruction>)
        ensures
            out@ == self@.scene(),
    {
        match &self.store.game_state {
            Some(snapshot) => project_scene(
                &self.viewport,
                &self.selection,
                snapshot,
                &self.store.dev_data,
                self.show_dev_tools,
                self.player_id,
            ),
            None => Vec::new(),
        }
    }

    /// The ids of the selected troops, in selection order.
    pub fn get_selected_troops(&self) -> (ids: Vec<u32>)
        ensures
            ids@ == self@.selection.selected,
    {
        let ids = self.selection.selected().clone();
        ids
    }
}

} // verus!
