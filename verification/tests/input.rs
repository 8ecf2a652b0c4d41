use client::geometry::Point;
use client::renderer::{InputState, PointerEvent, Renderer, PRIMARY_BUTTON, SELECT_RADIUS};
use client::selection::DragBox;
use client::snapshot::{Color, DevData, GameState, Player, Troop};

fn xy(x: i64, y: i64) -> Point {
    Point { x, y }
}

fn left(x: i64, y: i64) -> PointerEvent {
    PointerEvent { x, y, button: PRIMARY_BUTTON, alt_key: false }
}

fn alt_left(x: i64, y: i64) -> PointerEvent {
    PointerEvent { x, y, button: PRIMARY_BUTTON, alt_key: true }
}

fn tank(id: u32, owner: u32, x: i64, y: i64) -> Troop {
    Troop {
        id,
        player_id: owner,
        position: xy(x, y),
        direction: xy(1_000, 0),
        speed: 500,
        health: 100_000,
        attack: 20_000,
        color: Color { r: 200, g: 10, b: 10 },
        shape: String::from("triangle"),
        unit_type: String::from("tank"),
        is_attacking: false,
        weight: 9_000,
        attack_speed: None,
        attack_range: None,
        attack_cooldown: Some(2_000),
        attack_rate: Some(500),
        max_speed: Some(3_000),
        acceleration: Some(100),
        min_range: None,
        max_range: None,
        target: None,
    }
}

fn battlefield(troops: Vec<Troop>) -> GameState {
    GameState {
        players: vec![Player { id: 1, position: xy(0, 0), color: Color { r: 0, g: 255, b: 0 } }],
        troops,
        projectiles: Vec::new(),
        map_size: xy(1_000_000, 1_000_000),
    }
}

fn ready(troops: Vec<Troop>) -> Renderer {
    let mut r = Renderer::new();
    r.set_player_id(1);
    r.update_game_state(battlefield(troops));
    r
}

fn sweep(r: &mut Renderer, from: Point, to: Point) {
    r.handle_mouse_down(left(from.x, from.y));
    r.handle_mouse_move(left(to.x, to.y));
    r.handle_mouse_up(left(to.x, to.y));
}

#[test]
fn new_renderer_starts_idle_and_unbound() {
    let r = Renderer::new();
    assert_eq!(r.state(), InputState::Idle);
    assert_eq!(r.viewport().camera(), xy(0, 0));
    assert_eq!(r.viewport().zoom(), 1_000);
    assert_eq!(r.player_id(), None);
    assert!(r.game_state().is_none());
    assert!(r.dev_data().is_none());
    assert!(r.shows_dev_tools());
    assert!(r.get_selected_troops().is_empty());
    assert_eq!(r.selection().drag(), None);
}

#[test]
fn set_player_id_binds_the_player() {
    let mut r = Renderer::new();
    r.set_player_id(42);
    assert_eq!(r.player_id(), Some(42));
    r.set_player_id(7);
    assert_eq!(r.player_id(), Some(7));
}

#[test]
fn update_game_state_replaces_the_snapshot() {
    let mut r = Renderer::new();
    r.update_game_state(battlefield(vec![tank(1, 1, 0, 0), tank(2, 1, 5, 5)]));
    assert_eq!(r.game_state().as_ref().unwrap().troops.len(), 2);
    r.update_game_state(battlefield(vec![tank(3, 1, 0, 0)]));
    let held = r.game_state().as_ref().unwrap();
    assert_eq!(held.troops.len(), 1);
    assert_eq!(held.troops[0].id, 3);
    assert_eq!(held.troops[0].unit_type, "tank");
    assert_eq!(held.troops[0].attack_cooldown, Some(2_000));
}

#[test]
fn update_dev_data_replaces_the_diagnostics() {
    let mut r = Renderer::new();
    r.update_dev_data(DevData {
        fps: 59_900,
        player_count: 2,
        troop_count: 30,
        troops_by_player: vec![(1, 10), (2, 20)],
    });
    let held = r.dev_data().as_ref().unwrap();
    assert_eq!(held.fps, 59_900);
    assert_eq!(held.troops_by_player, vec![(1, 10), (2, 20)]);
}

#[test]
fn toggle_dev_tools_flips_the_overlay() {
    let mut r = Renderer::new();
    r.toggle_dev_tools();
    assert!(!r.shows_dev_tools());
    r.toggle_dev_tools();
    assert!(r.shows_dev_tools());
}

#[test]
fn press_with_modifier_starts_panning() {
    let mut r = ready(Vec::new());
    r.handle_mouse_down(alt_left(10_000, 10_000));
    assert_eq!(r.state(), InputState::Panning);
    assert_eq!(r.selection().drag(), None);
}

#[test]
fn panning_moves_the_camera_by_the_pointer_delta() {
    let mut r = ready(Vec::new());
    r.handle_mouse_down(alt_left(10_000, 10_000));
    r.handle_mouse_move(alt_left(13_000, 6_000));
    assert_eq!(r.viewport().camera(), xy(-3_000, 4_000));
    r.handle_mouse_move(left(14_000, 6_000));
    assert_eq!(r.viewport().camera(), xy(-4_000, 4_000));
    r.handle_mouse_up(left(14_000, 6_000));
    assert_eq!(r.state(), InputState::Idle);
    r.handle_mouse_move(left(99_000, 99_000));
    assert_eq!(r.viewport().camera(), xy(-4_000, 4_000));
}

#[test]
fn panning_divides_the_delta_by_the_zoom() {
    let mut r = ready(Vec::new());
    r.handle_wheel(-1);
    r.handle_mouse_down(alt_left(0, 0));
    r.handle_mouse_move(alt_left(2_200, -1_100));
    assert_eq!(r.viewport().camera(), xy(-2_000, 1_000));
}

#[test]
fn panning_leaves_the_selection_alone() {
    let mut r = ready(vec![tank(1, 1, 5_000, 5_000)]);
    sweep(&mut r, xy(0, 0), xy(10_000, 10_000));
    assert_eq!(r.get_selected_troops(), vec![1]);
    r.handle_mouse_down(alt_left(500_000, 500_000));
    r.handle_mouse_move(alt_left(400_000, 400_000));
    r.handle_mouse_up(alt_left(400_000, 400_000));
    assert_eq!(r.get_selected_troops(), vec![1]);
}

#[test]
fn press_without_modifier_starts_a_box() {
    let mut r = ready(Vec::new());
    r.handle_mouse_down(left(10_000, 20_000));
    assert_eq!(r.state(), InputState::BoxSelecting);
    assert_eq!(r.selection().drag(), Some(DragBox { start: xy(10_000, 20_000), end: xy(10_000, 20_000) }));
}

#[test]
fn box_corners_are_world_positions() {
    let mut r = ready(Vec::new());
    r.handle_wheel(1);
    r.handle_mouse_down(alt_left(0, 0));
    r.handle_mouse_move(alt_left(-900, -900));
    r.handle_mouse_up(left(0, 0));
    assert_eq!(r.viewport().camera(), xy(1_000, 1_000));
    r.handle_mouse_down(left(9_000, 18_000));
    r.handle_mouse_move(left(18_000, 27_000));
    assert_eq!(r.selection().drag(), Some(DragBox { start: xy(11_000, 21_000), end: xy(21_000, 31_000) }));
}

#[test]
fn move_while_idle_does_nothing() {
    let mut r = ready(vec![tank(1, 1, 5_000, 5_000)]);
    r.handle_mouse_move(left(70_000, 70_000));
    assert_eq!(r.state(), InputState::Idle);
    assert_eq!(r.viewport().camera(), xy(0, 0));
    assert_eq!(r.selection().drag(), None);
    assert!(r.get_selected_troops().is_empty());
}

#[test]
fn release_commits_the_box_and_returns_to_idle() {
    let mut r = ready(vec![tank(1, 1, 5_000, 5_000), tank(2, 1, 50_000, 50_000)]);
    r.handle_mouse_down(left(0, 0));
    r.handle_mouse_move(left(10_000, 10_000));
    r.handle_mouse_up(left(10_000, 10_000));
    assert_eq!(r.state(), InputState::Idle);
    assert_eq!(r.selection().drag(), None);
    assert_eq!(r.get_selected_troops(), vec![1]);
}

#[test]
fn release_after_a_small_drag_selects_nothing() {
    let mut r = ready(vec![tank(1, 1, 2_000, 2_000)]);
    r.handle_mouse_down(left(0, 0));
    r.handle_mouse_move(left(4_000, 4_000));
    r.handle_mouse_up(left(4_000, 4_000));
    assert_eq!(r.state(), InputState::Idle);
    assert!(r.get_selected_troops().is_empty());
}

#[test]
fn plain_click_selects_nothing() {
    let mut r = ready(vec![tank(1, 1, 2_000, 2_000)]);
    r.handle_mouse_down(left(2_000, 2_000));
    r.handle_mouse_up(left(2_000, 2_000));
    assert!(r.get_selected_troops().is_empty());
    assert_eq!(r.state(), InputState::Idle);
}

#[test]
fn press_away_from_the_selection_clears_it() {
    let mut r = ready(vec![tank(1, 1, 5_000, 5_000)]);
    sweep(&mut r, xy(0, 0), xy(10_000, 10_000));
    assert_eq!(r.get_selected_troops(), vec![1]);
    r.handle_mouse_down(left(5_000, 5_000 + SELECT_RADIUS));
    assert!(r.get_selected_troops().is_empty());
    assert_eq!(r.state(), InputState::BoxSelecting);
}

#[test]
fn press_on_a_selected_troop_keeps_the_selection() {
    let mut r = ready(vec![tank(1, 1, 5_000, 5_000), tank(2, 1, 8_000, 8_000)]);
    sweep(&mut r, xy(0, 0), xy(10_000, 10_000));
    assert_eq!(r.get_selected_troops(), vec![1, 2]);
    r.handle_mouse_down(left(5_000, 5_000 + SELECT_RADIUS - 1));
    assert_eq!(r.get_selected_troops(), vec![1, 2]);
    r.handle_mouse_move(left(5_500, 15_500));
    r.handle_mouse_up(left(5_500, 15_500));
    assert_eq!(r.get_selected_troops(), vec![1, 2]);
    assert_eq!(r.state(), InputState::Idle);
}

#[test]
fn press_without_snapshot_clears_the_selection() {
    let mut r = ready(vec![tank(1, 1, 5_000, 5_000)]);
    sweep(&mut r, xy(0, 0), xy(10_000, 10_000));
    let ids = r.get_selected_troops();
    assert_eq!(ids, vec![1]);
    let mut bare = Renderer::new();
    bare.handle_mouse_down(left(5_000, 5_000));
    assert_eq!(bare.state(), InputState::BoxSelecting);
    assert!(bare.get_selected_troops().is_empty());
}

#[test]
fn other_buttons_do_not_start_anything() {
    let mut r = ready(vec![tank(1, 1, 5_000, 5_000)]);
    sweep(&mut r, xy(0, 0), xy(10_000, 10_000));
    r.handle_mouse_down(PointerEvent { x: 500_000, y: 500_000, button: 2, alt_key: false });
    assert_eq!(r.state(), InputState::Idle);
    assert_eq!(r.get_selected_troops(), vec![1]);
    r.handle_mouse_down(PointerEvent { x: 500_000, y: 500_000, button: 1, alt_key: true });
    assert_eq!(r.state(), InputState::Idle);
}

#[test]
fn release_without_player_id_abandons_the_box() {
    let mut r = Renderer::new();
    r.update_game_state(battlefield(vec![tank(1, 1, 5_000, 5_000)]));
    r.handle_mouse_down(left(0, 0));
    r.handle_mouse_move(left(10_000, 10_000));
    r.handle_mouse_up(left(10_000, 10_000));
    assert_eq!(r.state(), InputState::Idle);
    assert_eq!(r.selection().drag(), None);
    assert!(r.get_selected_troops().is_empty());
}

#[test]
fn release_without_snapshot_abandons_the_box() {
    let mut r = Renderer::new();
    r.set_player_id(1);
    r.handle_mouse_down(left(0, 0));
    r.handle_mouse_move(left(10_000, 10_000));
    r.handle_mouse_up(left(10_000, 10_000));
    assert_eq!(r.state(), InputState::Idle);
    assert_eq!(r.selection().drag(), None);
    assert!(r.get_selected_troops().is_empty());
}

#[test]
fn modifier_press_during_a_box_abandons_the_box() {
    let mut r = ready(vec![tank(1, 1, 5_000, 5_000)]);
    r.handle_mouse_down(left(0, 0));
    r.handle_mouse_move(left(10_000, 10_000));
    r.handle_mouse_down(alt_left(10_000, 10_000));
    assert_eq!(r.state(), InputState::Panning);
    assert_eq!(r.selection().drag(), None);
    r.handle_mouse_up(left(10_000, 10_000));
    assert_eq!(r.state(), InputState::Idle);
    assert!(r.get_selected_troops().is_empty());
}

#[test]
fn plain_press_during_panning_switches_to_a_box() {
    let mut r = ready(Vec::new());
    r.handle_mouse_down(alt_left(0, 0));
    r.handle_mouse_down(left(3_000, 3_000));
    assert_eq!(r.state(), InputState::BoxSelecting);
    r.handle_mouse_move(left(8_000, 8_000));
    assert_eq!(r.viewport().camera(), xy(0, 0));
    assert_eq!(r.selection().drag(), Some(DragBox { start: xy(3_000, 3_000), end: xy(8_000, 8_000) }));
}

#[test]
fn wheel_zooms_in_every_state() {
    let mut r = ready(Vec::new());
    r.handle_wheel(100);
    assert_eq!(r.viewport().zoom(), 900);
    r.handle_mouse_down(alt_left(0, 0));
    r.handle_wheel(-100);
    assert_eq!(r.viewport().zoom(), 990);
    assert_eq!(r.state(), InputState::Panning);
    r.handle_mouse_down(left(0, 0));
    r.handle_wheel(-100);
    assert_eq!(r.viewport().zoom(), 1_089);
    assert_eq!(r.state(), InputState::BoxSelecting);
}

#[test]
fn pointer_delta_saturates_while_panning() {
    let mut r = ready(Vec::new());
    r.handle_mouse_down(alt_left(i64::MAX, i64::MIN));
    r.handle_mouse_move(alt_left(i64::MIN, i64::MAX));
    assert_eq!(r.viewport().camera(), xy(i64::MAX, i64::MIN + 1));
}
