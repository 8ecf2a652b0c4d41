//! Projection of a snapshot into camera-relative draw instructions.
//!
//! Positions in a draw instruction are screen positions; lengths that
//! belong to a shape (the size of a troop, the length of an arrow) are left
//! to the drawing code, which scales them by the zoom factor.

use vstd::prelude::*;
use crate::fixed::UNIT;
use crate::geometry::Point;
use crate::selection::{DragBox, SelectionEngine};
use crate::snapshot::{Color, DevData, GameState, Projectile, Troop};
use crate::viewport::{Viewport, ViewportModel};

verus! {

/// The distance between two grid lines, `100.0` world units.
pub const GRID_SPACING: i64 = 100_000;

/// The health at which the health bar is full, in whole units.
pub const FULL_HEALTH: i64 = 100;

/// The outline of a troop.
#[derive(Clone, Copy, Debug, PartialEq, Eq, Structural)]
pub enum Shape {
    Circle,
    Square,
    Triangle,
}

/// One thing to draw.
#[derive(Clone, Copy, Debug, PartialEq, Eq)]
pub enum DrawInstruction {
    /// A line of the map grid.
    GridLine { from: Point, to: Point },
    /// The border of the map.
    MapBorder { min: Point, max: Point },
    /// A troop: its health bar is filled to the fraction `health_fill`, and
    /// `selected` asks for the selection ring.
    Troop {
        position: Point,
        color: Color,
        shape: Shape,
        selected: bool,
        health_fill: i64,
        direction: Point,
    },
    /// A projectile, to be drawn as an arrow along `direction`.
    Projectile { position: Point, direction: Point, color: Color },
    /// The drag box in progress.
    SelectionBox { min: Point, max: Point },
    /// The diagnostics overlay.
    Diagnostics {
        fps: i64,
        player_count: usize,
        troop_count: usize,
        camera: Point,
        zoom: i64,
        player_id: Option<u32>,
    },
}

/// The outline that a shape name stands for; a name that is not known
/// stands for a square.
pub open spec fn shape_of(name: Seq<char>) -> Shape {
    if name == "circle"@ {
        Shape::Circle
    } else if name == "triangle"@ {
        Shape::Triangle
    } else {
        Shape::Square
    }
}

/// The fraction of the health bar to fill: `health / 100`, clamped to
/// `[0, 1]`.
pub open spec fn health_fill(health: int) -> int {
    let fraction = health / (FULL_HEALTH as int);
    if fraction < 0 {
        0
    } else if fraction > UNIT {
        UNIT as int
    } else {
        fraction
    }
}

/// The number of grid lines across a map of the given extent: one at `0`
/// and one at every whole multiple of the spacing that the map reaches.
pub open spec fn grid_line_count(extent: int) -> nat {
    if extent <= 0 {
        1
    } else {
        (extent / (GRID_SPACING as int) + 1) as nat
    }
}

/// The `k`-th vertical grid line of a map of size `size`.
pub open spec fn vertical_line(view: ViewportModel, size: Point, k: int) -> DrawInstruction {
    DrawInstruction::GridLine {
        from: view.world_to_screen(Point { x: (k * GRID_SPACING) as i64, y: 0 }),
        to: view.world_to_screen(Point { x: (k * GRID_SPACING) as i64, y: size.y }),
    }
}

/// The `k`-th horizontal grid line of a map of size `size`.
pub open spec fn horizontal_line(view: ViewportModel, size: Point, k: int) -> DrawInstruction {
    DrawInstruction::GridLine {
        from: view.world_to_screen(Point { x: 0, y: (k * GRID_SPACING) as i64 }),
        to: view.world_to_screen(Point { x: size.x, y: (k * GRID_SPACING) as i64 }),
    }
}

/// The first `n` vertical grid lines.
pub open spec fn vertical_lines(view: ViewportModel, size: Point, n: nat) -> Seq<DrawInstruction> {
    Seq::new(n, |k: int| vertical_line(view, size, k))
}

/// The first `n` horizontal grid lines.
pub open spec fn horizontal_lines(view: ViewportModel, size: Point, n: nat) -> Seq<
    DrawInstruction,
> {
    Seq::new(n, |k: int| horizontal_line(view, size, k))
}

/// The border of a map of size `size`.
pub open spec fn map_border(view: ViewportModel, size: Point) -> DrawInstruction {
    DrawInstruction::MapBorder {
        min: view.world_to_screen(Point { x: 0, y: 0 }),
        max: view.world_to_screen(size),
    }
}

/// The grid of a map of size `size`: the vertical lines, the horizontal
/// lines, then the border.
pub open spec fn grid(view: ViewportModel, size: Point) -> Seq<DrawInstruction> {
    vertical_lines(view, size, grid_line_count(size.x as int)) + horizontal_lines(
        view,
        size,
        grid_line_count(size.y as int),
    ) + seq![map_border(view, size)]
}

/// The draw instruction for a troop.
pub open spec fn project_troop(view: ViewportModel, selected: Seq<u32>, troop: Troop) -> DrawInstruction {
    DrawInstruction::Troop {
        position: view.world_to_screen(troop.position),
        color: troop.color,
        shape: shape_of(troop.shape@),
        selected: selected.contains(troop.id),
        health_fill: health_fill(troop.health as int) as i64,
        direction: troop.direction,
    }
}

/// [`project_troop`] as a function on troops.
pub open spec fn troop_projection(view: ViewportModel, selected: Seq<u32>) -> spec_fn(
    Troop,
) -> DrawInstruction {
    |troop: Troop| project_troop(view, selected, troop)
}

/// The draw instruction for a projectile.
pub open spec fn project_projectile(view: ViewportModel, projectile: Projectile) -> DrawInstruction {
    DrawInstruction::Projectile {
        position: view.world_to_screen(projectile.position),
        direction: projectile.direction,
        color: projectile.color,
    }
}

/// [`project_projectile`] as a function on projectiles.
pub open spec fn projectile_projection(view: ViewportModel) -> spec_fn(Projectile) -> DrawInstruction {
    |projectile: Projectile| project_projectile(view, projectile)
}

/// The draw instruction for the drag box in progress, if there is one.
pub open spec fn project_drag(view: ViewportModel, drag: Option<DragBox>) -> Seq<DrawInstruction> {
    match drag {
        Some(area) => seq![
            DrawInstruction::SelectionBox {
                min: view.world_to_screen(area.min_corner()),
                max: view.world_to_screen(area.max_corner()),
            },
        ],
        None => Seq::empty(),
    }
}

/// The diagnostics overlay, if it is switched on and there are diagnostics
/// to show.
pub open spec fn project_diagnostics(
    view: ViewportModel,
    dev_data: Option<DevData>,
    show_dev_tools: bool,
    player_id: Option<u32>,
) -> Seq<DrawInstruction> {
    match dev_data {
        Some(data) if show_dev_tools => seq![
            DrawInstruction::Diagnostics {
                fps: data.fps,
                player_count: data.player_count,
                troop_count: data.troop_count,
                camera: Point { x: view.offset_x as i64, y: view.offset_y as i64 },
                zoom: view.zoom as i64,
                player_id,
            },
        ],
        _ => Seq::empty(),
    }
}

/// Everything to draw for a snapshot, in drawing order: the grid, the
/// troops, the projectiles, the drag box, the diagnostics overlay.
pub open spec fn draw_list(
    view: ViewportModel,
    selected: Seq<u32>,
    drag: Option<DragBox>,
    snapshot: GameState,
    dev_data: Option<DevData>,
    show_dev_tools: bool,
    player_id: Option<u32>,
) -> Seq<DrawInstruction> {
    grid(view, snapshot.map_size) + snapshot.troops@.map_values(troop_projection(view, selected))
        + snapshot.projectiles@.map_values(projectile_projection(view)) + project_drag(view, drag)
        + project_diagnostics(view, dev_data, show_dev_tools, player_id)
}

/// Decides which outline a shape name stands for.
pub fn shape_named(name: &String) -> (shape: Shape)
    ensures
        shape == shape_of(name@),
{
    let circle = "circle".to_owned();
    let triangle = "triangle".to_owned();
    if *name == circle {
        Shape::Circle
    } else if *name == triangle {
        Shape::Triangle
    } else {
        Shape::Square
    }
}

/// Computes the fraction of the health bar to fill.
pub fn health_bar_fill(health: i64) -> (fill: i64)
    ensures
        fill == health_fill(health as int),
{
    if health < 0 {
        0
    } else {
        let fraction = health / FULL_HEALTH;
        if fraction > UNIT {
            UNIT
        } else {
            fraction
        }
    }
}

/// Computes the number of grid lines across a map of the given extent.
fn count_grid_lines(extent: i64) -> (n: i64)
    ensures
        n == grid_line_count(extent as int),
        n >= 1,
        (n - 1) * GRID_SPACING <= i64::MAX,
{
    if extent <= 0 {
        1
    } else {
        extent / GRID_SPACING + 1
    }
}

/// Appends the grid of a map of size `size`.
fn push_grid(out: &mut Vec<DrawInstruction>, viewport: &Viewport, size: Point)
    ensures
        final(out)@ == old(out)@ + grid(viewport@, size),
{
    let ghost before = out@;
    let ghost view = viewport@;
    let columns = count_grid_lines(size.x);
    let rows = count_grid_lines(size.y);
    let mut k: i64 = 0;
    while k < columns
        invariant
            0 <= k <= columns,
            (columns - 1) * GRID_SPACING <= i64::MAX,
            view == viewport@,
            out@ == before + vertical_lines(view, size, k as nat),
        decreases columns - k,
    {
        let x = k * GRID_SPACING;
        let from = viewport.world_to_screen(Point { x, y: 0 });
        let to = viewport.world_to_screen(Point { x, y: size.y });
        out.push(DrawInstruction::GridLine { from, to });
        k += 1;
    }
    let ghost middle = out@;
    let mut k: i64 = 0;
    while k < rows
        invariant
            0 <= k <= rows,
            (rows - 1) * GRID_SPACING <= i64::MAX,
            view == viewport@,
            out@ == middle + horizontal_lines(view, size, k as nat),
        decreases rows - k,
    {
        let y = k * GRID_SPACING;
        let from = viewport.world_to_screen(Point { x: 0, y });
        let to = viewport.world_to_screen(Point { x: size.x, y });
        out.push(DrawInstruction::GridLine { from, to });
        k += 1;
    }
    let min = viewport.world_to_screen(Point { x: 0, y: 0 });
    let max = viewport.world_to_screen(size);
    out.push(DrawInstruction::MapBorder { min, max });
}

/// Appends the draw instructions of the troops, in snapshot order.
fn push_troops(
    out: &mut Vec<DrawInstruction>,
    viewport: &Viewport,
    selection: &SelectionEngine,
    troops: &Vec<Troop>,
)
    ensures
        final(out)@ == old(out)@ + troops@.map_values(
            troop_projection(viewport@, selection@.selected),
        ),
{
    let ghost before = out@;
    let ghost f = troop_projection(viewport@, selection@.selected);
    let mut i: usize = 0;
    while i < troops.len()
        invariant
            i <= troops.len(),
            f == troop_projection(viewport@, selection@.selected),
            out@ == before + troops@.take(i as int).map_values(f),
        decreases troops.len() - i,
    {
        let troop = &troops[i];
        let position = viewport.world_to_screen(troop.position);
        out.push(
            DrawInstruction::Troop {
                position,
                color: troop.color,
                shape: shape_named(&troop.shape),
                selected: selection.is_selected(troop.id),
                health_fill: health_bar_fill(troop.health),
                direction: troop.direction,
            },
        );
        i += 1;
    }
}

/// Appends the draw instructions of the projectiles, in snapshot order.
fn push_projectiles(out: &mut Vec<DrawInstruction>, viewport: &Viewport, projectiles: &Vec<Projectile>)
    ensures
        final(out)@ == old(out)@ + projectiles@.map_values(projectile_projection(viewport@)),
{
    let ghost before = out@;
    let ghost f = projectile_projection(viewport@);
    let mut i: usize = 0;
    while i < projectiles.len()
        invariant
            i <= projectiles.len(),
            f == projectile_projection(viewport@),
            out@ == before + projectiles@.take(i as int).map_values(f),
        decreases projectiles.len() - i,
    {
        let projectile = &projectiles[i];
        let position = viewport.world_to_screen(projectile.position);
        out.push(
            DrawInstruction::Projectile {
                position,
                direction: projectile.direction,
                color: projectile.color,
            },
        );
        i += 1;
    }
}

/// Appends the draw instruction of the drag box in progress, if there is
/// one.
fn push_drag(out: &mut Vec<DrawInstruction>, viewport: &Viewport, drag: Option<DragBox>)
    ensures
        final(out)@ == old(out)@ + project_drag(viewport@, drag),
{
    match drag {
        Some(area) => {
            let (min, max) = area.corners();
            let min = viewport.world_to_screen(min);
            let max = viewport.world_to_screen(max);
            out.push(DrawInstruction::SelectionBox { min, max });
        },
        None => {},
    }
}

/// Appends the diagnostics overlay, if it is switched on and there are
/// diagnostics to show.
fn push_diagnostics(
    out: &mut Vec<DrawInstruction>,
    viewport: &Viewport,
    dev_data: &Option<DevData>,
    show_dev_tools: bool,
    player_id: Option<u32>,
)
    ensures
        final(out)@ == old(out)@ + project_diagnostics(
            viewport@,
            *dev_data,
            show_dev_tools,
            player_id,
        ),
{
    if show_dev_tools {
        match dev_data {
            Some(data) => {
                let camera = viewport.camera();
                let zoom = viewport.zoom();
                out.push(
                    DrawInstruction::Diagnostics {
                        fps: data.fps,
                        player_count: data.player_count,
                        troop_count: data.troop_count,
                        camera,
                        zoom,
                        player_id,
                    },
                );
            },
            None => {},
        }
    }
}

/// Projects a snapshot through the viewport into draw instructions, in
/// drawing order.
pub fn project_scene(
    viewport: &Viewport,
    selection: &SelectionEngine,
    snapshot: &GameState,
    dev_data: &Option<DevData>,
    show_dev_tools: bool,
    player_id: Option<u32>,
) -> (out: Vec<DrawInstruction>)
    ensures
        out@ == draw_list(
            viewport@,
            selection@.selected,
            selection@.drag,
            *snapshot,
            *dev_data,
            show_dev_tools,
            player_id,
        ),
{
    let mut out: Vec<DrawInstruction> = Vec::new();
    push_grid(&mut out, viewport, snapshot.map_size);
    push_troops(&mut out, viewport, selection, &snapshot.troops);
    push_projectiles(&mut out, viewport, &snapshot.projectiles);
    push_drag(&mut out, viewport, selection.drag());
    push_diagnostics(&mut out, viewport, dev_data, show_dev_tools, player_id);
    out
}

} // verus!
