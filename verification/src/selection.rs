//! Rectangular drag selection of the local player's troops.

use vstd::prelude::*;
use crate::geometry::Point;
use crate::snapshot::{GameState, Troop};

verus! {

/// A drag whose box covers no more than this area (`25.0` square world
/// units) is an accidental click and selects nothing.
pub const MIN_SELECTION_AREA: i64 = 25_000_000;

/// The two corners of a drag, in world space: where it began and where the
/// pointer is now.
#[derive(Clone, Copy, Debug, PartialEq, Eq, Structural)]
pub struct DragBox {
    pub start: Point,
    pub end: Point,
}

impl DragBox {
    /// The left border.
    pub open spec fn min_x(self) -> int {
        if self.start.x <= self.end.x {
            self.start.x as int
        } else {
            self.end.x as int
        }
    }

    /// The right border.
    pub open spec fn max_x(self) -> int {
        if self.start.x <= self.end.x {
            self.end.x as int
        } else {
            self.start.x as int
        }
    }

    /// The border with the smaller `y`.
    pub open spec fn min_y(self) -> int {
        if self.start.y <= self.end.y {
            self.start.y as int
        } else {
            self.end.y as int
        }
    }

    /// The border with the larger `y`.
    pub open spec fn max_y(self) -> int {
        if self.start.y <= self.end.y {
            self.end.y as int
        } else {
            self.start.y as int
        }
    }

    /// The corner with the smaller coordinates.
    pub open spec fn min_corner(self) -> Point {
        Point { x: self.min_x() as i64, y: self.min_y() as i64 }
    }

    /// The corner with the larger coordinates.
    pub open spec fn max_corner(self) -> Point {
        Point { x: self.max_x() as i64, y: self.max_y() as i64 }
    }

    /// The area of the box, in square fixed-point units.
    pub open spec fn area(self) -> int {
        (self.max_x() - self.min_x()) * (self.max_y() - self.min_y())
    }

    /// The box is too small to be a deliberate selection.
    pub open spec fn accidental(self) -> bool {
        self.area() <= MIN_SELECTION_AREA
    }

    /// `p` lies in the box, borders included.
    pub open spec fn contains(self, p: Point) -> bool {
        &&& self.min_x() <= p.x <= self.max_x()
        &&& self.min_y() <= p.y <= self.max_y()
    }

    /// Computes the corner with the smaller and the corner with the larger
    /// coordinates.
    pub fn corners(&self) -> (c: (Point, Point))
        ensures
            c.0 == self.min_corner(),
            c.1 == self.max_corner(),
    {
        let (min_x, max_x) = if self.start.x <= self.end.x {
            (self.start.x, self.end.x)
        } else {
            (self.end.x, self.start.x)
        };
        let (min_y, max_y) = if self.start.y <= self.end.y {
            (self.start.y, self.end.y)
        } else {
            (self.end.y, self.start.y)
        };
        (Point { x: min_x, y: min_y }, Point { x: max_x, y: max_y })
    }

    /// Decides whether the box is too small to be a deliberate selection.
    pub fn is_accidental(&self) -> (small: bool)
        ensures
            small == self.accidental(),
    {
        let (min, max) = self.corners();
        let width: u128 = (max.x as i128 - min.x as i128) as u128;
        let height: u128 = (max.y as i128 - min.y as i128) as u128;
        assert(width * height <= 0xffff_ffff_ffff_ffff * 0xffff_ffff_ffff_ffff) by (nonlinear_arith)
            requires
                width <= 0xffff_ffff_ffff_ffff,
                height <= 0xffff_ffff_ffff_ffff,
        ;
        width * height <= MIN_SELECTION_AREA as u128
    }

    /// Decides whether `p` lies in the box, borders included.
    pub fn includes(&self, p: Point) -> (inside: bool)
        ensures
            inside == self.contains(p),
    {
        let (min, max) = self.corners();
        min.x <= p.x && p.x <= max.x && min.y <= p.y && p.y <= max.y
    }
}

/// `a` and `b` are less than `radius` apart (Euclidean distance).
pub open spec fn within_radius(a: Point, b: Point, radius: int) -> bool {
    &&& radius > 0
    &&& (a.x - b.x) * (a.x - b.x) + (a.y - b.y) * (a.y - b.y) < radius * radius
}

/// Decides whether `a` and `b` are less than `radius` apart.
pub fn is_within_radius(a: Point, b: Point, radius: i64) -> (near: bool)
    ensures
        near == within_radius(a, b, radius as int),
{
    if radius <= 0 {
        return false;
    }
    let dx: i128 = a.x as i128 - b.x as i128;
    let dy: i128 = a.y as i128 - b.y as i128;
    let r: i128 = radius as i128;
    if dx >= r || dx <= -r || dy >= r || dy <= -r {
        assert(dx * dx + dy * dy >= r * r) by (nonlinear_arith)
            requires
                r > 0,
                dx >= r || dx <= -r || dy >= r || dy <= -r,
        ;
        return false;
    }
    assert(0 <= dx * dx < r * r && 0 <= dy * dy < r * r && r * r
        <= 0x4000_0000_0000_0000_0000_0000_0000_0000) by (nonlinear_arith)
        requires
            0 < r <= 0x8000_0000_0000_0000,
            -r < dx < r,
            -r < dy < r,
    ;
    dx * dx + dy * dy < r * r
}

/// A troop that a box selection by `owner` over `area` picks.
pub open spec fn selectable(troop: Troop, owner: u32, area: DragBox) -> bool {
    troop.player_id == owner && area.contains(troop.position)
}

/// [`selectable`] as a predicate on troops.
pub open spec fn selectable_in(owner: u32, area: DragBox) -> spec_fn(Troop) -> bool {
    |troop: Troop| selectable(troop, owner, area)
}

/// The id of a troop.
pub open spec fn troop_id() -> spec_fn(Troop) -> u32 {
    |troop: Troop| troop.id
}

/// The ids of the troops of `owner` inside `area`, in snapshot order.
pub open spec fn box_selection(troops: Seq<Troop>, owner: u32, area: DragBox) -> Seq<u32> {
    troops.filter(selectable_in(owner, area)).map_values(troop_id())
}

/// Some troop whose id is in `selected` is less than `radius` away from `p`.
pub open spec fn hits_selected(selected: Seq<u32>, troops: Seq<Troop>, p: Point, radius: int) -> bool {
    exists|i: int|
        #![trigger troops[i]]
        0 <= i < troops.len() && selected.contains(troops[i].id) && within_radius(
            troops[i].position,
            p,
            radius,
        )
}

/// The mathematical state of a [`SelectionEngine`].
pub struct SelectionModel {
    pub drag: Option<DragBox>,
    pub selected: Seq<u32>,
}

impl SelectionModel {
    /// A drag starts at `p`: both corners of its box are `p`.
    pub open spec fn begin_drag(self, p: Point) -> SelectionModel {
        SelectionModel { drag: Some(DragBox { start: p, end: p }), ..self }
    }

    /// The free corner of the drag box moves to `p`; without a drag,
    /// nothing changes.
    pub open spec fn update_drag(self, p: Point) -> SelectionModel {
        match self.drag {
            Some(area) => SelectionModel {
                drag: Some(DragBox { start: area.start, end: p }),
                ..self
            },
            None => self,
        }
    }

    /// The drag ends and the selection stays.
    pub open spec fn cancel_drag(self) -> SelectionModel {
        SelectionModel { drag: None, ..self }
    }

    /// The drag ends. A deliberate box replaces the selection by the troops
    /// of `owner` inside it; an accidental box, or none, leaves the selection
    /// as it is.
    pub open spec fn commit_drag(self, owner: u32, troops: Seq<Troop>) -> SelectionModel {
        SelectionModel {
            drag: None,
            selected: match self.drag {
                Some(area) if !area.accidental() => box_selection(troops, owner, area),
                _ => self.selected,
            },
        }
    }

    /// Nothing is selected any more; a drag in progress goes on.
    pub open spec fn clear(self) -> SelectionModel {
        SelectionModel { selected: Seq::empty(), ..self }
    }
}

/// Every id that a box selection yields belongs to a troop of the snapshot
/// that `owner` owns and that lies inside the box.
pub proof fn lemma_box_selection_is_owned(troops: Seq<Troop>, owner: u32, area: DragBox, k: int)
    requires
        0 <= k < box_selection(troops, owner, area).len(),
    ensures
        exists|j: int|
            #![trigger troops[j]]
            0 <= j < troops.len() && troops[j].id == box_selection(troops, owner, area)[k]
                && troops[j].player_id == owner && area.contains(troops[j].position),
{
    let picked = troops.filter(selectable_in(owner, area));
    broadcast use Seq::lemma_filter_pred;
    troops.lemma_filter_contains_rev(selectable_in(owner, area), picked[k]);
    let j = choose|j: int| 0 <= j < troops.len() && troops[j] == picked[k];
    assert(troops[j].id == box_selection(troops, owner, area)[k]);
}

/// Committing an accidental drag selects nothing: the selection stays as it
/// was, whatever troops lie inside the box.
pub proof fn lemma_accidental_drag_selects_nothing(
    state: SelectionModel,
    owner: u32,
    troops: Seq<Troop>,
)
    requires
        state.drag is Some,
        state.drag->0.accidental(),
    ensures
        state.commit_drag(owner, troops).selected == state.selected,
        state.commit_drag(owner, troops).drag is None,
{
}

/// The drag box in progress and the ids of the selected troops.
pub struct SelectionEngine {
    drag: Option<DragBox>,
    selected: Vec<u32>,
}

impl View for SelectionEngine {
    type V = SelectionModel;

    closed spec fn view(&self) -> SelectionModel {
        SelectionModel { drag: self.drag, selected: self.selected@ }
    }
}

/// Decides whether `id` occurs in `ids`.
fn contains_id(ids: &Vec<u32>, id: u32) -> (found: bool)
    ensures
        found == ids@.contains(id),
{
    let mut i: usize = 0;
    while i < ids.len()
        invariant
            i <= ids.len(),
            forall|j: int| 0 <= j < i ==> ids@[j] != id,
        decreases ids.len() - i,
    {
        if ids[i] == id {
            return true;
        }
        i += 1;
    }
    false
}

impl SelectionEngine {
    /// No drag in progress and nothing selected.
    pub fn new() -> (s: SelectionEngine)
        ensures
            s@ == (SelectionModel { drag: None, selected: Seq::empty() }),
    {
        SelectionEngine { drag: None, selected: Vec::new() }
    }

    /// The drag box in progress, if any.
    pub fn drag(&self) -> (d: Option<DragBox>)
        ensures
            d == self@.drag,
    {
        self.drag
    }

    /// The ids of the selected troops, in selection order.
    pub fn selected(&self) -> (ids: &Vec<u32>)
        ensures
            ids@ == self@.selected,
    {
        &self.selected
    }

    /// Decides whether the troop `id` is selected.
    pub fn is_selected(&self, id: u32) -> (found: bool)
        ensures
            found == self@.selected.contains(id),
    {
        contains_id(&self.selected, id)
    }

    /// Starts a drag at `p`.
    pub fn begin_drag(&mut self, p: Point)
        ensures
            final(self)@ == old(self)@.begin_drag(p),
    {
        self.drag = Some(DragBox { start: p, end: p });
    }

    /// Moves the free corner of the drag in progress to `p`; does nothing
    /// when no drag is in progress.
    pub fn update_drag(&mut self, p: Point)
        ensures
            final(self)@ == old(self)@.update_drag(p),
    {
        match self.drag {
            Some(area) => {
                self.drag = Some(DragBox { start: area.start, end: p });
            },
            None => {},
        }
    }

    /// Ends the drag in progress without selecting.
    pub fn cancel_drag(&mut self)
        ensures
            final(self)@ == old(self)@.cancel_drag(),
    {
        self.drag = None;
    }

    /// Ends the drag in progress. Unless its box is accidental, the
    /// selection becomes the troops of `owner` inside the box.
    pub fn commit_drag(&mut self, owner: u32, snapshot: &GameState)
        ensures
            final(self)@ == old(self)@.commit_drag(owner, snapshot.troops@),
    {
        match self.drag {
            Some(area) => {
                if !area.is_accidental() {
                    let ghost troops = snapshot.troops@;
                    let ghost pred = selectable_in(owner, area);
                    let mut picked: Vec<u32> = Vec::new();
                    let mut i: usize = 0;
                    while i < snapshot.troops.len()
                        invariant
                            i <= snapshot.troops.len(),
                            troops == snapshot.troops@,
                            pred == selectable_in(owner, area),
                            picked@ == box_selection(troops.take(i as int), owner, area),
                        decreases snapshot.troops.len() - i,
                    {
                        let troop = &snapshot.troops[i];
                        proof {
                            assert(troops.take(i + 1) =~= troops.take(i as int).push(troops[i as int]));
                            troops.take(i as int).lemma_filter_push(troops[i as int], pred);
                        }
                        if troop.player_id == owner && area.includes(troop.position) {
                            picked.push(troop.id);
                        }
                        i += 1;
                    }
                    assert(troops.take(i as int) =~= troops);
                    self.selected = picked;
                }
            },
            None => {},
        }
        self.drag = None;
    }

    /// Decides whether some selected troop of the snapshot is less than
    /// `radius` away from `p`.
    pub fn hit_test_selected(&self, p: Point, snapshot: &GameState, radius: i64) -> (hit: bool)
        ensures
            hit == hits_selected(self@.selected, snapshot.troops@, p, radius as int),
    {
        let mut i: usize = 0;
        while i < snapshot.troops.len()
            invariant
                i <= snapshot.troops.len(),
                forall|j: int|
                    #![trigger snapshot.troops@[j]]
                    0 <= j < i ==> !(self.selected@.contains(snapshot.troops@[j].id) && within_radius(
                        snapshot.troops@[j].position,
                        p,
                        radius as int,
                    )),
            decreases snapshot.troops.len() - i,
        {
            let troop = &snapshot.troops[i];
            if contains_id(&self.selected, troop.id) && is_within_radius(troop.position, p, radius) {
                return true;
            }
            i += 1;
        }
        false
    }

    /// Deselects everything; a drag in progress goes on.
    pub fn clear(&mut self)
        ensures
            final(self)@ == old(self)@.clear(),
    {
        self.selected.clear();
    }
}

} // verus!
