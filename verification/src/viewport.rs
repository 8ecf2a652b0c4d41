//! The camera: an offset into world space and a zoom factor.

use vstd::prelude::*;
use crate::fixed::{ratio, saturate, saturating, scaled, scaled_difference, UNIT};
use crate::geometry::Point;

verus! {

/// The smallest zoom factor, `0.2`.
pub const ZOOM_MIN: i64 = 200;

/// The largest zoom factor, `5.0`.
pub const ZOOM_MAX: i64 = 5000;

/// The factor applied when the wheel scrolls down, `0.9`.
pub const ZOOM_OUT_FACTOR: i64 = 900;

/// The factor applied when the wheel scrolls up or not at all, `1.1`.
pub const ZOOM_IN_FACTOR: i64 = 1100;

/// The world coordinate shown at a screen coordinate: `screen / zoom + offset`.
pub open spec fn to_world(screen: int, offset: int, zoom: int) -> int {
    saturate(ratio(screen, UNIT as int, zoom) + offset)
}

/// The screen coordinate at which a world coordinate is shown:
/// `(world - offset) * zoom`.
pub open spec fn to_screen(world: int, offset: int, zoom: int) -> int {
    saturate(ratio(world - offset, zoom, UNIT as int))
}

/// The camera offset after the pointer dragged the view by `delta` screen
/// units: `offset - delta / zoom`.
pub open spec fn panned(offset: int, delta: int, zoom: int) -> int {
    saturate(offset - ratio(delta, UNIT as int, zoom))
}

/// The zoom factor after one wheel event: scaled by `0.9` for a positive
/// wheel delta and by `1.1` otherwise, then clamped.
pub open spec fn zoom_step(zoom: int, wheel_delta: int) -> int {
    let factor = if wheel_delta > 0 {
        ZOOM_OUT_FACTOR as int
    } else {
        ZOOM_IN_FACTOR as int
    };
    let scaled = ratio(zoom, factor, UNIT as int);
    if scaled < ZOOM_MIN {
        ZOOM_MIN as int
    } else if scaled > ZOOM_MAX {
        ZOOM_MAX as int
    } else {
        scaled
    }
}

/// The zoom factor after a run of wheel events, oldest first.
pub open spec fn zoom_after(zoom: int, wheel_deltas: Seq<int>) -> int
    decreases wheel_deltas.len(),
{
    if wheel_deltas.len() == 0 {
        zoom
    } else {
        zoom_step(zoom_after(zoom, wheel_deltas.drop_last()), wheel_deltas.last())
    }
}

/// One wheel event leaves the zoom factor in `[ZOOM_MIN, ZOOM_MAX]`,
/// whatever it was before and whatever the wheel delta is.
pub proof fn lemma_zoom_step_in_range(zoom: int, wheel_delta: int)
    ensures
        ZOOM_MIN <= zoom_step(zoom, wheel_delta) <= ZOOM_MAX,
{
}

/// A zoom factor in `[ZOOM_MIN, ZOOM_MAX]` stays in that range over any run
/// of wheel events.
pub proof fn lemma_zoom_stays_in_range(zoom: int, wheel_deltas: Seq<int>)
    requires
        ZOOM_MIN <= zoom <= ZOOM_MAX,
    ensures
        ZOOM_MIN <= zoom_after(zoom, wheel_deltas) <= ZOOM_MAX,
    decreases wheel_deltas.len(),
{
    if wheel_deltas.len() > 0 {
        lemma_zoom_stays_in_range(zoom, wheel_deltas.drop_last());
    }
}

/// Scaling by `a / b` and back by `b / a` never overshoots and loses less
/// than `1 + b / a`.
pub proof fn lemma_ratio_round_trip(v: int, a: int, b: int)
    requires
        a > 0,
        b > 0,
    ensures
        ratio(ratio(v, a, b), b, a) <= v,
        (v - ratio(ratio(v, a, b), b, a)) * a < a + b,
{
    let s = (v * a) / b;
    let back = (s * b) / a;
    assert(s * b <= v * a < s * b + b) by (nonlinear_arith)
        requires
            b > 0,
            s == (v * a) / b,
    ;
    assert(back * a <= s * b < back * a + a) by (nonlinear_arith)
        requires
            a > 0,
            back == (s * b) / a,
    ;
    assert(back <= v && (v - back) * a < a + b) by (nonlinear_arith)
        requires
            a > 0,
            back * a <= s * b,
            s * b <= v * a,
            v * a < s * b + b,
            s * b < back * a + a,
    ;
}

/// The largest rounding error of a conversion to the other space and back,
/// in fixed-point units.
pub const ROUND_TRIP_TOLERANCE: i64 = 5;

/// A world coordinate that is converted to the screen and back comes out
/// at most `ROUND_TRIP_TOLERANCE` below where it went in, and never above,
/// provided that its screen coordinate is representable.
pub proof fn lemma_world_round_trip(world: int, offset: int, zoom: int)
    requires
        ZOOM_MIN <= zoom <= ZOOM_MAX,
        i64::MIN <= world <= i64::MAX,
        i64::MIN <= ratio(world - offset, zoom, UNIT as int) <= i64::MAX,
    ensures
        0 <= world - to_world(to_screen(world, offset, zoom), offset, zoom) <= ROUND_TRIP_TOLERANCE,
{
    lemma_ratio_round_trip(world - offset, zoom, UNIT as int);
    let back = ratio(ratio(world - offset, zoom, UNIT as int), UNIT as int, zoom);
    assert(world - offset - back <= 5) by (nonlinear_arith)
        requires
            200 <= zoom,
            (world - offset - back) * zoom < zoom + 1000,
    ;
}

/// A screen coordinate that is converted to the world and back comes out
/// at most `ROUND_TRIP_TOLERANCE` below where it went in, and never above,
/// provided that its world coordinate is representable.
pub proof fn lemma_screen_round_trip(screen: int, offset: int, zoom: int)
    requires
        ZOOM_MIN <= zoom <= ZOOM_MAX,
        i64::MIN <= screen <= i64::MAX,
        i64::MIN <= ratio(screen, UNIT as int, zoom) + offset <= i64::MAX,
    ensures
        0 <= screen - to_screen(to_world(screen, offset, zoom), offset, zoom) <= ROUND_TRIP_TOLERANCE,
{
    lemma_ratio_round_trip(screen, UNIT as int, zoom);
    let back = ratio(ratio(screen, UNIT as int, zoom), zoom, UNIT as int);
}

/// The mathematical state of a [`Viewport`].
pub struct ViewportModel {
    pub offset_x: int,
    pub offset_y: int,
    pub zoom: int,
}

impl ViewportModel {
    /// The zoom lies in its range and the offset is representable.
    pub open spec fn wf(self) -> bool {
        &&& ZOOM_MIN <= self.zoom <= ZOOM_MAX
        &&& i64::MIN <= self.offset_x <= i64::MAX
        &&& i64::MIN <= self.offset_y <= i64::MAX
    }

    /// The world position shown at the screen position `p`.
    pub open spec fn screen_to_world(self, p: Point) -> Point {
        Point {
            x: to_world(p.x as int, self.offset_x, self.zoom) as i64,
            y: to_world(p.y as int, self.offset_y, self.zoom) as i64,
        }
    }

    /// The screen position at which the world position `p` is shown.
    pub open spec fn world_to_screen(self, p: Point) -> Point {
        Point {
            x: to_screen(p.x as int, self.offset_x, self.zoom) as i64,
            y: to_screen(p.y as int, self.offset_y, self.zoom) as i64,
        }
    }

    /// The viewport after the pointer dragged the view by `(dx, dy)` screen
    /// units.
    pub open spec fn pan_by(self, dx: int, dy: int) -> ViewportModel {
        ViewportModel {
            offset_x: panned(self.offset_x, dx, self.zoom),
            offset_y: panned(self.offset_y, dy, self.zoom),
            zoom: self.zoom,
        }
    }

    /// The viewport after one wheel event.
    pub open spec fn zoom_by(self, wheel_delta: int) -> ViewportModel {
        ViewportModel { zoom: zoom_step(self.zoom, wheel_delta), ..self }
    }

    /// Neither coordinate of the world point `p` saturates on its way to
    /// the screen.
    pub open spec fn shows(self, p: Point) -> bool {
        &&& i64::MIN <= ratio(p.x - self.offset_x, self.zoom, UNIT as int) <= i64::MAX
        &&& i64::MIN <= ratio(p.y - self.offset_y, self.zoom, UNIT as int) <= i64::MAX
    }
}

/// With a fixed viewport, a world point that is converted to the screen
/// and back comes out within `ROUND_TRIP_TOLERANCE` of where it went in on
/// both axes, provided that the viewport can show it.
pub proof fn lemma_point_round_trip(view: ViewportModel, p: Point)
    requires
        view.wf(),
        view.shows(p),
    ensures
        0 <= p.x - view.screen_to_world(view.world_to_screen(p)).x <= ROUND_TRIP_TOLERANCE,
        0 <= p.y - view.screen_to_world(view.world_to_screen(p)).y <= ROUND_TRIP_TOLERANCE,
{
    lemma_world_round_trip(p.x as int, view.offset_x, view.zoom);
    lemma_world_round_trip(p.y as int, view.offset_y, view.zoom);
}

/// Camera offset and zoom. The zoom always lies in
/// `[ZOOM_MIN, ZOOM_MAX]`.
pub struct Viewport {
    camera_x: i64,
    camera_y: i64,
    zoom: i64,
}

impl View for Viewport {
    type V = ViewportModel;

    closed spec fn view(&self) -> ViewportModel {
        ViewportModel {
            offset_x: self.camera_x as int,
            offset_y: self.camera_y as int,
            zoom: self.zoom as int,
        }
    }
}

impl Viewport {
    #[verifier::type_invariant]
    spec fn zoom_in_range(self) -> bool {
        ZOOM_MIN <= self.zoom <= ZOOM_MAX
    }

    /// A camera at the world origin with zoom `1.0`.
    pub fn new() -> (v: Viewport)
        ensures
            v@ == (ViewportModel { offset_x: 0, offset_y: 0, zoom: UNIT as int }),
            v@.wf(),
    {
        Viewport { camera_x: 0, camera_y: 0, zoom: UNIT }
    }

    /// The world position shown at the screen origin.
    pub fn camera(&self) -> (p: Point)
        ensures
            p.x == self@.offset_x,
            p.y == self@.offset_y,
            self@.wf(),
    {
        proof {
            use_type_invariant(self);
        }
        Point { x: self.camera_x, y: self.camera_y }
    }

    /// The zoom factor.
    pub fn zoom(&self) -> (z: i64)
        ensures
            z == self@.zoom,
            self@.wf(),
    {
        proof {
            use_type_invariant(self);
        }
        self.zoom
    }

    /// Moves the camera against a pointer movement of `(dx, dy)` screen
    /// units.
    pub fn pan_by(&mut self, dx: i64, dy: i64)
        ensures
            final(self)@ == old(self)@.pan_by(dx as int, dy as int),
            final(self)@.wf(),
    {
        proof {
            use_type_invariant(&*self);
        }
        let step_x = scaled(dx, UNIT, self.zoom);
        let step_y = scaled(dy, UNIT, self.zoom);
        self.camera_x = saturating(self.camera_x as i128 - step_x);
        self.camera_y = saturating(self.camera_y as i128 - step_y);
    }

    /// Applies one wheel event to the zoom factor.
    pub fn zoom_by(&mut self, wheel_delta_y: i64)
        ensures
            final(self)@ == old(self)@.zoom_by(wheel_delta_y as int),
            final(self)@.wf(),
    {
        proof {
            use_type_invariant(&*self);
        }
        let factor = if wheel_delta_y > 0 {
            ZOOM_OUT_FACTOR
        } else {
            ZOOM_IN_FACTOR
        };
        let next = scaled(self.zoom, factor, UNIT);
        if next < ZOOM_MIN as i128 {
            self.zoom = ZOOM_MIN;
        } else if next > ZOOM_MAX as i128 {
            self.zoom = ZOOM_MAX;
        } else {
            self.zoom = next as i64;
        }
    }

    /// The world position shown at a screen position.
    pub fn screen_to_world(&self, p: Point) -> (w: Point)
        ensures
            w == self@.screen_to_world(p),
    {
        proof {
            use_type_invariant(self);
        }
        Point {
            x: saturating(scaled(p.x, UNIT, self.zoom) + self.camera_x as i128),
            y: saturating(scaled(p.y, UNIT, self.zoom) + self.camera_y as i128),
        }
    }

    /// The screen position at which a world position is shown.
    pub fn world_to_screen(&self, p: Point) -> (s: Point)
        ensures
            s == self@.world_to_screen(p),
    {
        proof {
            use_type_invariant(self);
        }
        Point {
            x: saturating(scaled_difference(p.x, self.camera_x, self.zoom, UNIT)),
            y: saturating(scaled_difference(p.y, self.camera_y, self.zoom, UNIT)),
        }
    }
}

} // verus!
