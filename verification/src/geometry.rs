//! Points and axis-aligned rectangles in fixed-point coordinates.

use vstd::prelude::*;

verus! {

/// A position or a displacement, in world or in screen space.
#[derive(Clone, Copy, Debug, PartialEq, Eq, Structural)]
pub struct Point {
    pub x: i64,
    pub y: i64,
}

} // verus!
