//! Points of the viewport, in fixed-point coordinates.

use vstd::prelude::*;

verus! {

/// Number of coordinate units in one pixel.
pub const UNITS_PER_PIXEL: i64 = 256;

/// A position or a displacement as the contracts see it: a pair of
/// mathematical integers, in coordinate units.
pub struct Vector {
    pub x: int,
    pub y: int,
}

/// A position or a displacement in viewport space, in coordinate units
/// (1/256 of a pixel).
#[derive(Clone, Copy, Debug, PartialEq, Eq, Structural)]
pub struct Point {
    pub x: i64,
    pub y: i64,
}

impl View for Point {
    type V = Vector;

    open spec fn view(&self) -> Vector {
        Vector { x: self.x as int, y: self.y as int }
    }
}

/// The view of an optional point.
pub open spec fn view_of(p: Option<Point>) -> Option<Vector> {
    match p {
        Some(q) => Some(q@),
        None => None,
    }
}

/// `v` limited to the interval from `lo` to `hi`.
pub open spec fn clamp(v: int, lo: int, hi: int) -> int {
    if v < lo {
        lo
    } else if v > hi {
        hi
    } else {
        v
    }
}

} // verus!
