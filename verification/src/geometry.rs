//! Screen-space points and normalized selection rectangles.

use vstd::prelude::*;

verus! {

/// A position on the screen in device pixels.
#[derive(Clone, Copy, Debug, PartialEq, Eq, Structural)]
pub struct Point {
    pub x: usize,
    pub y: usize,
}

/// A selection rectangle, normalized so that `x_min`/`y_min` is its top-left
/// corner and `width`/`height` are non-negative extents.
#[derive(Clone, Copy, Debug, PartialEq, Eq, Structural)]
pub struct Rect {
    pub x_min: usize,
    pub y_min: usize,
    pub width: usize,
    pub height: usize,
}

/// The rectangle spanned by two corner points, in normalized form: the
/// smaller coordinate on each axis becomes the minimum, and the extent is the
/// absolute difference of the coordinates.
pub open spec fn spec_normalized_rect(start: Point, end: Point) -> Rect {
    Rect {
        x_min: if start.x <= end.x { start.x } else { end.x },
        y_min: if start.y <= end.y { start.y } else { end.y },
        width: if start.x <= end.x {
            (end.x - start.x) as usize
        } else {
            (start.x - end.x) as usize
        },
        height: if start.y <= end.y {
            (end.y - start.y) as usize
        } else {
            (start.y - end.y) as usize
        },
    }
}

/// Normalize the two corners of a dragged selection into a rectangle.
pub fn normalized_rect(start: Point, end: Point) -> (r: Rect)
    ensures
        r == spec_normalized_rect(start, end),
{
    let x_min = if start.x <= end.x { start.x } else { end.x };
    let x_max = if start.x <= end.x { end.x } else { start.x };
    let y_min = if start.y <= end.y { start.y } else { end.y };
    let y_max = if start.y <= end.y { end.y } else { start.y };
    Rect { x_min, y_min, width: x_max - x_min, height: y_max - y_min }
}

} // verus!
