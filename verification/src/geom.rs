//! Rectangle containment, the one hit-test rule shared by every widget.

use vstd::prelude::*;

verus! {

/// A point (x, y) lies in the half-open rectangle [x1, x2) x [y1, y2).
pub open spec fn in_rect(x: int, y: int, x1: int, y1: int, x2: int, y2: int) -> bool {
    x1 <= x < x2 && y1 <= y < y2
}

/// Hit test against a half-open rectangle [x1, x2) x [y1, y2).
pub fn point_in_rect(
    x: i32,
    y: i32,
    coord_x1: i32,
    coord_y1: i32,
    coord_x2: i32,
    coord_y2: i32,
) -> (r: bool)
    ensures
        r == in_rect(
            x as int,
            y as int,
            coord_x1 as int,
            coord_y1 as int,
            coord_x2 as int,
            coord_y2 as int,
        ),
{
    (coord_x1 <= x && x < coord_x2) && (coord_y1 <= y && y < coord_y2)
}

} // verus!
