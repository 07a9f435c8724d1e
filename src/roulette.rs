use vstd::prelude::*;

verus! {

/// The cell is on the outer ring of the 5×5 grid.
pub open spec fn on_ring(x: usize, y: usize) -> bool {
    x <= 4 && y <= 4 && (x == 0 || x == 4 || y == 0 || y == 4)
}

/// The cell after `(x, y)` on a clockwise walk round the outer ring of the
/// 5×5 grid: right along the top row, down the right column, left along the
/// bottom row and up the left column. An inner cell leads back to the
/// top-left corner.
pub fn next_xy(x: usize, y: usize) -> (r: (usize, usize))
    requires
        x <= 4,
        y <= 4,
    ensures
        y == 0 && x < 4 ==> r.0 == x + 1 && r.1 == y,
        x == 4 && y < 4 ==> r.0 == x && r.1 == y + 1,
        y == 4 && x > 0 ==> r.0 == x - 1 && r.1 == y,
        x == 0 && y > 0 ==> r.0 == x && r.1 == y - 1,
        !on_ring(x, y) ==> r == (0usize, 0usize),
        on_ring(r.0, r.1),
{
    if y == 0 {
        if x < 4 {
            (x + 1, y)
        } else {
            (x, y + 1)
        }
    } else if x == 4 {
        if y < 4 {
            (x, y + 1)
        } else {
            (x - 1, y)
        }
    } else if y == 4 {
        if x > 0 {
            (x - 1, y)
        } else {
            (x, y - 1)
        }
    } else if x == 0 {
        (x, y - 1)
    } else {
        (0, 0)
    }
}

} // verus!
