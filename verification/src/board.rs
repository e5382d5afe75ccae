use vstd::prelude::*;

verus! {

/// Number of columns on the playing field; the x axis wraps at this bound.
pub const BOARD_WIDTH: i32 = 80;

/// Number of rows on the playing field; the y axis wraps at this bound.
pub const BOARD_HEIGHT: i32 = 20;

/// Wraparound of one coordinate. A value past `bound` comes back at 0 and a
/// value below 0 comes back at `bound` itself, not at `bound - 1`: the wrap is
/// deliberately asymmetric, landing exactly on the opposite edge.
pub open spec fn wrap_coord(v: int, bound: int) -> int {
    if v > bound {
        0
    } else if v < 0 {
        bound
    } else {
        v
    }
}

} // verus!
