//! Occupancy of the playfield: which cells the snake's body covers and
//! which are free for the ball.

use vstd::prelude::*;
use crate::geometry::Coordinates;
use crate::geometry::HEIGHT;
use crate::geometry::WIDTH;
use crate::geometry::in_grid;

verus! {

/// Position of a cell in row-major order: row by row from the bottom,
/// left to right within a row.
pub open spec fn rank(c: Coordinates) -> int {
    c.y * (WIDTH + 1) + c.x
}

/// A cell of the playfield that no body segment covers.
pub open spec fn cell_free(body: Seq<Coordinates>, c: Coordinates) -> bool {
    in_grid(c) && !body.contains(c)
}

/// Some cell of the playfield is free of the body.
pub open spec fn has_free_cell(body: Seq<Coordinates>) -> bool {
    exists|c: Coordinates| cell_free(body, c)
}

/// Whether some body segment covers the cell.
pub fn body_contains(body: &Vec<Coordinates>, c: Coordinates) -> (r: bool)
    ensures
        r == body@.contains(c),
{
    let mut i: usize = 0;
    while i < body.len()
        invariant
            0 <= i <= body@.len(),
            forall|j: int| 0 <= j < i ==> body@[j] != c,
        decreases body@.len() - i,
    {
        if body[i] == c {
            return true;
        }
        i = i + 1;
    }
    false
}

/// All cells of the playfield that no body segment covers, each exactly
/// once, in row-major order.
pub fn empty_coordinates(body: &Vec<Coordinates>) -> (free: Vec<Coordinates>)
    ensures
        forall|i: int| 0 <= i < free@.len() ==> cell_free(body@, #[trigger] free@[i]),
        forall|c: Coordinates| cell_free(body@, c) ==> free@.contains(c),
        forall|i: int, j: int| 0 <= i < j < free@.len() ==> rank(free@[i]) < rank(free@[j]),
{
    let mut free: Vec<Coordinates> = Vec::new();
    let mut y: i32 = 0;
    while y <= HEIGHT
        invariant
            0 <= y <= HEIGHT + 1,
            forall|i: int| 0 <= i < free@.len() ==> cell_free(body@, #[trigger] free@[i]),
            forall|i: int| 0 <= i < free@.len() ==> rank(#[trigger] free@[i]) < y * (WIDTH + 1),
            forall|c: Coordinates| cell_free(body@, c) && c.y < y ==> free@.contains(c),
            forall|i: int, j: int| 0 <= i < j < free@.len() ==> rank(free@[i]) < rank(free@[j]),
        decreases HEIGHT + 1 - y,
    {
        let mut x: i32 = 0;
        while x <= WIDTH
            invariant
                0 <= y <= HEIGHT,
                0 <= x <= WIDTH + 1,
                forall|i: int| 0 <= i < free@.len() ==> cell_free(body@, #[trigger] free@[i]),
                forall|i: int| 0 <= i < free@.len() ==> rank(#[trigger] free@[i]) < y * (WIDTH + 1) + x,
                forall|c: Coordinates| cell_free(body@, c) && (c.y < y || (c.y == y && c.x < x)) ==> free@.contains(c),
                forall|i: int, j: int| 0 <= i < j < free@.len() ==> rank(free@[i]) < rank(free@[j]),
            decreases WIDTH + 1 - x,
        {
            let c = Coordinates { x, y };
            let ghost free_before = free@;
            if !body_contains(body, c) {
                free.push(c);
                proof {
                    assert forall|cc: Coordinates| free_before.contains(cc) implies free@.contains(cc) by {
                        let i = choose|i: int| 0 <= i < free_before.len() && free_before[i] == cc;
                        assert(free@[i] == cc);
                    }
                    assert(free@[free@.len() - 1] == c);
                }
            }
            x = x + 1;
        }
        y = y + 1;
    }
    free
}

} // verus!
