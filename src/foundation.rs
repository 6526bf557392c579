//! Value types shared by the other modules.

use vstd::prelude::*;

verus! {

/// A cell of the unbounded two-dimensional world grid.
#[derive(Debug, Clone, Copy, PartialEq, Eq, Structural)]
pub struct Position {
    pub x: i32,
    pub y: i32,
}

impl Position {
    pub fn new(x: i32, y: i32) -> (r: Self)
        ensures
            r.x == x,
            r.y == y,
    {
        Position { x, y }
    }
}

} // verus!
