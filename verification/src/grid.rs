//! The coordinate space of the game: grid limits, the range food is spawned
//! in, and the mathematical model of a grid cell.

use vstd::prelude::*;
use crate::direction::Direction;

verus! {

/// Largest coordinate on either axis. A cell with a coordinate of `0` or of
/// this value touches the boundary.
pub const GRID_MAX: i32 = 699;

/// Smallest coordinate a relocated food pellet can get.
pub const SPAWN_MIN: i32 = 1;

/// Largest coordinate a relocated food pellet can get.
pub const SPAWN_MAX: i32 = 29;

/// Side of one grid cell in drawing units.
pub const CELL_SIZE: i64 = 20;

/// A grid cell, addressed by unbounded integer coordinates.
pub struct Cell {
    pub x: int,
    pub y: int,
}

impl Cell {
    /// Both coordinates lie in `0 ..= GRID_MAX`.
    pub open spec fn in_grid(self) -> bool {
        0 <= self.x <= GRID_MAX && 0 <= self.y <= GRID_MAX
    }

    /// The cell lies on the outermost ring of the grid: one of its
    /// coordinates is `0` or `GRID_MAX`.
    pub open spec fn at_boundary(self) -> bool {
        self.x == 0 || self.x == GRID_MAX || self.y == 0 || self.y == GRID_MAX
    }

    /// Both coordinates lie in `SPAWN_MIN ..= SPAWN_MAX`.
    pub open spec fn in_spawn_range(self) -> bool {
        SPAWN_MIN <= self.x <= SPAWN_MAX && SPAWN_MIN <= self.y <= SPAWN_MAX
    }

    /// The neighbouring cell one unit along `heading`.
    pub open spec fn neighbour(self, heading: Direction) -> Cell {
        Cell { x: self.x + heading.dx(), y: self.y + heading.dy() }
    }
}

} // verus!
