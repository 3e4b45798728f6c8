//! What a frame of the game looks like: colours, squares and the order in
//! which they are painted. Coordinates here are drawing units, not cells.

use vstd::prelude::*;
use crate::grid::{Cell, CELL_SIZE};

verus! {

/// Side of the square drawing surface, in drawing units.
pub const WINDOW_SIZE: u32 = 700;

/// The three colours of the game.
#[derive(Clone, Copy, Debug, PartialEq, Eq, Structural)]
pub enum Color {
    /// The background.
    White,
    /// The snake.
    Black,
    /// The food pellet.
    Blue,
}

impl Color {
    /// Red, green, blue and alpha, each from 0 to 255.
    pub open spec fn spec_rgba(self) -> (u8, u8, u8, u8) {
        match self {
            Color::White => (255, 255, 255, 255),
            Color::Black => (0, 0, 0, 255),
            Color::Blue => (0, 0, 255, 255),
        }
    }

    /// Returns red, green, blue and alpha, each from 0 to 255.
    #[verifier::when_used_as_spec(spec_rgba)]
    pub fn rgba(self) -> (channels: (u8, u8, u8, u8))
        ensures
            channels == self.spec_rgba(),
    {
        match self {
            Color::White => (255, 255, 255, 255),
            Color::Black => (0, 0, 0, 255),
            Color::Blue => (0, 0, 255, 255),
        }
    }
}

/// A filled square, given by its top-left corner and its side.
#[derive(Clone, Copy, Debug, PartialEq, Eq, Structural)]
pub struct Square {
    pub color: Color,
    pub x: i64,
    pub y: i64,
    pub side: i64,
}

impl Square {
    /// This square is grid cell `cell` painted in `color`: one cell wide,
    /// with its corner at the cell's coordinates times the cell size.
    pub open spec fn paints(self, cell: Cell, color: Color) -> bool {
        &&& self.color == color
        &&& self.x == cell.x * CELL_SIZE
        &&& self.y == cell.y * CELL_SIZE
        &&& self.side == CELL_SIZE
    }

    /// The square that covers cell `(x, y)`, in `color`.
    pub fn of_cell(x: i32, y: i32, color: Color) -> (sq: Square)
        ensures
            sq.paints(Cell { x: x as int, y: y as int }, color),
    {
        Square { color, x: x as i64 * CELL_SIZE, y: y as i64 * CELL_SIZE, side: CELL_SIZE }
    }
}

/// One step of painting a frame.
#[derive(Clone, Copy, Debug, PartialEq, Eq, Structural)]
pub enum Draw {
    /// Fill the whole surface with one colour.
    Clear(Color),
    /// Paint one square over what is already there.
    Fill(Square),
}

} // verus!
