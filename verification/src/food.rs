//! The food pellet: one grid cell that moves when it is eaten.

use vstd::prelude::*;
use crate::frame::{Color, Square};
use crate::grid::{Cell, SPAWN_MAX, SPAWN_MIN};
use crate::random::gen_range;

verus! {

/// The food pellet.
#[derive(Clone, Copy, Debug)]
pub struct Food {
    pos_x: i32,
    pos_y: i32,
}

impl View for Food {
    type V = Cell;

    closed spec fn view(&self) -> Cell {
        Cell { x: self.pos_x as int, y: self.pos_y as int }
    }
}

impl Food {
    /// A pellet on cell `(x, y)`.
    pub fn new(x: i32, y: i32) -> (food: Food)
        ensures
            food@ == (Cell { x: x as int, y: y as int }),
    {
        Food { pos_x: x, pos_y: y }
    }

    /// Column of the pellet's cell.
    pub fn x(&self) -> (x: i32)
        ensures
            x == self@.x,
    {
        self.pos_x
    }

    /// Row of the pellet's cell.
    pub fn y(&self) -> (y: i32)
        ensures
            y == self@.y,
    {
        self.pos_y
    }

    /// The pellet as it is painted: its cell as one blue square.
    pub fn render(&self) -> (sq: Square)
        ensures
            sq.paints(self@, Color::Blue),
    {
        Square::of_cell(self.pos_x, self.pos_y, Color::Blue)
    }

    /// Puts the pellet on cell `(x, y)`.
    pub fn place(&mut self, x: i32, y: i32)
        ensures
            final(self)@ == (Cell { x: x as int, y: y as int }),
    {
        self.pos_x = x;
        self.pos_y = y;
    }

    /// Moves the pellet to a cell drawn at random, each coordinate on its
    /// own, from `SPAWN_MIN ..= SPAWN_MAX`. Which cell is drawn is not
    /// determined; that it lies in the spawn range is.
    pub fn relocate(&mut self)
        ensures
            final(self)@.in_spawn_range(),
    {
        let mut rng = rand::thread_rng();
        let x: i32 = gen_range(&mut rng, SPAWN_MIN, SPAWN_MAX + 1);
        let y: i32 = gen_range(&mut rng, SPAWN_MIN, SPAWN_MAX + 1);
        self.place(x, y);
    }
}

} // verus!
