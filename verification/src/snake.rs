//! The snake: one grid cell and a heading.

use vstd::prelude::*;
use crate::direction::Direction;
use crate::frame::{Color, Square};
use crate::grid::{Cell, GRID_MAX};

verus! {

/// What a snake is, mathematically: the cell it occupies and its heading.
pub struct SnakeState {
    pub cell: Cell,
    pub heading: Direction,
}

impl SnakeState {
    /// The snake after one step along its heading, boundary not considered.
    pub open spec fn stepped(self) -> SnakeState {
        SnakeState { cell: self.cell.neighbour(self.heading), heading: self.heading }
    }

    /// The snake after a request to head towards `wanted`: a reversal onto
    /// its own trail is ignored, any other heading is taken. The cell stays.
    pub open spec fn turned(self, wanted: Direction) -> SnakeState {
        if wanted == self.heading.spec_opposite() {
            self
        } else {
            SnakeState { cell: self.cell, heading: wanted }
        }
    }
}

/// The single-segment snake. Its cell never leaves the grid.
#[derive(Clone, Copy, Debug)]
pub struct Snake {
    pos_x: i32,
    pos_y: i32,
    dir: Direction,
}

impl View for Snake {
    type V = SnakeState;

    closed spec fn view(&self) -> SnakeState {
        SnakeState { cell: Cell { x: self.pos_x as int, y: self.pos_y as int }, heading: self.dir }
    }
}

impl Snake {
    #[verifier::type_invariant]
    spec fn inv(self) -> bool {
        0 <= self.pos_x <= GRID_MAX && 0 <= self.pos_y <= GRID_MAX
    }

    /// Places a snake on cell `(x, y)` with the given heading, or returns
    /// `None` when the cell is off the grid.
    pub fn new(x: i32, y: i32, dir: Direction) -> (made: Option<Snake>)
        ensures
            made is Some <==> (Cell { x: x as int, y: y as int }).in_grid(),
            made matches Some(s) ==> s@ == (SnakeState {
                cell: Cell { x: x as int, y: y as int },
                heading: dir,
            }),
    {
        if 0 <= x && x <= GRID_MAX && 0 <= y && y <= GRID_MAX {
            Some(Snake { pos_x: x, pos_y: y, dir })
        } else {
            None
        }
    }

    /// Column of the snake's cell.
    pub fn x(&self) -> (x: i32)
        ensures
            x == self@.cell.x,
            0 <= x <= GRID_MAX,
    {
        proof {
            use_type_invariant(self);
        }
        self.pos_x
    }

    /// Row of the snake's cell.
    pub fn y(&self) -> (y: i32)
        ensures
            y == self@.cell.y,
            0 <= y <= GRID_MAX,
    {
        proof {
            use_type_invariant(self);
        }
        self.pos_y
    }

    /// The snake's current heading.
    pub fn heading(&self) -> (dir: Direction)
        ensures
            dir == self@.heading,
    {
        self.dir
    }

    /// Moves the snake one cell along its heading, unless it already touches
    /// the boundary: then it stays where it is. Returns whether it moved.
    pub fn advance(&mut self) -> (moved: bool)
        ensures
            moved <==> !old(self)@.cell.at_boundary(),
            moved ==> final(self)@ == old(self)@.stepped(),
            !moved ==> final(self)@ == old(self)@,
            final(self)@.cell.in_grid(),
    {
        proof {
            use_type_invariant(&*self);
        }
        if self.pos_x == 0 || self.pos_x == GRID_MAX || self.pos_y == 0 || self.pos_y == GRID_MAX {
            return false;
        }
        match self.dir {
            Direction::Right => self.pos_x += 1,
            Direction::Left => self.pos_x -= 1,
            Direction::Up => self.pos_y -= 1,
            Direction::Down => self.pos_y += 1,
        }
        true
    }

    /// The snake as it is painted: its cell as one black square.
    pub fn render(&self) -> (sq: Square)
        ensures
            sq.paints(self@.cell, Color::Black),
    {
        Square::of_cell(self.pos_x, self.pos_y, Color::Black)
    }

    /// Asks the snake to head towards `wanted`. A reversal onto its own
    /// trail is ignored; any other heading is taken.
    pub fn turn(&mut self, wanted: Direction)
        ensures
            final(self)@ == old(self)@.turned(wanted),
    {
        proof {
            use_type_invariant(&*self);
        }
        if wanted != self.dir.opposite() {
            self.dir = wanted;
        }
    }
}

/// A step moves the snake by the unit vector of its heading, one column to
/// the right or left or one row up or down, and keeps the heading. From a
/// cell of the grid that does not touch the boundary it ends on the grid.
pub proof fn lemma_step_moves_one_cell(snake: SnakeState)
    ensures
        snake.stepped().heading == snake.heading,
        snake.stepped().cell == match snake.heading {
            Direction::Right => Cell { x: snake.cell.x + 1, y: snake.cell.y },
            Direction::Left => Cell { x: snake.cell.x - 1, y: snake.cell.y },
            Direction::Up => Cell { x: snake.cell.x, y: snake.cell.y - 1 },
            Direction::Down => Cell { x: snake.cell.x, y: snake.cell.y + 1 },
        },
        snake.cell.in_grid() && !snake.cell.at_boundary() ==> snake.stepped().cell.in_grid(),
{
}

/// A snake asked for any heading but the reverse of its own takes it; asked
/// for the reverse, it keeps the heading it has. Its cell stays either way.
pub proof fn lemma_turn_refuses_only_the_reversal(snake: SnakeState, wanted: Direction)
    ensures
        wanted != snake.heading.spec_opposite() ==> snake.turned(wanted).heading == wanted,
        wanted == snake.heading.spec_opposite() ==> snake.turned(wanted).heading
            == snake.heading,
        snake.turned(wanted).cell == snake.cell,
{
}

} // verus!
