//! The game: one snake, one food pellet and the score, and the three entry
//! points that a driver calls: `update` on every tick, `handle_input` on
//! every key press, `render` on every frame.

use vstd::prelude::*;
use crate::direction::{Direction, Key};
use crate::food::Food;
use crate::frame::{Color, Draw};
use crate::grid::Cell;
use crate::snake::{Snake, SnakeState};

verus! {

/// How many times per second a driver is to call `Game::update`.
pub const TICKS_PER_SECOND: u64 = 8;

/// What a game is, mathematically.
pub struct GameState {
    pub snake: SnakeState,
    pub food: Cell,
    pub score: nat,
}

impl GameState {
    /// The snake can move on this tick, and the move takes it onto the food.
    pub open spec fn reaches_food(self) -> bool {
        !self.snake.cell.at_boundary() && self.snake.stepped().cell == self.food
    }

    /// The state after one tick in which a pellet that gets eaten reappears
    /// on `next`. A snake on the boundary ends the game and nothing changes.
    /// Otherwise the snake takes its step; if that step ends on the food,
    /// one point is scored and the food moves to `next`.
    pub open spec fn after_tick(self, next: Cell) -> GameState {
        if self.snake.cell.at_boundary() {
            self
        } else if self.reaches_food() {
            GameState { snake: self.snake.stepped(), food: next, score: self.score + 1 }
        } else {
            GameState { snake: self.snake.stepped(), food: self.food, score: self.score }
        }
    }

    /// The steps that paint this state: a white background, then the snake,
    /// then the food, so that the food ends up on top.
    pub open spec fn is_painted_by(self, frame: Seq<Draw>) -> bool {
        &&& frame.len() == 3
        &&& frame[0] == Draw::Clear(Color::White)
        &&& frame[1] matches Draw::Fill(sq) && sq.paints(self.snake.cell, Color::Black)
        &&& frame[2] matches Draw::Fill(sq) && sq.paints(self.food, Color::Blue)
    }
}

/// A running game.
#[derive(Clone, Copy, Debug)]
pub struct Game {
    snake: Snake,
    food: Food,
    points: u32,
}

impl View for Game {
    type V = GameState;

    closed spec fn view(&self) -> GameState {
        GameState { snake: self.snake@, food: self.food@, score: self.points as nat }
    }
}

impl Game {
    /// A game that starts from the given snake and food, with no points.
    pub fn new(snake: Snake, food: Food) -> (game: Game)
        ensures
            game@ == (GameState { snake: snake@, food: food@, score: 0 }),
    {
        Game { snake, food, points: 0 }
    }

    /// The opening position: the snake on cell (2, 2) heading right, the
    /// food on cell (4, 10), no points.
    pub fn start() -> (game: Game)
        ensures
            game@ == (GameState {
                snake: SnakeState { cell: Cell { x: 2, y: 2 }, heading: Direction::Right },
                food: Cell { x: 4, y: 10 },
                score: 0,
            }),
    {
        let snake = Snake::new(2, 2, Direction::Right).unwrap();
        Game::new(snake, Food::new(4, 10))
    }

    /// The snake.
    pub fn snake(&self) -> (snake: &Snake)
        ensures
            snake@ == self@.snake,
    {
        &self.snake
    }

    /// The food pellet.
    pub fn food(&self) -> (food: &Food)
        ensures
            food@ == self@.food,
    {
        &self.food
    }

    /// Points scored so far.
    pub fn score(&self) -> (score: u32)
        ensures
            score == self@.score,
    {
        self.points
    }

    /// Whether the snake stands on the food.
    fn snake_on_food(&self) -> (on_food: bool)
        ensures
            on_food <==> self@.snake.cell == self@.food,
    {
        self.snake.x() == self.food.x() && self.snake.y() == self.food.y()
    }

    /// One tick. The snake advances; when it cannot, because it touches the
    /// boundary, the game is over, nothing changes and the result is `false`.
    /// Otherwise the result is `true`, and if the snake now stands on the
    /// food, the food is relocated at random and one point is scored.
    pub fn update(&mut self) -> (running: bool)
        requires
            old(self)@.score < u32::MAX,
        ensures
            running <==> !old(self)@.snake.cell.at_boundary(),
            running ==> final(self)@.snake == old(self)@.snake.stepped(),
            !running ==> final(self)@ == old(self)@,
            old(self)@.reaches_food() ==> final(self)@.score == old(self)@.score + 1
                && final(self)@.food.in_spawn_range(),
            !old(self)@.reaches_food() ==> final(self)@.score == old(self)@.score
                && final(self)@.food == old(self)@.food,
            final(self)@.snake.cell.in_grid(),
            exists|next: Cell| #[trigger]
                next.in_spawn_range() && final(self)@ == old(self)@.after_tick(next),
    {
        // When no pellet is eaten, any cell of the spawn range bears the
        // tick out: it is not looked at.
        assert((Cell { x: 1, y: 1 }).in_spawn_range());
        if !self.snake.advance() {
            return false;
        }
        if self.snake_on_food() {
            self.food.relocate();
            self.points += 1;
        }
        true
    }

    /// One tick in which a pellet that gets eaten reappears on cell
    /// `(next_x, next_y)` instead of a random one. In every other respect
    /// this is `update`.
    pub fn update_with(&mut self, next_x: i32, next_y: i32) -> (running: bool)
        requires
            old(self)@.score < u32::MAX,
        ensures
            running <==> !old(self)@.snake.cell.at_boundary(),
            final(self)@ == old(self)@.after_tick(Cell { x: next_x as int, y: next_y as int }),
            final(self)@.snake.cell.in_grid(),
    {
        if !self.snake.advance() {
            return false;
        }
        if self.snake_on_food() {
            self.food.place(next_x, next_y);
            self.points += 1;
        }
        true
    }

    /// One key press. An arrow key turns the snake towards it, unless that
    /// would reverse the snake onto its own trail; any other key, and a
    /// reversal, leave the heading as it is.
    pub fn handle_input(&mut self, key: Key)
        ensures
            final(self)@.food == old(self)@.food,
            final(self)@.score == old(self)@.score,
            final(self)@.snake == match key.direction() {
                Some(wanted) => old(self)@.snake.turned(wanted),
                None => old(self)@.snake,
            },
    {
        match key.direction() {
            Some(wanted) => self.snake.turn(wanted),
            None => {},
        }
    }

    /// The steps that paint the current state, in the order in which they
    /// are to be carried out.
    pub fn render(&self) -> (frame: Vec<Draw>)
        ensures
            self@.is_painted_by(frame@),
    {
        let mut frame: Vec<Draw> = Vec::new();
        frame.push(Draw::Clear(Color::White));
        frame.push(Draw::Fill(self.snake.render()));
        frame.push(Draw::Fill(self.food.render()));
        frame
    }
}

/// A tick scores exactly one point, and moves the food to the cell drawn for
/// it, when the snake's step ends on the food; the food's position then
/// changes unless that cell is the one it was on. In every other tick score
/// and food stay as they are. So the score never drops.
pub proof fn lemma_tick_scores_on_food_only(game: GameState, next: Cell)
    ensures
        game.after_tick(next).score >= game.score,
        game.reaches_food() ==> game.after_tick(next).score == game.score + 1
            && game.after_tick(next).food == next,
        game.reaches_food() && next != game.food ==> game.after_tick(next).food != game.food,
        !game.reaches_food() ==> game.after_tick(next).score == game.score
            && game.after_tick(next).food == game.food,
{
}

} // verus!
