//! A single-segment snake game on a square grid: the snake, the food pellet,
//! the score and the rules that tie them together, with every rule proved.
//!
//! `game` holds the three entry points a driver calls (`update`,
//! `handle_input`, `render`); `snake` and `food` hold the two entities;
//! `direction` the headings and keys; `grid` the coordinate space; `frame`
//! what is painted; `random` the random source that relocates the food.

pub mod direction;
pub mod food;
pub mod frame;
pub mod game;
pub mod grid;
pub mod random;
pub mod snake;
