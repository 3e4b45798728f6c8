use snake_game::direction::{Direction, Key};
use snake_game::food::Food;
use snake_game::frame::{Color, Draw, Square};
use snake_game::game::{Game, TICKS_PER_SECOND};
use snake_game::snake::Snake;

fn game_with(snake: (i32, i32, Direction), food: (i32, i32)) -> Game {
    let snake = Snake::new(snake.0, snake.1, snake.2).expect("cell on the grid");
    Game::new(snake, Food::new(food.0, food.1))
}

fn snake_cell(game: &Game) -> (i32, i32) {
    (game.snake().x(), game.snake().y())
}

fn food_cell(game: &Game) -> (i32, i32) {
    (game.food().x(), game.food().y())
}

fn in_spawn_range(cell: (i32, i32)) -> bool {
    (1..=29).contains(&cell.0) && (1..=29).contains(&cell.1)
}

/// The key that takes the snake closer to the food.
fn steer(game: &Game) -> Key {
    let (sx, sy) = snake_cell(game);
    let (fx, fy) = food_cell(game);
    let heading = game.snake().heading();
    let mut towards = Vec::new();
    if sx < fx {
        towards.push(Key::Right);
    }
    if sx > fx {
        towards.push(Key::Left);
    }
    if sy < fy {
        towards.push(Key::Down);
    }
    if sy > fy {
        towards.push(Key::Up);
    }
    // Straight behind, or underfoot: go round by the middle of the range.
    towards.push(if sy < 15 { Key::Down } else { Key::Up });
    towards.push(if sx < 15 { Key::Right } else { Key::Left });
    for key in towards {
        if key.direction() != Some(heading.opposite()) {
            return key;
        }
    }
    Key::Other
}

#[test]
fn ticks_come_eight_times_a_second() {
    assert_eq!(TICKS_PER_SECOND, 8);
}

#[test]
fn start_is_the_opening_position() {
    let game = Game::start();
    assert_eq!(snake_cell(&game), (2, 2));
    assert_eq!(game.snake().heading(), Direction::Right);
    assert_eq!(food_cell(&game), (4, 10));
    assert_eq!(game.score(), 0);
}

#[test]
fn new_game_has_no_points() {
    let game = game_with((30, 40, Direction::Down), (7, 8));
    assert_eq!(snake_cell(&game), (30, 40));
    assert_eq!(game.snake().heading(), Direction::Down);
    assert_eq!(food_cell(&game), (7, 8));
    assert_eq!(game.score(), 0);
}

#[test]
fn update_away_from_food_only_moves_the_snake() {
    let mut game = Game::start();
    assert!(game.update());
    assert_eq!(snake_cell(&game), (3, 2));
    assert_eq!(game.snake().heading(), Direction::Right);
    assert_eq!(food_cell(&game), (4, 10));
    assert_eq!(game.score(), 0);
}

#[test]
fn update_onto_food_scores_and_relocates() {
    let mut game = game_with((3, 10, Direction::Right), (4, 10));
    let before = game.score();
    assert!(game.update());
    assert_eq!(snake_cell(&game), (4, 10));
    assert_eq!(game.score(), before + 1);
    assert!(in_spawn_range(food_cell(&game)), "{:?}", food_cell(&game));
}

#[test]
fn update_onto_food_draws_a_fresh_cell() {
    let mut moved = 0;
    for _ in 0..200 {
        let mut game = game_with((3, 10, Direction::Right), (4, 10));
        assert!(game.update());
        assert_eq!(game.score(), 1);
        assert!(in_spawn_range(food_cell(&game)));
        if food_cell(&game) != (4, 10) {
            moved += 1;
        }
    }
    assert!(moved > 0);
}

#[test]
fn update_with_snake_already_on_food_moves_off_without_scoring() {
    let mut game = game_with((4, 10, Direction::Right), (4, 10));
    assert!(game.update());
    assert_eq!(snake_cell(&game), (5, 10));
    assert_eq!(food_cell(&game), (4, 10));
    assert_eq!(game.score(), 0);
}

#[test]
fn update_next_to_food_but_heading_elsewhere_does_not_score() {
    let mut game = game_with((3, 10, Direction::Down), (4, 10));
    assert!(game.update());
    assert_eq!(snake_cell(&game), (3, 11));
    assert_eq!(food_cell(&game), (4, 10));
    assert_eq!(game.score(), 0);
}

#[test]
fn update_with_onto_food_scores_and_puts_the_food_on_the_given_cell() {
    let mut game = game_with((3, 10, Direction::Right), (4, 10));
    let before = game.score();
    assert!(game.update_with(7, 3));
    assert_eq!(snake_cell(&game), (4, 10));
    assert_eq!(game.score(), before + 1);
    assert_eq!(food_cell(&game), (7, 3));
    assert_ne!(food_cell(&game), (4, 10));
}

#[test]
fn update_with_may_put_the_food_back_where_it_was() {
    let mut game = game_with((3, 10, Direction::Right), (4, 10));
    assert!(game.update_with(4, 10));
    assert_eq!(snake_cell(&game), (4, 10));
    assert_eq!(food_cell(&game), (4, 10));
    assert_eq!(game.score(), 1);
    assert!(game.update_with(9, 9));
    assert_eq!(snake_cell(&game), (5, 10));
    assert_eq!(food_cell(&game), (4, 10));
    assert_eq!(game.score(), 1);
}

#[test]
fn update_with_away_from_food_ignores_the_given_cell() {
    let mut game = Game::start();
    assert!(game.update_with(7, 3));
    assert_eq!(snake_cell(&game), (3, 2));
    assert_eq!(food_cell(&game), (4, 10));
    assert_eq!(game.score(), 0);
}

#[test]
fn update_with_on_boundary_ends_the_game_and_changes_nothing() {
    let mut game = game_with((5, 699, Direction::Up), (5, 698));
    assert!(!game.update_with(7, 3));
    assert_eq!(snake_cell(&game), (5, 699));
    assert_eq!(game.snake().heading(), Direction::Up);
    assert_eq!(food_cell(&game), (5, 698));
    assert_eq!(game.score(), 0);
}

#[test]
fn update_with_counts_every_pellet() {
    let mut game = game_with((1, 1, Direction::Right), (2, 1));
    for eaten in 1..=20u32 {
        let next_x = 2 + eaten as i32;
        assert!(game.update_with(next_x, 1));
        assert_eq!(game.score(), eaten);
        assert_eq!(food_cell(&game), (next_x, 1));
    }
}

#[test]
fn update_on_boundary_ends_the_game_and_changes_nothing() {
    let mut game = game_with((699, 5, Direction::Right), (4, 10));
    assert!(!game.update());
    assert_eq!(snake_cell(&game), (699, 5));
    assert_eq!(game.snake().heading(), Direction::Right);
    assert_eq!(food_cell(&game), (4, 10));
    assert_eq!(game.score(), 0);
}

#[test]
fn update_on_boundary_does_not_score_even_on_the_food() {
    let mut game = game_with((0, 10, Direction::Right), (0, 10));
    assert!(!game.update());
    assert_eq!(snake_cell(&game), (0, 10));
    assert_eq!(food_cell(&game), (0, 10));
    assert_eq!(game.score(), 0);
}

#[test]
fn opening_game_runs_into_the_right_boundary() {
    let mut game = Game::start();
    let mut ticks = 0;
    while game.update() {
        ticks += 1;
        assert!(ticks <= 697);
    }
    assert_eq!(ticks, 697);
    assert_eq!(snake_cell(&game), (699, 2));
    assert_eq!(game.score(), 0);
}

#[test]
fn input_reversal_is_rejected_and_a_quarter_turn_is_taken() {
    let mut game = game_with((2, 2, Direction::Right), (4, 10));
    game.handle_input(Key::Left);
    assert_eq!(game.snake().heading(), Direction::Right);
    game.handle_input(Key::Up);
    assert_eq!(game.snake().heading(), Direction::Up);
}

#[test]
fn input_follows_the_turning_rule_for_every_heading_and_key() {
    let headings = [Direction::Up, Direction::Down, Direction::Left, Direction::Right];
    let keys = [Key::Up, Key::Down, Key::Left, Key::Right, Key::Other];
    for current in headings {
        for key in keys {
            let mut game = game_with((9, 9, current), (4, 10));
            game.handle_input(key);
            let expected = match key.direction() {
                Some(wanted) if wanted != current.opposite() => wanted,
                _ => current,
            };
            assert_eq!(game.snake().heading(), expected, "{current:?}, {key:?}");
            assert_eq!(snake_cell(&game), (9, 9));
            assert_eq!(food_cell(&game), (4, 10));
            assert_eq!(game.score(), 0);
        }
    }
}

#[test]
fn input_same_heading_is_kept() {
    let mut game = game_with((2, 2, Direction::Right), (4, 10));
    game.handle_input(Key::Right);
    assert_eq!(game.snake().heading(), Direction::Right);
}

#[test]
fn input_is_judged_against_the_heading_at_the_time_of_the_press() {
    let mut game = game_with((2, 2, Direction::Right), (4, 10));
    game.handle_input(Key::Up);
    game.handle_input(Key::Left);
    assert_eq!(game.snake().heading(), Direction::Left);
    game.handle_input(Key::Right);
    assert_eq!(game.snake().heading(), Direction::Left);
}

#[test]
fn input_then_update_moves_along_the_new_heading() {
    let mut game = game_with((2, 2, Direction::Right), (4, 10));
    game.handle_input(Key::Down);
    assert!(game.update());
    assert_eq!(snake_cell(&game), (2, 3));
}

#[test]
fn render_paints_background_then_snake_then_food() {
    let game = Game::start();
    assert_eq!(
        game.render(),
        vec![
            Draw::Clear(Color::White),
            Draw::Fill(Square { color: Color::Black, x: 40, y: 40, side: 20 }),
            Draw::Fill(Square { color: Color::Blue, x: 80, y: 200, side: 20 }),
        ]
    );
}

#[test]
fn render_follows_the_state() {
    let mut game = game_with((3, 10, Direction::Right), (20, 5));
    assert!(game.update());
    assert_eq!(
        game.render(),
        vec![
            Draw::Clear(Color::White),
            Draw::Fill(Square { color: Color::Black, x: 80, y: 200, side: 20 }),
            Draw::Fill(Square { color: Color::Blue, x: 400, y: 100, side: 20 }),
        ]
    );
}

#[test]
fn score_grows_by_one_exactly_when_the_snake_lands_on_the_food() {
    let mut game = game_with((3, 10, Direction::Right), (4, 10));
    let mut ticks = 0;
    while game.score() < 25 {
        ticks += 1;
        assert!(ticks < 25 * 200, "the snake does not find the food");
        game.handle_input(steer(&game));
        let food = food_cell(&game);
        let score = game.score();
        assert!(game.update());
        if snake_cell(&game) == food {
            assert_eq!(game.score(), score + 1);
            assert!(in_spawn_range(food_cell(&game)));
        } else {
            assert_eq!(game.score(), score);
            assert_eq!(food_cell(&game), food);
        }
    }
}
