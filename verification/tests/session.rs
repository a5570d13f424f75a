//! Tests of the per-tick game session.

use snake_game::food::Food;
use snake_game::game::{Game, Outcome};
use snake_game::grid::Cell;
use snake_game::snake::{Direction, Snake};

fn cell(x: u32, y: u32) -> Cell {
    Cell { x, y }
}

fn game_with(
    cells: Vec<(u32, u32)>,
    direction: Direction,
    food: (u32, u32),
    score: u32,
) -> Game {
    let body: Vec<Cell> = cells.iter().map(|&(x, y)| cell(x, y)).collect();
    Game {
        grid_width: 25,
        grid_height: 25,
        score,
        snake: Snake { body, direction },
        food: Food {
            pos: cell(food.0, food.1),
        },
    }
}

#[test]
fn new_game_has_initial_state() {
    let g = Game::new(25, 25);
    assert_eq!(g.score, 0);
    assert_eq!(
        g.snake.body,
        vec![cell(3, 0), cell(2, 0), cell(1, 0), cell(0, 0)]
    );
    assert_eq!(g.snake.direction, Direction::Right);
    assert_eq!(g.food.pos, cell(15, 15));
    assert!(g.is_consistent());
}

#[test]
fn one_advance_shifts_initial_body_right() {
    let mut g = Game::new(25, 25);
    let o = g.advance(None);
    assert_eq!(o, Outcome::Continue);
    assert_eq!(
        g.snake.body,
        vec![cell(4, 0), cell(3, 0), cell(2, 0), cell(1, 0)]
    );
    assert_eq!(g.snake.body.len(), 4);
    assert_eq!(g.score, 0);
}

#[test]
fn wall_ahead_collides_without_mutation() {
    let g0 = game_with(vec![(0, 0), (1, 0), (2, 0)], Direction::Left, (15, 15), 7);
    assert!(g0.snake.will_hit_wall(25, 25));
    let mut g = g0.clone();
    let o = g.update();
    assert_eq!(o, Outcome::Collided);
    assert_eq!(g, g0);
}

#[test]
fn self_bite_collides_without_mutation() {
    let g0 = game_with(
        vec![(2, 2), (3, 2), (3, 3), (2, 3), (2, 2), (1, 2)],
        Direction::Up,
        (15, 15),
        3,
    );
    let mut g = g0.clone();
    let o = g.update();
    assert_eq!(o, Outcome::Collided);
    assert_eq!(g, g0);
}

#[test]
fn food_on_next_head_cell_is_eaten_on_the_following_tick() {
    // The eat check compares the pre-move head with the food, so a food cell
    // one step ahead is walked onto first and eaten on the tick after that.
    let mut g = game_with(vec![(3, 0), (2, 0), (1, 0), (0, 0)], Direction::Right, (4, 0), 0);
    let first = g.advance(None);
    assert_eq!(first, Outcome::Continue);
    assert_eq!(g.snake.body[0], cell(4, 0));
    let second = g.advance(None);
    assert_eq!(second, Outcome::Ate);
    assert_eq!(g.score, 1);
    assert_eq!(g.snake.body.len(), 5);
    assert_eq!(
        g.snake.body,
        vec![cell(5, 0), cell(4, 0), cell(3, 0), cell(2, 0), cell(1, 0)]
    );
    // The food was relocated away from every cell it was checked against:
    // the whole pre-move body, which is the new body behind the head.
    assert!(g.food.pos.x < 25 && g.food.pos.y < 25);
    for c in g.snake.body.iter().skip(1) {
        assert!(g.food.pos != *c);
    }
}

#[test]
fn score_changes_only_on_ate() {
    let mut g = game_with(vec![(4, 0), (3, 0), (2, 0)], Direction::Right, (4, 0), 10);
    let o = g.update();
    assert_eq!(o, Outcome::Ate);
    assert_eq!(g.score, 11);

    let mut still = game_with(vec![(4, 4), (3, 4)], Direction::Right, (15, 15), 10);
    assert_eq!(still.update(), Outcome::Continue);
    assert_eq!(still.score, 10);

    let mut hit = game_with(vec![(24, 4), (23, 4)], Direction::Right, (15, 15), 10);
    assert_eq!(hit.update(), Outcome::Collided);
    assert_eq!(hit.score, 10);
}

#[test]
fn body_length_never_shrinks_over_many_ticks() {
    let mut g = Game::new(25, 25);
    let mut len = g.snake.body.len();
    let mut dir = 0u32;
    for i in 0..200 {
        // Steer in a small clockwise box so the run lasts a while.
        let req = match dir % 4 {
            0 => Direction::Right,
            1 => Direction::Down,
            2 => Direction::Left,
            _ => Direction::Up,
        };
        if i % 5 == 4 {
            dir += 1;
        }
        let o = g.advance(Some(req));
        match o {
            Outcome::Collided => break,
            Outcome::Ate => assert_eq!(g.snake.body.len(), len + 1),
            Outcome::Continue => assert_eq!(g.snake.body.len(), len),
        }
        len = g.snake.body.len();
    }
}

#[test]
fn pressed_obeys_reversal_guard() {
    let mut g = Game::new(25, 25);
    g.pressed(Direction::Left);
    assert_eq!(g.snake.direction, Direction::Right);
    g.pressed(Direction::Down);
    assert_eq!(g.snake.direction, Direction::Down);
}

#[test]
fn snake_eats_food_compares_head_with_food() {
    let g = game_with(vec![(4, 0), (3, 0)], Direction::Right, (4, 0), 0);
    assert!(g.snake_eats_food());
    let g2 = game_with(vec![(4, 0), (3, 0)], Direction::Right, (5, 0), 0);
    assert!(!g2.snake_eats_food());
}

#[test]
fn has_free_cell_reports_room() {
    let g = Game::new(25, 25);
    assert!(g.has_free_cell());
    let full = Game {
        grid_width: 25,
        grid_height: 25,
        score: 0,
        snake: Snake {
            body: (0..25u32)
                .flat_map(|y| (0..25u32).map(move |x| cell(x, y)))
                .collect(),
            direction: Direction::Right,
        },
        food: Food { pos: cell(0, 0) },
    };
    assert!(!full.has_free_cell());
}
