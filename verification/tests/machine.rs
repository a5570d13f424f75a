//! Tests of the screen state machine.

use snake_game::food::Food;
use snake_game::game::Game;
use snake_game::grid::Cell;
use snake_game::screen::{Effect, GameStatus, InputEvent, Machine, END_SCREEN_HOLD_TICKS};
use snake_game::snake::{Direction, Snake};

#[test]
fn new_machine_starts_on_title_screen() {
    let m = Machine::new(25, 25);
    assert_eq!(m.status, GameStatus::TitleScreen);
    assert!(m.game.is_none());
    assert!(m.pending.is_none());
    assert_eq!(m.wait_end_screen, 0);
    assert!(m.is_consistent());
}

#[test]
fn confirm_on_title_starts_fresh_session() {
    let mut m = Machine::new(25, 25);
    let eff = m.handle_event(InputEvent::ConfirmKey);
    assert_eq!(eff, Effect::Nothing);
    assert_eq!(m.status, GameStatus::Running);
    let g = m.game.as_ref().expect("running machine holds a session");
    assert_eq!(g.score, 0);
    assert_eq!(
        g.snake.body,
        vec![
            Cell { x: 3, y: 0 },
            Cell { x: 2, y: 0 },
            Cell { x: 1, y: 0 },
            Cell { x: 0, y: 0 }
        ]
    );
    assert_eq!(g.snake.direction, Direction::Right);
}

#[test]
fn pause_retains_session_and_resume_restores_it() {
    let mut m = Machine::new(25, 25);
    m.handle_event(InputEvent::ConfirmKey);
    m.handle_event(InputEvent::Tick);
    let before = m.clone();
    m.handle_event(InputEvent::PauseKey);
    assert_eq!(m.status, GameStatus::Pause);
    assert_eq!(m.game, before.game);
    m.handle_event(InputEvent::PauseKey);
    assert_eq!(m.status, GameStatus::Running);
    assert_eq!(m, before);
}

#[test]
fn quit_key_on_title_quits() {
    let mut m = Machine::new(25, 25);
    let eff = m.handle_event(InputEvent::QuitKey);
    assert_eq!(eff, Effect::Nothing);
    assert_eq!(m.status, GameStatus::Quit);
}

#[test]
fn other_keys_and_ticks_leave_title_unchanged() {
    let mut m = Machine::new(25, 25);
    let before = m.clone();
    m.handle_event(InputEvent::OtherKey);
    assert_eq!(m, before);
    m.handle_event(InputEvent::Tick);
    assert_eq!(m, before);
    m.handle_event(InputEvent::DirectionKey(Direction::Up));
    assert_eq!(m, before);
    m.handle_event(InputEvent::PauseKey);
    assert_eq!(m, before);
}

#[test]
fn directional_key_buffers_and_tick_applies_it() {
    let mut m = Machine::new(25, 25);
    m.handle_event(InputEvent::ConfirmKey);
    let eff = m.handle_event(InputEvent::DirectionKey(Direction::Down));
    assert_eq!(eff, Effect::Nothing);
    assert_eq!(m.pending, Some(Direction::Down));
    m.handle_event(InputEvent::Tick);
    assert!(m.pending.is_none());
    let g = m.game.as_ref().expect("still running");
    assert_eq!(g.snake.direction, Direction::Down);
    assert_eq!(g.snake.body[0], Cell { x: 3, y: 1 });
}

#[test]
fn directional_input_is_ignored_outside_running() {
    let mut m = Machine::new(25, 25);
    m.handle_event(InputEvent::ConfirmKey);
    m.handle_event(InputEvent::PauseKey);
    let before = m.clone();
    m.handle_event(InputEvent::DirectionKey(Direction::Down));
    assert_eq!(m, before);
    m.handle_event(InputEvent::Tick);
    assert_eq!(m, before);
}

#[test]
fn collision_moves_to_end_screen_and_drops_session() {
    let mut m = Machine::new(25, 25);
    m.status = GameStatus::Running;
    m.game = Some(Game {
        grid_width: 25,
        grid_height: 25,
        score: 4,
        snake: Snake {
            body: vec![Cell { x: 0, y: 0 }, Cell { x: 1, y: 0 }],
            direction: Direction::Left,
        },
        food: Food {
            pos: Cell { x: 15, y: 15 },
        },
    });
    assert!(m.is_consistent());
    let eff = m.handle_event(InputEvent::Tick);
    assert_eq!(eff, Effect::Nothing);
    assert_eq!(m.status, GameStatus::EndScreen);
    assert!(m.game.is_none());
    assert_eq!(m.wait_end_screen, 0);
}

#[test]
fn end_screen_holds_two_ticks_then_returns_to_title_with_delay() {
    let mut m = Machine::new(25, 25);
    m.status = GameStatus::EndScreen;
    assert_eq!(END_SCREEN_HOLD_TICKS, 2);
    let eff1 = m.handle_event(InputEvent::Tick);
    assert_eq!(eff1, Effect::Nothing);
    assert_eq!(m.status, GameStatus::EndScreen);
    assert_eq!(m.wait_end_screen, 1);
    let eff2 = m.handle_event(InputEvent::Tick);
    assert_eq!(eff2, Effect::Delay);
    assert_eq!(m.status, GameStatus::TitleScreen);
    assert_eq!(m.wait_end_screen, 0);
}

#[test]
fn end_screen_ignores_keys() {
    let mut m = Machine::new(25, 25);
    m.status = GameStatus::EndScreen;
    let before = m.clone();
    m.handle_event(InputEvent::ConfirmKey);
    assert_eq!(m, before);
    m.handle_event(InputEvent::PauseKey);
    assert_eq!(m, before);
}

#[test]
fn quit_state_is_terminal() {
    let mut m = Machine::new(25, 25);
    m.handle_event(InputEvent::QuitKey);
    let before = m.clone();
    m.handle_event(InputEvent::Tick);
    assert_eq!(m, before);
    m.handle_event(InputEvent::ConfirmKey);
    assert_eq!(m, before);
}

#[test]
fn full_round_title_to_title() {
    let mut m = Machine::new(25, 25);
    m.handle_event(InputEvent::ConfirmKey);
    // Keep heading right: the head starts at (3, 0) and meets the right wall
    // after a bounded number of ticks.
    let mut guard = 0;
    while m.status == GameStatus::Running {
        m.handle_event(InputEvent::Tick);
        guard += 1;
        assert!(guard < 100, "the run should end at the wall");
    }
    assert_eq!(guard, 22);
    assert_eq!(m.status, GameStatus::EndScreen);
    m.handle_event(InputEvent::Tick);
    let eff = m.handle_event(InputEvent::Tick);
    assert_eq!(eff, Effect::Delay);
    assert_eq!(m.status, GameStatus::TitleScreen);
    assert!(m.is_consistent());
}
