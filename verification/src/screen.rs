//! The top-level screen state machine: title screen, running game, pause,
//! end screen and quit. One event is handled at a time; simulation ticks
//! advance the session only while running, and the end screen hands back a
//! delay effect instead of blocking, so the caller owns all real time.

use vstd::prelude::*;

use crate::game::Game;
use crate::game::Outcome;
use crate::game::is_initial_game;
use crate::game::tick_rel;
use crate::snake::Direction;

verus! {

/// How many end-screen ticks pass before the machine returns to the title.
pub const END_SCREEN_HOLD_TICKS: u32 = 2;

/// The current top-level screen.
#[derive(Clone, Copy, PartialEq, Eq, Structural, Debug)]
pub enum GameStatus {
    Running,
    Pause,
    TitleScreen,
    EndScreen,
    Quit,
}

/// One discrete event from the outside driver: a simulation tick, or a
/// decoded key press.
#[derive(Clone, Copy, PartialEq, Eq, Structural, Debug)]
pub enum InputEvent {
    /// A periodic simulation tick.
    Tick,
    /// An arrow or letter key naming a direction.
    DirectionKey(Direction),
    /// The pause toggle (space).
    PauseKey,
    /// The confirm key (enter).
    ConfirmKey,
    /// The quit key.
    QuitKey,
    /// Any other key; always ignored.
    OtherKey,
}

/// A side effect the caller must perform after an event was handled.
#[derive(Clone, Copy, PartialEq, Eq, Structural, Debug)]
pub enum Effect {
    /// Nothing to do.
    Nothing,
    /// Hold real time briefly: the end screen has finished and the machine is
    /// back on the title screen.
    Delay,
}

/// The screen state machine. It owns the live session (exactly while the
/// status is `Running` or `Pause`), the direction buffered for the next tick,
/// and the end-screen wait counter.
#[derive(Clone, PartialEq, Debug)]
pub struct Machine {
    pub status: GameStatus,
    pub game: Option<Game>,
    pub pending: Option<Direction>,
    pub wait_end_screen: u32,
    pub grid_width: u32,
    pub grid_height: u32,
}

impl Machine {
    /// Machine invariant: a session exists exactly in `Running` and `Pause`,
    /// is itself well formed and plays on this machine's grid; the end-screen
    /// counter is live only on the end screen and below its hold bound.
    pub open spec fn wf(self) -> bool {
        &&& self.grid_width >= 16
        &&& self.grid_height >= 16
        &&& ((self.game is Some) <==> (self.status == GameStatus::Running || self.status
            == GameStatus::Pause))
        &&& (self.game is Some ==> {
            &&& self.game->0.wf()
            &&& self.game->0.grid_width == self.grid_width
            &&& self.game->0.grid_height == self.grid_height
        })
        &&& self.wait_end_screen < END_SCREEN_HOLD_TICKS
        &&& (self.status != GameStatus::EndScreen ==> self.wait_end_screen == 0)
    }

    /// A fresh machine on the title screen, with no live session.
    pub fn new(grid_width: u32, grid_height: u32) -> (m: Machine)
        requires
            grid_width >= 16,
            grid_height >= 16,
        ensures
            m.wf(),
            m.status == GameStatus::TitleScreen,
            m.game is None,
            m.pending is None,
            m.wait_end_screen == 0,
            m.grid_width == grid_width,
            m.grid_height == grid_height,
    {
        Machine {
            status: GameStatus::TitleScreen,
            game: None,
            pending: None,
            wait_end_screen: 0,
            grid_width,
            grid_height,
        }
    }

    /// Handle one event. The whole transition relation is [`step_rel`];
    /// ticks outside `Running` never touch the session.
    pub fn handle_event(&mut self, e: InputEvent) -> (eff: Effect)
        requires
            old(self).wf(),
            (old(self).status == GameStatus::Running && e == InputEvent::Tick) ==> ({
                let g = old(self).game->0;
                &&& g.score < u32::MAX
                &&& (g.steered(old(self).pending).eats_spec() ==> g.steered(
                    old(self).pending,
                ).has_free_cell_spec())
            }),
        ensures
            final(self).wf(),
            step_rel(*old(self), e, *final(self), eff),
    {
        match self.status {
            GameStatus::TitleScreen => match e {
                InputEvent::ConfirmKey => {
                    let g = Game::new(self.grid_width, self.grid_height);
                    self.game = Some(g);
                    self.pending = None;
                    self.status = GameStatus::Running;
                    Effect::Nothing
                },
                InputEvent::QuitKey => {
                    self.status = GameStatus::Quit;
                    Effect::Nothing
                },
                _ => Effect::Nothing,
            },
            GameStatus::Running => match e {
                InputEvent::Tick => {
                    let pending = self.pending;
                    self.pending = None;
                    let o: Outcome;
                    match &mut self.game {
                        Some(g) => {
                            o = g.advance(pending);
                        },
                        None => {
                            o = vstd::pervasive::unreached();
                        },
                    }
                    if o == Outcome::Collided {
                        self.game = None;
                        self.status = GameStatus::EndScreen;
                    }
                    Effect::Nothing
                },
                InputEvent::DirectionKey(d) => {
                    self.pending = Some(d);
                    Effect::Nothing
                },
                InputEvent::PauseKey => {
                    self.status = GameStatus::Pause;
                    Effect::Nothing
                },
                _ => Effect::Nothing,
            },
            GameStatus::Pause => match e {
                InputEvent::PauseKey => {
                    self.status = GameStatus::Running;
                    Effect::Nothing
                },
                _ => Effect::Nothing,
            },
            GameStatus::EndScreen => match e {
                InputEvent::Tick => {
                    self.wait_end_screen = self.wait_end_screen + 1;
                    if self.wait_end_screen == END_SCREEN_HOLD_TICKS {
                        self.wait_end_screen = 0;
                        self.status = GameStatus::TitleScreen;
                        Effect::Delay
                    } else {
                        Effect::Nothing
                    }
                },
                _ => Effect::Nothing,
            },
            GameStatus::Quit => Effect::Nothing,
        }
    }

    /// Runtime check of the machine invariant [`Self::wf`].
    pub fn is_consistent(&self) -> (r: bool)
        ensures
            r == self.wf(),
    {
        if self.grid_width < 16 || self.grid_height < 16 {
            return false;
        }
        let has_game = match &self.game {
            Some(_) => true,
            None => false,
        };
        let needs_game = self.status == GameStatus::Running || self.status == GameStatus::Pause;
        if has_game != needs_game {
            return false;
        }
        match &self.game {
            Some(g) => {
                if !g.is_consistent() || g.grid_width != self.grid_width || g.grid_height
                    != self.grid_height {
                    return false;
                }
            },
            None => {},
        }
        if self.wait_end_screen >= END_SCREEN_HOLD_TICKS {
            return false;
        }
        if self.status != GameStatus::EndScreen && self.wait_end_screen != 0 {
            return false;
        }
        true
    }
}

/// The machine's full transition relation: what one handled event does to the
/// screen, the session, the buffered direction, the wait counter, and which
/// effect it hands back. Everything not named by the matching case is
/// unchanged, and any pair not matched at all leaves the machine untouched.
pub open spec fn step_rel(pre: Machine, e: InputEvent, post: Machine, eff: Effect) -> bool {
    &&& post.grid_width == pre.grid_width
    &&& post.grid_height == pre.grid_height
    &&& match (pre.status, e) {
        (GameStatus::TitleScreen, InputEvent::ConfirmKey) => {
            &&& post.status == GameStatus::Running
            &&& post.game is Some
            &&& is_initial_game(post.game->0, pre.grid_width, pre.grid_height)
            &&& post.pending is None
            &&& post.wait_end_screen == 0
            &&& eff == Effect::Nothing
        },
        (GameStatus::TitleScreen, InputEvent::QuitKey) => {
            &&& post.status == GameStatus::Quit
            &&& post.game == pre.game
            &&& post.pending == pre.pending
            &&& post.wait_end_screen == pre.wait_end_screen
            &&& eff == Effect::Nothing
        },
        (GameStatus::Running, InputEvent::Tick) => {
            let steered = pre.game->0.steered(pre.pending);
            &&& post.pending is None
            &&& post.wait_end_screen == 0
            &&& eff == Effect::Nothing
            &&& if steered.outcome_of() == Outcome::Collided {
                &&& post.status == GameStatus::EndScreen
                &&& post.game is None
            } else {
                &&& post.status == GameStatus::Running
                &&& post.game is Some
                &&& tick_rel(steered, post.game->0, steered.outcome_of())
            }
        },
        (GameStatus::Running, InputEvent::DirectionKey(d)) => {
            &&& post.status == GameStatus::Running
            &&& post.game == pre.game
            &&& post.pending == Some(d)
            &&& post.wait_end_screen == pre.wait_end_screen
            &&& eff == Effect::Nothing
        },
        (GameStatus::Running, InputEvent::PauseKey) => {
            &&& post.status == GameStatus::Pause
            &&& post.game == pre.game
            &&& post.pending == pre.pending
            &&& post.wait_end_screen == pre.wait_end_screen
            &&& eff == Effect::Nothing
        },
        (GameStatus::Pause, InputEvent::PauseKey) => {
            &&& post.status == GameStatus::Running
            &&& post.game == pre.game
            &&& post.pending == pre.pending
            &&& post.wait_end_screen == pre.wait_end_screen
            &&& eff == Effect::Nothing
        },
        (GameStatus::EndScreen, InputEvent::Tick) => {
            if pre.wait_end_screen + 1 == END_SCREEN_HOLD_TICKS {
                &&& post.status == GameStatus::TitleScreen
                &&& post.game == pre.game
                &&& post.pending == pre.pending
                &&& post.wait_end_screen == 0
                &&& eff == Effect::Delay
            } else {
                &&& post.status == GameStatus::EndScreen
                &&& post.game == pre.game
                &&& post.pending == pre.pending
                &&& post.wait_end_screen == pre.wait_end_screen + 1
                &&& eff == Effect::Nothing
            }
        },
        _ => {
            &&& post == pre
            &&& eff == Effect::Nothing
        },
    }
}

/// Law: pausing a running machine and pausing again returns it to exactly
/// its pre-pause state; the session is retained untouched throughout.
pub proof fn lemma_pause_resume_roundtrip(
    pre: Machine,
    mid: Machine,
    post: Machine,
    e1: Effect,
    e2: Effect,
)
    requires
        pre.status == GameStatus::Running,
        step_rel(pre, InputEvent::PauseKey, mid, e1),
        step_rel(mid, InputEvent::PauseKey, post, e2),
    ensures
        mid.status == GameStatus::Pause,
        mid.game == pre.game,
        post == pre,
{
}

/// Law: simulation time is frozen outside `Running` — a tick handled on the
/// title screen, on pause or after quitting leaves the machine unchanged, and
/// an end-screen tick moves only the wait counter.
pub proof fn lemma_tick_frozen_outside_running(pre: Machine, post: Machine, eff: Effect)
    requires
        pre.status != GameStatus::Running,
        step_rel(pre, InputEvent::Tick, post, eff),
    ensures
        post.game == pre.game,
        post.pending == pre.pending,
        pre.status != GameStatus::EndScreen ==> post == pre,
{
}

} // verus!
