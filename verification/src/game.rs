//! One playthrough's session: snake, food and score, advanced one tick at a
//! time. A tick checks the wall, then self-bite, then food — in that order —
//! and only then moves the snake; a collision reports `Collided` and leaves
//! the session untouched.

use vstd::prelude::*;

use crate::food::Food;
use crate::food::find_free_cell;
use crate::grid::Cell;
use crate::grid::in_bounds;
use crate::grid::in_bounds_spec;
use crate::snake::Direction;
use crate::snake::Snake;
use crate::snake::opposite_spec;

verus! {

/// What one tick of the session did.
#[derive(Clone, Copy, PartialEq, Eq, Structural, Debug)]
pub enum Outcome {
    /// The snake moved one step; nothing else happened.
    Continue,
    /// The snake ate the food: it grew, the food moved, the score rose.
    Ate,
    /// The snake would have hit a wall or itself; the session is inert.
    Collided,
}

/// The snake's initial body: four cells in a horizontal line, head at (3, 0).
pub open spec fn initial_body() -> Seq<Cell> {
    seq![
        Cell { x: 3, y: 0 },
        Cell { x: 2, y: 0 },
        Cell { x: 1, y: 0 },
        Cell { x: 0, y: 0 },
    ]
}

/// Where the food starts a session.
pub open spec fn initial_food() -> Cell {
    Cell { x: 15, y: 15 }
}

/// A session's mutable state: grid size in cells, score, snake and food.
#[derive(Clone, PartialEq, Debug)]
pub struct Game {
    pub grid_width: u32,
    pub grid_height: u32,
    pub score: u32,
    pub snake: Snake,
    pub food: Food,
}

/// A freshly created session on the given grid.
pub open spec fn is_initial_game(g: Game, grid_width: u32, grid_height: u32) -> bool {
    &&& g.grid_width == grid_width
    &&& g.grid_height == grid_height
    &&& g.score == 0
    &&& g.snake.body@ == initial_body()
    &&& g.snake.direction == Direction::Right
    &&& g.food.pos == initial_food()
}

impl Game {
    /// Session invariant: a non-degenerate grid, a non-empty snake whose
    /// cells all lie on the grid, and food on the grid.
    pub open spec fn wf(self) -> bool {
        &&& self.grid_width >= 1
        &&& self.grid_height >= 1
        &&& self.snake.wf()
        &&& forall|i: int|
            0 <= i < self.snake.body@.len() ==> in_bounds_spec(
                #[trigger] self.snake.body@[i],
                self.grid_width,
                self.grid_height,
            )
        &&& in_bounds_spec(self.food.pos, self.grid_width, self.grid_height)
    }

    /// The tick would end the session: a wall lies one step ahead, or the
    /// head cell is duplicated in the body.
    pub open spec fn collided_spec(self) -> bool {
        self.snake.wall_hit_spec(self.grid_width, self.grid_height) || self.snake.bites_spec()
    }

    /// The tick eats: no collision, and the head sits on the food.
    pub open spec fn eats_spec(self) -> bool {
        !self.collided_spec() && self.snake.head_spec() == self.food.pos
    }

    /// What the next tick reports, as a function of the current state.
    pub open spec fn outcome_of(self) -> Outcome {
        if self.collided_spec() {
            Outcome::Collided
        } else if self.snake.head_spec() == self.food.pos {
            Outcome::Ate
        } else {
            Outcome::Continue
        }
    }

    /// Some grid cell is free of the snake's body.
    pub open spec fn has_free_cell_spec(self) -> bool {
        exists|c: Cell|
            in_bounds_spec(c, self.grid_width, self.grid_height) && !self.snake.body@.contains(c)
    }

    /// The session this one becomes once a buffered direction request (if
    /// any) has passed the reversal guard.
    pub open spec fn steered(self, requested: Option<Direction>) -> Game {
        match requested {
            Option::None => self,
            Option::Some(d) => Game {
                grid_width: self.grid_width,
                grid_height: self.grid_height,
                score: self.score,
                snake: Snake {
                    body: self.snake.body,
                    direction: if d == opposite_spec(self.snake.direction) {
                        self.snake.direction
                    } else {
                        d
                    },
                },
                food: self.food,
            },
        }
    }

    /// A new session: score 0, the initial four-cell snake facing right, and
    /// the food at its initial cell. The grid must be large enough to hold
    /// both.
    pub fn new(grid_width: u32, grid_height: u32) -> (g: Game)
        requires
            grid_width >= 16,
            grid_height >= 16,
        ensures
            g.wf(),
            is_initial_game(g, grid_width, grid_height),
    {
        let mut body: Vec<Cell> = Vec::new();
        body.push(Cell { x: 3, y: 0 });
        body.push(Cell { x: 2, y: 0 });
        body.push(Cell { x: 1, y: 0 });
        body.push(Cell { x: 0, y: 0 });
        proof {
            assert(body@ =~= initial_body());
        }
        Game {
            grid_width,
            grid_height,
            score: 0,
            snake: Snake { body, direction: Direction::Right },
            food: Food { pos: Cell { x: 15, y: 15 } },
        }
    }

    /// Whether the snake's head sits on the food — the eat test a tick makes
    /// before moving.
    pub fn snake_eats_food(&self) -> (r: bool)
        requires
            self.snake.wf(),
        ensures
            r == (self.snake.head_spec() == self.food.pos),
    {
        let head = self.snake.body[0];
        head == self.food.pos
    }

    /// Forward a direction request to the snake's reversal guard; everything
    /// else is untouched.
    pub fn pressed(&mut self, requested: Direction)
        ensures
            final(self).snake.body == old(self).snake.body,
            final(self).snake.direction == (if requested == opposite_spec(
                old(self).snake.direction,
            ) {
                old(self).snake.direction
            } else {
                requested
            }),
            final(self).score == old(self).score,
            final(self).food == old(self).food,
            final(self).grid_width == old(self).grid_width,
            final(self).grid_height == old(self).grid_height,
    {
        self.snake.set_direction(requested);
    }

    /// Whether some grid cell is free of the snake — the room a food
    /// relocation needs.
    pub fn has_free_cell(&self) -> (r: bool)
        ensures
            r == self.has_free_cell_spec(),
    {
        match find_free_cell(self.grid_width, self.grid_height, &self.snake.body) {
            Some(c) => {
                proof {
                    assert(in_bounds_spec(c, self.grid_width, self.grid_height)
                        && !self.snake.body@.contains(c));
                }
                true
            },
            None => {
                proof {
                    if self.has_free_cell_spec() {
                        let c0 = choose|c: Cell|
                            in_bounds_spec(c, self.grid_width, self.grid_height)
                                && !self.snake.body@.contains(c);
                        assert(self.snake.body@.contains(c0));
                    }
                }
                false
            },
        }
    }

    /// Runtime check of the session invariant [`Self::wf`].
    pub fn is_consistent(&self) -> (r: bool)
        ensures
            r == self.wf(),
    {
        if self.grid_width < 1 || self.grid_height < 1 {
            return false;
        }
        if self.snake.body.len() < 1 {
            return false;
        }
        if !in_bounds(self.food.pos, self.grid_width, self.grid_height) {
            return false;
        }
        let mut i: usize = 0;
        while i < self.snake.body.len()
            invariant
                i <= self.snake.body@.len(),
                self.grid_width >= 1,
                self.grid_height >= 1,
                self.snake.body@.len() >= 1,
                in_bounds_spec(self.food.pos, self.grid_width, self.grid_height),
                forall|j: int|
                    0 <= j < i ==> in_bounds_spec(
                        #[trigger] self.snake.body@[j],
                        self.grid_width,
                        self.grid_height,
                    ),
            decreases self.snake.body@.len() - i,
        {
            if !in_bounds(self.snake.body[i], self.grid_width, self.grid_height) {
                return false;
            }
            i = i + 1;
        }
        true
    }

    /// One tick: check wall, then self-bite, then food, then move — in that
    /// order, so both collision checks and the eat check look at the head
    /// before it moves.
    pub fn update(&mut self) -> (o: Outcome)
        requires
            old(self).wf(),
            old(self).score < u32::MAX,
            old(self).eats_spec() ==> old(self).has_free_cell_spec(),
        ensures
            final(self).wf(),
            o == old(self).outcome_of(),
            tick_rel(*old(self), *final(self), o),
            final(self).snake.body@.len() >= old(self).snake.body@.len(),
            o == Outcome::Ate ==> final(self).snake.body@.len() == old(self).snake.body@.len()
                + 1,
            o != Outcome::Ate ==> final(self).snake.body@.len() == old(self).snake.body@.len(),
    {
        if self.snake.will_hit_wall(self.grid_width, self.grid_height) {
            return Outcome::Collided;
        }
        if self.snake.bites_itself() {
            return Outcome::Collided;
        }
        let ate = self.snake_eats_food();
        if ate {
            self.score = self.score + 1;
            self.snake.grow();
            proof {
                let pre = old(self).snake.body@;
                let grown = self.snake.body@;
                assert(grown[0] == pre[0]);
                let c0 = choose|c: Cell|
                    in_bounds_spec(c, self.grid_width, self.grid_height) && !pre.contains(c);
                assert forall|i: int| 0 <= i < grown.len() implies #[trigger] grown[i] != c0 by {
                    if i < pre.len() {
                        assert(pre.contains(grown[i])) by {
                            assert(pre[i] == grown[i]);
                        }
                    } else {
                        assert(grown[i] == pre[pre.len() - 1]);
                        assert(pre.contains(pre[pre.len() - 1]));
                    }
                }
                assert(!grown.contains(c0)) by {
                    if grown.contains(c0) {
                        let j = choose|j: int| 0 <= j < grown.len() && grown[j] == c0;
                        assert(grown[j] != c0);
                    }
                }
            }
            self.food.update(self.grid_width, self.grid_height, &self.snake);
            proof {
                assert forall|i: int|
                    0 <= i < old(self).snake.body@.len() implies self.food.pos != #[trigger] old(
                    self,
                ).snake.body@[i] by {
                    assert(self.snake.body@[i] == old(self).snake.body@[i]);
                }
            }
        }
        proof {
            assert(self.snake.body@[0] == old(self).snake.body@[0]);
            assert(self.snake.can_step());
        }
        self.snake.update();
        proof {
            if ate {
                assert(self.snake.body@ =~= seq![old(self).snake.next_head_spec()]
                    + old(self).snake.body@);
            }
            assert forall|i: int|
                0 <= i < self.snake.body@.len() implies in_bounds_spec(
                #[trigger] self.snake.body@[i],
                self.grid_width,
                self.grid_height,
            ) by {
                if i > 0 {
                    assert(self.snake.body@[i] == old(self).snake.body@[i - 1]);
                }
            }
        }
        if ate {
            Outcome::Ate
        } else {
            Outcome::Continue
        }
    }

    /// One tick driven by a buffered direction request: apply the request
    /// through the reversal guard, then run [`Self::update`].
    pub fn advance(&mut self, requested: Option<Direction>) -> (o: Outcome)
        requires
            old(self).wf(),
            old(self).score < u32::MAX,
            old(self).steered(requested).eats_spec() ==> old(self).steered(
                requested,
            ).has_free_cell_spec(),
        ensures
            final(self).wf(),
            o == old(self).steered(requested).outcome_of(),
            tick_rel(old(self).steered(requested), *final(self), o),
            final(self).snake.body@.len() >= old(self).snake.body@.len(),
            o == Outcome::Ate ==> final(self).snake.body@.len() == old(self).snake.body@.len()
                + 1,
            o != Outcome::Ate ==> final(self).snake.body@.len() == old(self).snake.body@.len(),
    {
        match requested {
            Option::Some(d) => self.pressed(d),
            Option::None => {},
        }
        proof {
            assert(self.snake == old(self).steered(requested).snake);
            assert(*self == old(self).steered(requested));
        }
        self.update()
    }
}

/// How one tick relates the session before it, the session after it, and the
/// reported outcome: a collision freezes the state; eating prepends the new
/// head, keeps the whole old body, moves the food off that body and adds one
/// to the score; otherwise the head advances and the tail cell is dropped.
pub open spec fn tick_rel(pre: Game, post: Game, o: Outcome) -> bool {
    &&& post.grid_width == pre.grid_width
    &&& post.grid_height == pre.grid_height
    &&& post.snake.direction == pre.snake.direction
    &&& ((o == Outcome::Collided) <==> pre.collided_spec())
    &&& ((o == Outcome::Ate) <==> pre.eats_spec())
    &&& (o == Outcome::Collided ==> post == pre)
    &&& (o == Outcome::Ate ==> {
        &&& post.score == pre.score + 1
        &&& post.snake.body@ == seq![pre.snake.next_head_spec()] + pre.snake.body@
        &&& in_bounds_spec(post.food.pos, pre.grid_width, pre.grid_height)
        &&& forall|i: int|
            0 <= i < pre.snake.body@.len() ==> post.food.pos != #[trigger] pre.snake.body@[i]
    })
    &&& (o == Outcome::Continue ==> {
        &&& post.score == pre.score
        &&& post.food == pre.food
        &&& post.snake.body@ == seq![pre.snake.next_head_spec()] + pre.snake.body@.drop_last()
    })
}

/// Law: a tick taken where the snake would hit the wall reports `Collided`
/// and mutates nothing.
pub proof fn lemma_wall_hit_means_collision(pre: Game, post: Game, o: Outcome)
    requires
        tick_rel(pre, post, o),
        pre.snake.wall_hit_spec(pre.grid_width, pre.grid_height),
    ensures
        o == Outcome::Collided,
        post == pre,
{
}

/// Law: across any tick the body never shrinks, and its length changes —
/// by exactly one — only when the tick ate.
pub proof fn lemma_body_length_monotonic(pre: Game, post: Game, o: Outcome)
    requires
        tick_rel(pre, post, o),
        pre.snake.wf(),
    ensures
        post.snake.body@.len() >= pre.snake.body@.len(),
        o == Outcome::Ate ==> post.snake.body@.len() == pre.snake.body@.len() + 1,
        o != Outcome::Ate ==> post.snake.body@.len() == pre.snake.body@.len(),
{
}

/// Law: the score rises by exactly one on `Ate` and never changes on
/// `Continue` or `Collided`.
pub proof fn lemma_score_changes_only_with_ate(pre: Game, post: Game, o: Outcome)
    requires
        tick_rel(pre, post, o),
    ensures
        o == Outcome::Ate ==> post.score == pre.score + 1,
        o != Outcome::Ate ==> post.score == pre.score,
{
}

} // verus!
