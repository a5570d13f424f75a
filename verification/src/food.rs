//! The food: a single cell on the grid. When eaten it is repositioned to a
//! uniformly drawn free cell, rejecting draws that land on the snake.

use vstd::prelude::*;

use crate::grid::Cell;
use crate::grid::in_bounds_spec;
use crate::snake::Snake;
use crate::snake::collision_count;
use crate::snake::lemma_count_zero_iff_absent;

verus! {

/// Relies on rand::random_range over the half-open range `0..n`: the result
/// is drawn from the thread-local generator and lies in `[0, n)`; the call
/// panics only on an empty range, which `n > 0` rules out.
#[verifier::external_body]
fn random_below(n: u32) -> (r: u32)
    requires
        n > 0,
    ensures
        r < n,
{
    rand::random_range(0..n)
}

/// Whether `body` covers the cell `(x, y)`.
fn covers(body: &Vec<Cell>, x: u32, y: u32) -> (r: bool)
    ensures
        r == body@.contains(Cell { x, y }),
{
    let cell = Cell { x, y };
    let clashes = collision_count(cell, body);
    proof {
        lemma_count_zero_iff_absent(body@, cell);
    }
    clashes != 0
}

/// First cell of `[0, grid_width) x [0, grid_height)` in row order that
/// `body` leaves free, or `None` when `body` covers the whole grid.
pub fn find_free_cell(grid_width: u32, grid_height: u32, body: &Vec<Cell>) -> (r: Option<Cell>)
    ensures
        r matches Some(c) ==> in_bounds_spec(c, grid_width, grid_height) && !body@.contains(c),
        r is None ==> forall|c: Cell|
            in_bounds_spec(c, grid_width, grid_height) ==> #[trigger] body@.contains(c),
{
    let mut y: u32 = 0;
    while y < grid_height
        invariant
            y <= grid_height,
            forall|c: Cell|
                c.y < y && c.x < grid_width ==> #[trigger] body@.contains(c),
        decreases grid_height - y,
    {
        let mut x: u32 = 0;
        while x < grid_width
            invariant
                x <= grid_width,
                y < grid_height,
                forall|c: Cell|
                    c.y < y && c.x < grid_width ==> #[trigger] body@.contains(c),
                forall|c: Cell| c.y == y && c.x < x ==> #[trigger] body@.contains(c),
            decreases grid_width - x,
        {
            if !covers(body, x, y) {
                return Some(Cell { x, y });
            }
            x = x + 1;
        }
        y = y + 1;
    }
    None
}

/// The food item occupying one grid cell.
#[derive(Clone, Copy, PartialEq, Eq, Structural, Debug)]
pub struct Food {
    pub pos: Cell,
}

impl Food {
    /// Reposition the food: draw cells uniformly from
    /// `[0, grid_width) x [0, grid_height)`, rejecting any cell occupied by a
    /// snake body segment. Draws are retried up to one per grid cell; should
    /// every draw clash (vanishingly rare while the grid is larger than the
    /// snake), a row-order sweep takes the first free cell, so the call
    /// always terminates on a free cell.
    pub fn update(&mut self, grid_width: u32, grid_height: u32, snake: &Snake)
        requires
            grid_width >= 1,
            grid_height >= 1,
            exists|c: Cell|
                in_bounds_spec(c, grid_width, grid_height) && !snake.body@.contains(c),
        ensures
            in_bounds_spec(final(self).pos, grid_width, grid_height),
            forall|i: int|
                0 <= i < snake.body@.len() ==> final(self).pos != #[trigger] snake.body@[i],
    {
        proof {
            assert((grid_width as u64) * (grid_height as u64) <= u64::MAX) by (nonlinear_arith)
                requires
                    grid_width <= u32::MAX,
                    grid_height <= u32::MAX,
            ;
        }
        let mut attempts: u64 = (grid_width as u64) * (grid_height as u64);
        while attempts > 0
            invariant
                grid_width >= 1,
                grid_height >= 1,
            decreases attempts,
        {
            let cell = Cell { x: random_below(grid_width), y: random_below(grid_height) };
            let clashes = collision_count(cell, &snake.body);
            if clashes == 0 {
                proof {
                    lemma_count_zero_iff_absent(snake.body@, cell);
                }
                self.pos = cell;
                return;
            }
            attempts = attempts - 1;
        }
        match find_free_cell(grid_width, grid_height, &snake.body) {
            Some(cell) => {
                proof {
                    assert forall|i: int|
                        0 <= i < snake.body@.len() implies cell != #[trigger] snake.body@[i] by {
                        if cell == snake.body@[i] {
                            assert(snake.body@.contains(cell));
                        }
                    }
                }
                self.pos = cell;
            },
            None => {
                proof {
                    let c0 = choose|c: Cell|
                        in_bounds_spec(c, grid_width, grid_height) && !snake.body@.contains(c);
                    assert(snake.body@.contains(c0));
                    assert(false);
                }
            },
        }
    }
}

} // verus!
