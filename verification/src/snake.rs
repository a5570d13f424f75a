//! The snake: an ordered body of cells (head first) and a facing direction.
//! Movement pushes a new head and drops the tail; growth appends a tail cell;
//! collision checks look at the current head against the walls and the body.

use vstd::prelude::*;

use crate::grid::Cell;
use crate::grid::in_bounds_spec;

verus! {

/// A facing direction on the grid. `Up` decreases `y`, `Down` increases `y`,
/// `Left` decreases `x`, `Right` increases `x`.
#[derive(Clone, Copy, PartialEq, Eq, Structural, Debug)]
pub enum Direction {
    Up,
    Down,
    Left,
    Right,
}

/// The direction exactly opposite to `d`.
pub open spec fn opposite_spec(d: Direction) -> Direction {
    match d {
        Direction::Up => Direction::Down,
        Direction::Down => Direction::Up,
        Direction::Left => Direction::Right,
        Direction::Right => Direction::Left,
    }
}

/// Executable counterpart of [`opposite_spec`].
pub fn opposite(d: Direction) -> (r: Direction)
    ensures
        r == opposite_spec(d),
{
    match d {
        Direction::Up => Direction::Down,
        Direction::Down => Direction::Up,
        Direction::Left => Direction::Right,
        Direction::Right => Direction::Left,
    }
}

/// How many cells of `body` equal `c`.
pub open spec fn count_matches(body: Seq<Cell>, c: Cell) -> nat
    decreases body.len(),
{
    if body.len() == 0 {
        0
    } else {
        count_matches(body.drop_last(), c) + (if body.last() == c {
            1nat
        } else {
            0nat
        })
    }
}

/// A sequence holds no copy of `c` exactly when its match count is zero.
pub proof fn lemma_count_zero_iff_absent(s: Seq<Cell>, c: Cell)
    ensures
        (count_matches(s, c) == 0) <==> (forall|i: int| 0 <= i < s.len() ==> s[i] != c),
    decreases s.len(),
{
    if s.len() > 0 {
        lemma_count_zero_iff_absent(s.drop_last(), c);
        assert(forall|i: int| 0 <= i < s.len() - 1 ==> s[i] == s.drop_last()[i]);
        assert(s.last() == s[s.len() - 1]);
    }
}

/// The match count splits off the first element.
pub proof fn lemma_count_drop_first(s: Seq<Cell>, c: Cell)
    requires
        s.len() >= 1,
    ensures
        count_matches(s, c) == (if s[0] == c {
            1nat
        } else {
            0nat
        }) + count_matches(s.drop_first(), c),
    decreases s.len(),
{
    if s.len() == 1 {
        assert(s.drop_last() =~= Seq::<Cell>::empty());
        assert(s.drop_first() =~= Seq::<Cell>::empty());
        assert(s.last() == s[0]);
    } else {
        lemma_count_drop_first(s.drop_last(), c);
        assert(s.drop_last().drop_first() =~= s.drop_first().drop_last());
        assert(s.drop_last()[0] == s[0]);
        assert(s.drop_first().last() == s.last());
    }
}

/// How many cells of `body` coincide with `entity`.
pub fn collision_count(entity: Cell, body: &Vec<Cell>) -> (r: usize)
    ensures
        r == count_matches(body@, entity),
{
    let mut count: usize = 0;
    let mut i: usize = 0;
    while i < body.len()
        invariant
            i <= body@.len(),
            count <= i,
            count == count_matches(body@.subrange(0, i as int), entity),
        decreases body@.len() - i,
    {
        proof {
            assert(body@.subrange(0, i + 1).drop_last() =~= body@.subrange(0, i as int));
            assert(body@.subrange(0, i + 1).last() == body@[i as int]);
        }
        if body[i] == entity {
            count = count + 1;
        }
        i = i + 1;
    }
    proof {
        assert(body@.subrange(0, body@.len() as int) =~= body@);
    }
    count
}

/// The snake: `body[0]` is the head, the last element the tail. The body is
/// never empty.
#[derive(Clone, PartialEq, Debug)]
pub struct Snake {
    pub body: Vec<Cell>,
    pub direction: Direction,
}

impl Snake {
    /// A snake is well formed when its body holds at least one cell.
    pub open spec fn wf(self) -> bool {
        self.body@.len() >= 1
    }

    /// The head cell.
    pub open spec fn head_spec(self) -> Cell {
        self.body@[0]
    }

    /// The column the head would reach by one step, as an unbounded integer.
    pub open spec fn next_x(self) -> int {
        match self.direction {
            Direction::Left => self.head_spec().x - 1,
            Direction::Right => self.head_spec().x + 1,
            _ => self.head_spec().x as int,
        }
    }

    /// The row the head would reach by one step, as an unbounded integer.
    pub open spec fn next_y(self) -> int {
        match self.direction {
            Direction::Up => self.head_spec().y - 1,
            Direction::Down => self.head_spec().y + 1,
            _ => self.head_spec().y as int,
        }
    }

    /// One step in the facing direction stays representable in `u32`
    /// coordinates (no move past 0 or past `u32::MAX`).
    pub open spec fn can_step(self) -> bool {
        &&& 0 <= self.next_x() <= u32::MAX
        &&& 0 <= self.next_y() <= u32::MAX
    }

    /// The cell the head reaches by one step; meaningful under [`Self::can_step`].
    pub open spec fn next_head_spec(self) -> Cell {
        Cell { x: self.next_x() as u32, y: self.next_y() as u32 }
    }

    /// Moving one step in the facing direction would leave the grid
    /// `[0, grid_width) x [0, grid_height)`, judged from the head cell.
    pub open spec fn wall_hit_spec(self, grid_width: u32, grid_height: u32) -> bool {
        match self.direction {
            Direction::Up => self.head_spec().y == 0,
            Direction::Down => self.head_spec().y >= grid_height - 1,
            Direction::Left => self.head_spec().x == 0,
            Direction::Right => self.head_spec().x >= grid_width - 1,
        }
    }

    /// Some body cell other than the head sits on the head cell.
    pub open spec fn bites_spec(self) -> bool {
        exists|i: int| 1 <= i < self.body@.len() && #[trigger] self.body@[i] == self.body@[0]
    }

    /// Update the facing direction, unless the request is the exact reverse
    /// of the current direction; a reversal request is silently ignored.
    pub fn set_direction(&mut self, requested: Direction)
        ensures
            final(self).body == old(self).body,
            final(self).direction == (if requested == opposite_spec(old(self).direction) {
                old(self).direction
            } else {
                requested
            }),
    {
        let reverse = opposite(self.direction);
        if requested != reverse {
            self.direction = requested;
        }
    }

    /// The cell one step ahead of the head in the facing direction.
    pub fn next_head(&self) -> (r: Cell)
        requires
            self.wf(),
            self.can_step(),
        ensures
            r == self.next_head_spec(),
    {
        let head = self.body[0];
        match self.direction {
            Direction::Up => Cell { x: head.x, y: head.y - 1 },
            Direction::Down => Cell { x: head.x, y: head.y + 1 },
            Direction::Left => Cell { x: head.x - 1, y: head.y },
            Direction::Right => Cell { x: head.x + 1, y: head.y },
        }
    }

    /// Whether one step ahead lies outside the grid. When the head itself is
    /// on the grid this is exactly "the next head cell is off the grid".
    pub fn will_hit_wall(&self, grid_width: u32, grid_height: u32) -> (r: bool)
        requires
            self.wf(),
            grid_width >= 1,
            grid_height >= 1,
        ensures
            r == self.wall_hit_spec(grid_width, grid_height),
            in_bounds_spec(self.head_spec(), grid_width, grid_height) ==> (r <==> !(0
                <= self.next_x() < grid_width && 0 <= self.next_y() < grid_height)),
    {
        let head = self.body[0];
        match self.direction {
            Direction::Up => head.y == 0,
            Direction::Down => head.y >= grid_height - 1,
            Direction::Left => head.x == 0,
            Direction::Right => head.x >= grid_width - 1,
        }
    }

    /// Whether the head cell occurs more than once in the body.
    pub fn bites_itself(&self) -> (r: bool)
        requires
            self.wf(),
        ensures
            r == self.bites_spec(),
    {
        let head = self.body[0];
        let n = collision_count(head, &self.body);
        proof {
            self.lemma_bite_iff_head_duplicated();
        }
        n != 1
    }

    /// Law: the snake bites itself exactly when its head cell appears more
    /// than once in the body; with the head cell appearing exactly once
    /// there is no bite.
    pub proof fn lemma_bite_iff_head_duplicated(self)
        requires
            self.wf(),
        ensures
            self.bites_spec() <==> count_matches(self.body@, self.body@[0]) != 1,
    {
        let s = self.body@;
        let head = s[0];
        lemma_count_drop_first(s, head);
        lemma_count_zero_iff_absent(s.drop_first(), head);
        if count_matches(s, head) != 1 {
            let j = choose|j: int| 0 <= j < s.drop_first().len() && s.drop_first()[j] == head;
            assert(s[j + 1] == head);
        } else {
            assert forall|i: int| 1 <= i < s.len() implies #[trigger] s[i] != s[0] by {
                assert(s.drop_first()[i - 1] == s[i]);
            }
        }
    }

    /// One tick of motion: the head advances one step and the tail cell is
    /// dropped, so the length is unchanged.
    pub fn update(&mut self)
        requires
            old(self).wf(),
            old(self).can_step(),
        ensures
            final(self).wf(),
            final(self).direction == old(self).direction,
            final(self).body@ == seq![old(self).next_head_spec()] + old(self).body@.drop_last(),
            final(self).body@.len() == old(self).body@.len(),
    {
        let new_head = self.next_head();
        self.body.insert(0, new_head);
        self.body.pop();
        proof {
            assert(self.body@ =~= seq![old(self).next_head_spec()] + old(self).body@.drop_last());
        }
    }

    /// Growth on eating: one cell is appended at the tail end and nothing is
    /// removed, so the length rises by one. The appended cell duplicates the
    /// tail; the next motion tick drops it again, which nets one extra cell
    /// behind the new head.
    pub fn grow(&mut self)
        requires
            old(self).wf(),
        ensures
            final(self).direction == old(self).direction,
            final(self).body@ == old(self).body@.push(old(self).body@.last()),
            final(self).body@.len() == old(self).body@.len() + 1,
    {
        let tail = self.body[self.body.len() - 1];
        self.body.push(tail);
    }
}

} // verus!
