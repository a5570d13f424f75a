//! Grid geometry: cells addressed by unsigned coordinates, bounds checking,
//! and the pixel rectangle a cell occupies on screen.

use vstd::prelude::*;

verus! {

/// One grid square, addressed by its 0-indexed column `x` and row `y`.
#[derive(Clone, Copy, PartialEq, Eq, Structural, Debug)]
pub struct Cell {
    pub x: u32,
    pub y: u32,
}

/// A cell lies on the grid when both coordinates are below the grid size.
pub open spec fn in_bounds_spec(c: Cell, grid_width: u32, grid_height: u32) -> bool {
    c.x < grid_width && c.y < grid_height
}

/// Bounds check against a `grid_width` by `grid_height` grid.
pub fn in_bounds(c: Cell, grid_width: u32, grid_height: u32) -> (r: bool)
    ensures
        r == in_bounds_spec(c, grid_width, grid_height),
{
    c.x < grid_width && c.y < grid_height
}

/// Pixel bounds of a cell: origin at (`x` * `cell_size`, `y` * `cell_size`),
/// with width and height both `cell_size`. Widened to `u64` so the products
/// cannot overflow.
pub fn cell_to_rect(c: Cell, cell_size: u32) -> (r: (u64, u64, u64, u64))
    ensures
        r.0 == c.x as u64 * cell_size as u64,
        r.1 == c.y as u64 * cell_size as u64,
        r.2 == cell_size as u64,
        r.3 == cell_size as u64,
{
    proof {
        assert(c.x as u64 * cell_size as u64 <= u64::MAX) by (nonlinear_arith)
            requires
                c.x <= u32::MAX,
                cell_size <= u32::MAX,
        ;
        assert(c.y as u64 * cell_size as u64 <= u64::MAX) by (nonlinear_arith)
            requires
                c.y <= u32::MAX,
                cell_size <= u32::MAX,
        ;
    }
    (
        (c.x as u64) * (cell_size as u64),
        (c.y as u64) * (cell_size as u64),
        cell_size as u64,
        cell_size as u64,
    )
}

} // verus!
