//! The Game of Life transition rule: Moore neighbour counting on a bounded
//! grid, and the per-cell birth/survival rule.

use vstd::prelude::*;
use crate::grid::Grid;

verus! {

/// Whether the cell at `(x, y)` exists and is alive. Positions outside the
/// grid count as dead: the grid is bounded, not toroidal.
pub open spec fn live(g: &Grid, x: int, y: int) -> bool {
    g.in_bounds(x, y) && g.cell(x, y)
}

/// 1 if alive, 0 if not.
pub open spec fn as_count(b: bool) -> int {
    if b {
        1
    } else {
        0
    }
}

/// The number of live cells among the up-to-8 in-bounds Moore neighbours of
/// `(x, y)`: the 8 offsets `(dx, dy)` with `dx, dy` in `{-1, 0, 1}`, except
/// `(0, 0)`; offsets that land outside the grid contribute nothing.
pub open spec fn neighbour_count(g: &Grid, x: int, y: int) -> int {
    as_count(live(g, x - 1, y - 1)) + as_count(live(g, x, y - 1)) + as_count(live(g, x + 1, y - 1))
        + as_count(live(g, x - 1, y)) + as_count(live(g, x + 1, y))
        + as_count(live(g, x - 1, y + 1)) + as_count(live(g, x, y + 1))
        + as_count(live(g, x + 1, y + 1))
}

/// The state of cell `(x, y)` in the next generation: a live cell survives
/// with exactly 2 or 3 live neighbours; a dead cell is born with exactly 3.
pub open spec fn next_state(g: &Grid, x: int, y: int) -> bool {
    if g.cell(x, y) {
        neighbour_count(g, x, y) == 2 || neighbour_count(g, x, y) == 3
    } else {
        neighbour_count(g, x, y) == 3
    }
}

/// Law: for every coordinate, the neighbour count lies in `[0, 8]`.
pub proof fn lemma_neighbour_count_range(g: &Grid, x: int, y: int)
    ensures
        0 <= neighbour_count(g, x, y) <= 8,
{
}

/// Law: a cell on the border of the grid has at most 5 possible neighbours,
/// and a corner cell at most 3, so the count is bounded accordingly.
pub proof fn lemma_border_count(g: &Grid, x: int, y: int)
    requires
        g.in_bounds(x, y),
        x == 0 || x == g.spec_width() - 1 || y == 0 || y == g.spec_height() - 1,
    ensures
        neighbour_count(g, x, y) <= 5,
        (x == 0 || x == g.spec_width() - 1) && (y == 0 || y == g.spec_height() - 1)
            ==> neighbour_count(g, x, y) <= 3,
{
}

/// Law: a live cell with no live neighbours dies in the next generation.
pub proof fn lemma_isolated_cell_dies(g: &Grid, x: int, y: int)
    requires
        g.cell(x, y),
        neighbour_count(g, x, y) == 0,
    ensures
        !next_state(g, x, y),
{
}

/// Law: a live cell survives exactly when it has 2 or 3 live neighbours;
/// with 0, 1, or 4 and more it dies.
pub proof fn lemma_live_cell_rule(g: &Grid, x: int, y: int)
    requires
        g.cell(x, y),
    ensures
        next_state(g, x, y) <==> (neighbour_count(g, x, y) == 2 || neighbour_count(g, x, y) == 3),
{
}

/// Law: a dead cell becomes alive exactly when it has 3 live neighbours;
/// any other count keeps it dead.
pub proof fn lemma_dead_cell_rule(g: &Grid, x: int, y: int)
    requires
        !g.cell(x, y),
    ensures
        next_state(g, x, y) <==> neighbour_count(g, x, y) == 3,
{
}

} // verus!
