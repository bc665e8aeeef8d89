//! Whole-grid laws of the transition rule: the all-dead grid is absorbing,
//! the 2x2 block is a fixed point, and the blinker oscillates with period 2.

use vstd::prelude::*;
use crate::grid::Grid;
use crate::rules::{live, neighbour_count, next_state};

verus! {

/// Every cell of the grid is dead.
pub open spec fn all_dead(g: &Grid) -> bool {
    forall|x: int, y: int| g.in_bounds(x, y) ==> !g.cell(x, y)
}

/// Every cell of the grid is alive.
pub open spec fn all_live(g: &Grid) -> bool {
    forall|x: int, y: int| g.in_bounds(x, y) ==> g.cell(x, y)
}

/// Law: stepping an all-dead grid produces an all-dead grid; there is no
/// spontaneous generation.
pub proof fn lemma_dead_grid_stays_dead(g: &Grid)
    requires
        all_dead(g),
    ensures
        forall|x: int, y: int| !next_state(g, x, y),
{
    assert forall|x: int, y: int| !next_state(g, x, y) by {
        assert(!live(g, x - 1, y - 1));
        assert(!live(g, x, y - 1));
        assert(!live(g, x + 1, y - 1));
        assert(!live(g, x - 1, y));
        assert(!live(g, x + 1, y));
        assert(!live(g, x - 1, y + 1));
        assert(!live(g, x, y + 1));
        assert(!live(g, x + 1, y + 1));
        assert(neighbour_count(g, x, y) == 0);
    }
}

/// The grid holds exactly a 2x2 block of live cells whose lower corner is
/// `(a, b)`, everything else dead; the block lies fully inside the grid.
pub open spec fn block_at(g: &Grid, a: int, b: int) -> bool {
    &&& g.wf()
    &&& 0 <= a && a + 1 < g.spec_width()
    &&& 0 <= b && b + 1 < g.spec_height()
    &&& forall|x: int, y: int|
        g.in_bounds(x, y) ==> (g.cell(x, y) <==> (a <= x <= a + 1 && b <= y <= b + 1))
}

/// Law: the block is a stable pattern. Every cell of the block has exactly
/// 3 live neighbours and survives, and no dead cell reaches 3, so one step
/// reproduces the grid exactly.
pub proof fn lemma_block_is_fixed_point(g: &Grid, a: int, b: int)
    requires
        block_at(g, a, b),
    ensures
        forall|x: int, y: int| g.in_bounds(x, y) ==> next_state(g, x, y) == g.cell(x, y),
{
    assert forall|x: int, y: int| g.in_bounds(x, y) implies next_state(g, x, y) == g.cell(x, y) by {
        assert(live(g, x - 1, y - 1) <==> (a <= x - 1 <= a + 1 && b <= y - 1 <= b + 1));
        assert(live(g, x, y - 1) <==> (a <= x <= a + 1 && b <= y - 1 <= b + 1));
        assert(live(g, x + 1, y - 1) <==> (a <= x + 1 <= a + 1 && b <= y - 1 <= b + 1));
        assert(live(g, x - 1, y) <==> (a <= x - 1 <= a + 1 && b <= y <= b + 1));
        assert(live(g, x + 1, y) <==> (a <= x + 1 <= a + 1 && b <= y <= b + 1));
        assert(live(g, x - 1, y + 1) <==> (a <= x - 1 <= a + 1 && b <= y + 1 <= b + 1));
        assert(live(g, x, y + 1) <==> (a <= x <= a + 1 && b <= y + 1 <= b + 1));
        assert(live(g, x + 1, y + 1) <==> (a <= x + 1 <= a + 1 && b <= y + 1 <= b + 1));
    }
}

/// The grid holds exactly a vertical 3-cell blinker in column `a`, occupying
/// rows `b` to `b + 2`, everything else dead. One free column is required on
/// each side so the oscillation has room.
pub open spec fn vertical_blinker_at(g: &Grid, a: int, b: int) -> bool {
    &&& g.wf()
    &&& 1 <= a && a + 1 < g.spec_width()
    &&& 0 <= b && b + 2 < g.spec_height()
    &&& forall|x: int, y: int|
        g.in_bounds(x, y) ==> (g.cell(x, y) <==> (x == a && b <= y <= b + 2))
}

/// The grid holds exactly a horizontal 3-cell blinker in row `b + 1`,
/// occupying columns `a - 1` to `a + 1`, everything else dead: the other
/// phase of the blinker at `(a, b)`.
pub open spec fn horizontal_blinker_at(g: &Grid, a: int, b: int) -> bool {
    &&& g.wf()
    &&& 1 <= a && a + 1 < g.spec_width()
    &&& 0 <= b && b + 2 < g.spec_height()
    &&& forall|x: int, y: int|
        g.in_bounds(x, y) ==> (g.cell(x, y) <==> (y == b + 1 && a - 1 <= x <= a + 1))
}

/// Law: one step turns the vertical blinker into the horizontal one.
pub proof fn lemma_blinker_turns_horizontal(g: &Grid, a: int, b: int)
    requires
        vertical_blinker_at(g, a, b),
    ensures
        forall|x: int, y: int|
            g.in_bounds(x, y) ==> (next_state(g, x, y) <==> (y == b + 1 && a - 1 <= x <= a + 1)),
{
    assert forall|x: int, y: int| g.in_bounds(x, y)
        implies (next_state(g, x, y) <==> (y == b + 1 && a - 1 <= x <= a + 1)) by {
        assert(live(g, x - 1, y - 1) <==> (x - 1 == a && b <= y - 1 <= b + 2));
        assert(live(g, x, y - 1) <==> (x == a && b <= y - 1 <= b + 2));
        assert(live(g, x + 1, y - 1) <==> (x + 1 == a && b <= y - 1 <= b + 2));
        assert(live(g, x - 1, y) <==> (x - 1 == a && b <= y <= b + 2));
        assert(live(g, x + 1, y) <==> (x + 1 == a && b <= y <= b + 2));
        assert(live(g, x - 1, y + 1) <==> (x - 1 == a && b <= y + 1 <= b + 2));
        assert(live(g, x, y + 1) <==> (x == a && b <= y + 1 <= b + 2));
        assert(live(g, x + 1, y + 1) <==> (x + 1 == a && b <= y + 1 <= b + 2));
    }
}

/// Law: one step turns the horizontal blinker back into the vertical one.
pub proof fn lemma_blinker_turns_vertical(g: &Grid, a: int, b: int)
    requires
        horizontal_blinker_at(g, a, b),
    ensures
        forall|x: int, y: int|
            g.in_bounds(x, y) ==> (next_state(g, x, y) <==> (x == a && b <= y <= b + 2)),
{
    assert forall|x: int, y: int| g.in_bounds(x, y)
        implies (next_state(g, x, y) <==> (x == a && b <= y <= b + 2)) by {
        assert(live(g, x - 1, y - 1) <==> (y - 1 == b + 1 && a - 1 <= x - 1 <= a + 1));
        assert(live(g, x, y - 1) <==> (y - 1 == b + 1 && a - 1 <= x <= a + 1));
        assert(live(g, x + 1, y - 1) <==> (y - 1 == b + 1 && a - 1 <= x + 1 <= a + 1));
        assert(live(g, x - 1, y) <==> (y == b + 1 && a - 1 <= x - 1 <= a + 1));
        assert(live(g, x + 1, y) <==> (y == b + 1 && a - 1 <= x + 1 <= a + 1));
        assert(live(g, x - 1, y + 1) <==> (y + 1 == b + 1 && a - 1 <= x - 1 <= a + 1));
        assert(live(g, x, y + 1) <==> (y + 1 == b + 1 && a - 1 <= x <= a + 1));
        assert(live(g, x + 1, y + 1) <==> (y + 1 == b + 1 && a - 1 <= x + 1 <= a + 1));
    }
}

/// Law: the blinker oscillates with period 2. If `h` holds the step of a
/// vertical blinker grid `g`, then stepping `h` restores `g` exactly.
pub proof fn lemma_blinker_period_two(g: &Grid, h: &Grid, a: int, b: int)
    requires
        vertical_blinker_at(g, a, b),
        h.wf(),
        h.spec_width() == g.spec_width(),
        h.spec_height() == g.spec_height(),
        forall|x: int, y: int| h.in_bounds(x, y) ==> h.cell(x, y) == next_state(g, x, y),
    ensures
        forall|x: int, y: int| h.in_bounds(x, y) ==> next_state(h, x, y) == g.cell(x, y),
{
    lemma_blinker_turns_horizontal(g, a, b);
    assert(horizontal_blinker_at(h, a, b));
    lemma_blinker_turns_vertical(h, a, b);
}

} // verus!
