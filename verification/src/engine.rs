//! Executable neighbour counting and the generation-advance step.

use vstd::prelude::*;
use crate::grid::Grid;
use crate::rules::{neighbour_count, next_state};

verus! {

/// Counts the live cells among the Moore neighbours of `(x, y)` in `world`.
/// Candidate positions outside the grid are skipped, never wrapped.
pub fn get_neighbour_num(world: &Grid, x: usize, y: usize) -> (n: u8)
    requires
        world.wf(),
        x < world.spec_width(),
        y < world.spec_height(),
    ensures
        n as int == neighbour_count(world, x as int, y as int),
        n <= 8,
{
    let width = world.width();
    let height = world.height();
    let mut n: u8 = 0;
    if x > 0 {
        if y > 0 && world.get(x - 1, y - 1) {
            n = n + 1;
        }
        if world.get(x - 1, y) {
            n = n + 1;
        }
        if y + 1 < height && world.get(x - 1, y + 1) {
            n = n + 1;
        }
    }
    if y > 0 && world.get(x, y - 1) {
        n = n + 1;
    }
    if y + 1 < height && world.get(x, y + 1) {
        n = n + 1;
    }
    if x + 1 < width {
        if y > 0 && world.get(x + 1, y - 1) {
            n = n + 1;
        }
        if world.get(x + 1, y) {
            n = n + 1;
        }
        if y + 1 < height && world.get(x + 1, y + 1) {
            n = n + 1;
        }
    }
    n
}

/// Advances one generation: for every coordinate of the grid, applies the
/// transition rule to the frozen input and writes the result into `out`.
/// The input is read through a shared reference, so it cannot be mutated.
pub fn step(inp: &Grid, out: &mut Grid)
    requires
        inp.wf(),
        old(out).wf(),
        old(out).spec_width() == inp.spec_width(),
        old(out).spec_height() == inp.spec_height(),
    ensures
        final(out).wf(),
        final(out).spec_width() == inp.spec_width(),
        final(out).spec_height() == inp.spec_height(),
        forall|i: int, j: int|
            inp.in_bounds(i, j) ==> final(out).cell(i, j) == next_state(inp, i, j),
{
    let width = inp.width();
    let height = inp.height();
    let mut x: usize = 0;
    while x < width
        invariant
            x <= width,
            inp.wf(),
            out.wf(),
            width == inp.spec_width(),
            height == inp.spec_height(),
            out.spec_width() == inp.spec_width(),
            out.spec_height() == inp.spec_height(),
            forall|i: int, j: int|
                0 <= i < x && 0 <= j < height ==> out.cell(i, j) == next_state(inp, i, j),
        decreases width - x,
    {
        let mut y: usize = 0;
        while y < height
            invariant
                x < width,
                y <= height,
                inp.wf(),
                out.wf(),
                width == inp.spec_width(),
                height == inp.spec_height(),
                out.spec_width() == inp.spec_width(),
                out.spec_height() == inp.spec_height(),
                forall|i: int, j: int|
                    0 <= i < x && 0 <= j < height ==> out.cell(i, j) == next_state(inp, i, j),
                forall|j: int| 0 <= j < y ==> out.cell(x as int, j) == next_state(inp, x as int, j),
            decreases height - y,
        {
            let n = get_neighbour_num(inp, x, y);
            let next = if inp.get(x, y) {
                n == 2 || n == 3
            } else {
                n == 3
            };
            out.set(x, y, next);
            y = y + 1;
        }
        x = x + 1;
    }
}

} // verus!
