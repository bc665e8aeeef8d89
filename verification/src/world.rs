//! Random initial-state generation: each cell is drawn independently with a
//! configurable probability of being alive.

use vstd::prelude::*;
use rand::Rng;
use crate::grid::Grid;
use crate::patterns::{all_dead, all_live};

verus! {

#[verifier::external_type_specification]
#[verifier::external_body]
pub struct ExThreadRng(rand::rngs::ThreadRng);

/// Relies on rand::thread_rng: returns a handle to the process's lazily
/// seeded thread-local random generator.
#[verifier::external_body]
fn new_rng() -> rand::rngs::ThreadRng {
    rand::thread_rng()
}

/// Relies on rand::Rng::gen_ratio: returns true with probability
/// `numerator / denominator`, guaranteed true when `numerator ==
/// denominator` and false when `numerator == 0`; panics when `denominator
/// == 0` or `numerator > denominator`.
#[verifier::external_body]
fn random_ratio_bool(rng: &mut rand::rngs::ThreadRng, numerator: u32, denominator: u32) -> (b: bool)
    requires
        0 < denominator,
        numerator <= denominator,
    ensures
        numerator == denominator ==> b,
        numerator == 0 ==> !b,
{
    rng.gen_ratio(numerator, denominator)
}

/// Produces a fresh grid of the given dimensions in which each cell is
/// alive with probability `numerator / denominator`, drawn independently
/// from the thread-local random generator. With probability 0 every cell is
/// dead, with probability 1 every cell is alive.
pub fn gen_world(width: usize, height: usize, numerator: u32, denominator: u32) -> (g: Grid)
    requires
        width * height <= usize::MAX,
        0 < denominator,
        numerator <= denominator,
    ensures
        g.wf(),
        g.spec_width() == width,
        g.spec_height() == height,
        numerator == 0 ==> all_dead(&g),
        numerator == denominator ==> all_live(&g),
{
    let mut g = Grid::new(width, height);
    let mut rng = new_rng();
    let mut y: usize = 0;
    while y < height
        invariant
            y <= height,
            0 < denominator,
            numerator <= denominator,
            g.wf(),
            g.spec_width() == width,
            g.spec_height() == height,
            numerator == 0 ==> all_dead(&g),
            numerator == denominator
                ==> forall|i: int, j: int| g.in_bounds(i, j) && j < y ==> g.cell(i, j),
        decreases height - y,
    {
        let mut x: usize = 0;
        while x < width
            invariant
                x <= width,
                y < height,
                0 < denominator,
                numerator <= denominator,
                g.wf(),
                g.spec_width() == width,
                g.spec_height() == height,
                numerator == 0 ==> all_dead(&g),
                numerator == denominator
                    ==> forall|i: int, j: int| g.in_bounds(i, j) && j < y ==> g.cell(i, j),
                numerator == denominator
                    ==> forall|i: int| 0 <= i < x ==> g.cell(i, y as int),
            decreases width - x,
        {
            let alive = random_ratio_bool(&mut rng, numerator, denominator);
            g.set(x, y, alive);
            x = x + 1;
        }
        y = y + 1;
    }
    g
}

} // verus!
