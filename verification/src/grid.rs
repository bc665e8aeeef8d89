//! The cell matrix: a fixed-dimension boolean grid indexed `[x][y]`.

use vstd::prelude::*;
use vstd::pervasive::VecAdditionalExecFns;

verus! {

/// A two-dimensional boolean matrix of cell liveness, indexed `[x][y]` with
/// `x` in `[0, width)` and `y` in `[0, height)`. Dimensions are fixed at
/// creation and never change. Cells are stored column-major in a flat vector.
pub struct Grid {
    width: usize,
    height: usize,
    cells: Vec<bool>,
}

impl Grid {
    /// Number of columns.
    pub closed spec fn spec_width(&self) -> int {
        self.width as int
    }

    /// Number of rows.
    pub closed spec fn spec_height(&self) -> int {
        self.height as int
    }

    /// Liveness of the cell at `(x, y)`; meaningful only in bounds.
    pub closed spec fn cell(&self, x: int, y: int) -> bool {
        self.cells@[x * self.height + y]
    }

    /// Well-formedness: the flat storage covers exactly `width * height` cells.
    pub closed spec fn wf(&self) -> bool {
        self.cells@.len() == self.width * self.height
    }

    /// Whether `(x, y)` lies on the grid.
    pub open spec fn in_bounds(&self, x: int, y: int) -> bool {
        0 <= x < self.spec_width() && 0 <= y < self.spec_height()
    }

    /// Creates an all-dead grid of the given dimensions.
    pub fn new(width: usize, height: usize) -> (g: Grid)
        requires
            width * height <= usize::MAX,
        ensures
            g.wf(),
            g.spec_width() == width,
            g.spec_height() == height,
            forall|x: int, y: int| g.in_bounds(x, y) ==> !g.cell(x, y),
    {
        let mut cells: Vec<bool> = Vec::new();
        let total: usize = width * height;
        let mut i: usize = 0;
        while i < total
            invariant
                i <= total,
                cells@.len() == i,
                forall|k: int| 0 <= k < i ==> !cells@[k],
            decreases total - i,
        {
            cells.push(false);
            i = i + 1;
        }
        let g = Grid { width, height, cells };
        proof {
            assert forall|x: int, y: int| g.in_bounds(x, y) implies !g.cell(x, y) by {
                lemma_flat_index_in_range(width as int, height as int, x, y);
            }
        }
        g
    }

    /// Reads the liveness of the cell at `(x, y)`. The result is determined
    /// by the grid's abstract state alone, so repeated reads with no
    /// intervening write return the same value.
    pub fn get(&self, x: usize, y: usize) -> (b: bool)
        requires
            self.wf(),
            x < self.spec_width(),
            y < self.spec_height(),
        ensures
            b == self.cell(x as int, y as int),
    {
        proof {
            vstd::std_specs::vec::axiom_spec_len(&self.cells);
            lemma_flat_index_in_range(self.width as int, self.height as int, x as int, y as int);
        }
        self.cells[x * self.height + y]
    }

    /// Writes a liveness value at `(x, y)`, leaving every other cell and the
    /// dimensions unchanged.
    pub fn set(&mut self, x: usize, y: usize, value: bool)
        requires
            old(self).wf(),
            x < old(self).spec_width(),
            y < old(self).spec_height(),
        ensures
            final(self).wf(),
            final(self).spec_width() == old(self).spec_width(),
            final(self).spec_height() == old(self).spec_height(),
            final(self).cell(x as int, y as int) == value,
            forall|i: int, j: int|
                old(self).in_bounds(i, j) && !(i == x && j == y)
                    ==> final(self).cell(i, j) == old(self).cell(i, j),
    {
        proof {
            vstd::std_specs::vec::axiom_spec_len(&self.cells);
            lemma_flat_index_in_range(self.width as int, self.height as int, x as int, y as int);
        }
        let idx: usize = x * self.height + y;
        self.cells.set(idx, value);
        proof {
            assert forall|i: int, j: int|
                old(self).in_bounds(i, j) && !(i == x && j == y)
                    implies self.cell(i, j) == old(self).cell(i, j) by {
                lemma_flat_index_in_range(self.width as int, self.height as int, i, j);
                if i * self.height as int + j == x * self.height as int + y {
                    lemma_flat_index_injective(self.height as int, i, j, x as int, y as int);
                }
            }
        }
    }

    /// Number of columns, as executable code.
    pub fn width(&self) -> (w: usize)
        ensures
            w == self.spec_width(),
    {
        self.width
    }

    /// Number of rows, as executable code.
    pub fn height(&self) -> (h: usize)
        ensures
            h == self.spec_height(),
    {
        self.height
    }
}

/// A column-major flat index of an in-bounds coordinate lies within the storage.
proof fn lemma_flat_index_in_range(w: int, h: int, x: int, y: int)
    by (nonlinear_arith)
    requires
        0 <= x < w,
        0 <= y < h,
    ensures
        0 <= x * h + y < w * h,
{
}

/// Distinct in-bounds coordinates have distinct column-major flat indices.
proof fn lemma_flat_index_injective(h: int, i: int, j: int, x: int, y: int)
    by (nonlinear_arith)
    requires
        0 <= j < h,
        0 <= y < h,
        i * h + j == x * h + y,
    ensures
        i == x,
        j == y,
{
}

} // verus!
