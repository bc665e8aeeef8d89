//! The cell-to-pixel mapping used when a grid is drawn: cell `(x, y)` fills
//! the square of side `scale` whose top-left pixel is `(x * scale, y * scale)`.

use vstd::prelude::*;

verus! {

/// The pixel rectangle of cell `(x, y)` at the given scale, as
/// `(left, top, width, height)`.
pub fn cell_rect(x: usize, y: usize, scale: u32) -> (r: (i32, i32, u32, u32))
    requires
        x * scale <= i32::MAX,
        y * scale <= i32::MAX,
    ensures
        r.0 == x * scale,
        r.1 == y * scale,
        r.2 == scale,
        r.3 == scale,
{
    let left = (x as u64 * scale as u64) as i32;
    let top = (y as u64 * scale as u64) as i32;
    (left, top, scale, scale)
}

} // verus!
