//! Random placement of the fruit.

use vstd::prelude::*;
use crate::geometry::Position;
use rand::Rng;

verus! {

/// Relies on `rand::Rng::gen_range` on the thread-local generator of
/// `rand::thread_rng`, applied to the half-open `i32` range `lo..hi`:
/// the result lies in `[lo, hi)`. The sampling panics on an empty range,
/// which the precondition rules out. Nothing more is assumed of the
/// drawn value: every outcome in the range must be handled.
#[verifier::external_body]
fn random_in_range(lo: i32, hi: i32) -> (r: i32)
    requires
        lo < hi,
    ensures
        lo <= r < hi,
{
    rand::thread_rng().gen_range(lo..hi)
}

impl Position {
    /// A random cell strictly inside the border of a `width` by `height`
    /// board: at distance at least one cell from every edge. This is the
    /// placement rule for the fruit, at construction and after each meal.
    pub fn randnew(width: i32, height: i32) -> (p: Position)
        requires
            3 <= width,
            3 <= height,
        ensures
            1 <= p.x < width - 1,
            1 <= p.y < height - 1,
    {
        Position { x: random_in_range(1, width - 1), y: random_in_range(1, height - 1) }
    }
}

} // verus!
