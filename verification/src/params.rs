//! The integer part of the per-frame parameter record.

use vstd::prelude::*;

verus! {

/// Lowest iteration count a frame is ever given.
pub const BASE_ITERATIONS: u32 = 100;

/// The span over which the depth-driven part of the iteration count wraps.
pub const ITERATION_SPAN: u32 = 800;

/// The iteration count for a depth quotient `q`, as a number.
pub open spec fn iteration_count_of(q: int) -> int {
    100 + q % 800
}

/// Iteration count for one frame, from the truncated quotient `12 / zoom²`.
pub fn iteration_count(depth_quotient: u32) -> (n: u32)
    ensures
        n == iteration_count_of(depth_quotient as int),
        100 <= n < 900,
{
    BASE_ITERATIONS + depth_quotient % ITERATION_SPAN
}

} // verus!
