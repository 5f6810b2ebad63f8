//! The simulation's only source of randomness: the spawner draws uniform
//! integers through one trusted wrapper.

use vstd::prelude::*;

verus! {

/// Relies on `macroquad::rand::gen_range` (quad_rand's global PCG
/// generator): for an integer type it computes
/// `low + (high - low) * r` in double precision with `r` drawn uniformly
/// in `[0, 1)` and truncates, so for bounds well below the exact float
/// range the result lies in `[low, high]` (rounding can reach the upper
/// bound).  Nothing more is assumed of which value comes back.
#[verifier::external_body]
pub(crate) fn rand_in_range(low: i64, high: i64) -> (r: i64)
    requires
        0 <= low < high,
        high <= 4294967296,
    ensures
        low <= r <= high,
{
    macroquad::rand::gen_range(low, high)
}

} // verus!
