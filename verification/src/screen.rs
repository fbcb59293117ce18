//! Projection of an absolute-mode stick position onto a monitor dimension.
//!
//! The normalized stick value runs through a fixed nonlinear widening
//! factor of 1.314159, is shifted from `-1..1` into `0..2`, halved, and
//! scaled to the monitor's extent, rounding half away from zero — all exact
//! over integers.  A full deflection therefore lands a little outside the
//! monitor edge; the shell clamps where its windowing layer requires it.

use vstd::prelude::*;

verus! {

/// The widening factor, in millionths.
pub const PROJECTION_SCALE_MICRO: i64 = 1_314_159;

/// Rounding to the nearest integer, halves away from zero.
pub open spec fn spec_round_half_away(n: int, d: int) -> int
    recommends
        d > 0,
{
    if n >= 0 {
        (2 * n + d) / (2 * d)
    } else {
        -((2 * -n + d) / (2 * d))
    }
}

/// Where a normalized stick value lands on a monitor dimension:
/// `round(((value * 1.314159) + 1) / 2 * extent)` with the value in
/// thousandths of full deflection.
pub open spec fn spec_project(value_milli: int, extent: int) -> int {
    spec_round_half_away((value_milli * 1_314_159 + 1_000_000_000) * extent, 2_000_000_000)
}

/// The projection numerator stays well inside a signed 64-bit word.
proof fn lemma_projection_bound(a: int, e: int)
    requires
        -314_159_000 <= a <= 2_314_159_000,
        0 <= e <= 1_000_000,
    ensures
        -314_159_000_000_000 <= a * e <= 2_314_159_000_000_000,
{
    assert(-314_159_000_000_000 <= a * e <= 2_314_159_000_000_000) by (nonlinear_arith)
        requires
            -314_159_000 <= a <= 2_314_159_000,
            0 <= e <= 1_000_000,
    ;
}

/// Projects one normalized stick coordinate onto one monitor dimension,
/// exactly as [`spec_project`].
pub fn project_stick_to_screen(value_milli: i32, extent: u32) -> (r: i64)
    requires
        -1000 <= value_milli <= 1000,
        extent <= 1_000_000,
    ensures
        r == spec_project(value_milli as int, extent as int),
{
    let shifted: i64 = (value_milli as i64) * PROJECTION_SCALE_MICRO + 1_000_000_000;
    proof {
        lemma_projection_bound(shifted as int, extent as int);
    }
    let num: i64 = shifted * (extent as i64);
    if num >= 0 {
        (2 * num + 2_000_000_000) / 4_000_000_000
    } else {
        -((2 * -num + 2_000_000_000) / 4_000_000_000)
    }
}

} // verus!
