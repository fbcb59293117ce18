//! Axis-trigger and deadzone arithmetic, exact over scaled integers.
//!
//! An axis-trigger rule fires while `|raw| / 32767 * 100 >= threshold`, with
//! the threshold in hundredths of full deflection.  The comparison is done
//! exactly as `|raw| * 100 >= threshold * 32767`, with no rounding.  The
//! deadzone is in thousandths and is compared against normalized magnitudes.

use vstd::prelude::*;

use crate::gamepad::{spec_norm_milli, norm_milli};

verus! {

/// The magnitude of a raw reading, scaled by one hundred: the exact
/// numerator of the trigger comparison.
pub open spec fn spec_trigger_value(raw: i16) -> int {
    100 * (if raw >= 0 {
        raw as int
    } else {
        -(raw as int)
    })
}

/// Whether a raw reading meets an axis-trigger threshold: the comparison is
/// inclusive, `|raw| / 32767 * 100 >= threshold` without rounding.
pub open spec fn spec_threshold_met(raw: i16, threshold: u8) -> bool {
    spec_trigger_value(raw) >= threshold * 32767
}

/// Evaluates the trigger comparison on a raw reading.
pub fn threshold_met(raw: i16, threshold: u8) -> (r: bool)
    ensures
        r == spec_threshold_met(raw, threshold),
{
    let magnitude: i32 = if raw >= 0i16 {
        raw as i32
    } else {
        -(raw as i32)
    };
    100i32 * magnitude >= (threshold as i32) * 32767i32
}

/// The trigger value is strictly monotonic in the raw magnitude, and the
/// threshold comparison is inclusive: equality fires, and a reading that
/// fires keeps firing at any larger magnitude.
pub proof fn lemma_trigger_monotonic_inclusive(r1: i16, r2: i16, threshold: u8)
    ensures
        spec_trigger_value(r1) < spec_trigger_value(r2) <==> (if r1 >= 0 {
            r1 as int
        } else {
            -(r1 as int)
        }) < (if r2 >= 0 {
            r2 as int
        } else {
            -(r2 as int)
        }),
        spec_trigger_value(r1) == threshold * 32767 ==> spec_threshold_met(r1, threshold),
        spec_threshold_met(r1, threshold) && spec_trigger_value(r1) <= spec_trigger_value(r2)
            ==> spec_threshold_met(r2, threshold),
{
}

/// Whether a stick pair deflects out of the deadzone: one normalized
/// magnitude strictly exceeds it.  The deadzone is in thousandths.
pub open spec fn spec_over_deadzone(x_raw: i16, y_raw: i16, deadzone: u16) -> bool {
    spec_abs(spec_norm_milli(x_raw)) > deadzone as int || spec_abs(spec_norm_milli(y_raw))
        > deadzone as int
}

/// Whether a stick pair rests inside the deadzone: both normalized
/// magnitudes are strictly below it.
pub open spec fn spec_under_deadzone(x_norm: int, y_norm: int, deadzone: u16) -> bool {
    spec_abs(x_norm) < deadzone as int && spec_abs(y_norm) < deadzone as int
}

/// The magnitude of a spec-level integer.
pub open spec fn spec_abs(v: int) -> int {
    if v >= 0 {
        v
    } else {
        -v
    }
}

/// The magnitude of a normalized reading.
pub fn abs_i32(v: i32) -> (r: i32)
    requires
        -1000 <= v <= 1000,
    ensures
        r == spec_abs(v as int),
{
    if v >= 0i32 {
        v
    } else {
        -v
    }
}

/// Evaluates the deadzone test on a stick pair's raw readings.
pub fn stick_is_over_deadzone(x_raw: i16, y_raw: i16, deadzone: u16) -> (r: bool)
    ensures
        r == spec_over_deadzone(x_raw, y_raw, deadzone),
{
    let nx = abs_i32(norm_milli(x_raw));
    let ny = abs_i32(norm_milli(y_raw));
    nx > deadzone as i32 || ny > deadzone as i32
}

} // verus!
