//! Fixed-point sample values and the normalized-range clamp.

use vstd::prelude::*;

verus! {

/// Full scale of a fixed-point audio sample: the value that stands for `1.0`.
pub const SAMPLE_UNIT: i64 = 65536;

/// What `clamp` returns: the input forced into the normalized audio range
/// `[-SAMPLE_UNIT, SAMPLE_UNIT]`.
pub open spec fn clamp_spec(x: i64) -> int {
    if x > SAMPLE_UNIT {
        SAMPLE_UNIT as int
    } else if x < -(SAMPLE_UNIT as int) {
        -(SAMPLE_UNIT as int)
    } else {
        x as int
    }
}

/// Forces a raw generator output into the normalized audio range before it
/// is handed to the output device.
pub fn clamp(x: i64) -> (r: i64)
    ensures
        r == clamp_spec(x),
        x > SAMPLE_UNIT ==> r == SAMPLE_UNIT,
        x < -SAMPLE_UNIT ==> r == -SAMPLE_UNIT,
        -SAMPLE_UNIT <= x <= SAMPLE_UNIT ==> r == x,
{
    if x > SAMPLE_UNIT {
        SAMPLE_UNIT
    } else if x < -SAMPLE_UNIT {
        -SAMPLE_UNIT
    } else {
        x
    }
}

/// Clamping is idempotent: a value already forced into the normalized range
/// is left unchanged by a second clamp.
pub proof fn lemma_clamp_idempotent(x: i64)
    ensures
        clamp_spec(clamp_spec(x) as i64) == clamp_spec(x),
{
}

} // verus!
