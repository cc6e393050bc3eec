//! Error taxonomy of the synthesis core.

use vstd::prelude::*;

verus! {

/// How a noise range `[min, max]` was malformed at construction time.
#[derive(Clone, Copy, Debug, PartialEq, Eq, Structural)]
pub enum RangeFault {
    /// `max == min`: the range has zero width.
    Equal,
    /// `max < min`: the bounds are inverted.
    Inverted,
}

/// A failure of the synthesis core.
///
/// Construction-time failures abort construction; an entropy failure is
/// fatal for the sample pull in flight and is propagated, never papered
/// over with a substitute value.
#[derive(Clone, Copy, Debug, PartialEq, Eq, Structural)]
pub enum NoiseError {
    /// A generator was configured with an empty or inverted value range.
    InvalidRange(RangeFault),
    /// The underlying entropy source failed to produce random bytes.
    EntropyUnavailable,
}

} // verus!
