//! A stateful sine-tone generator driven by a wrapping sample clock.
//!
//! The oscillator owns the discrete part of the tone: a phase clock that
//! advances by exactly one per call and wraps at the sample rate. The
//! transcendental evaluation `sin(2 * pi * phase * frequency / sample_rate)`
//! is carried out by the output stage, which owns the floating-point
//! sample format; the oscillator's contract pins the phase sequence that
//! feeds it.

use vstd::prelude::*;

verus! {

/// The phase clock of a sine tone.
pub struct ToneOscillator {
    /// Wrapping sample counter; one increment per call.
    pub phase_clock: u32,
    /// The output sample rate the clock wraps at.
    pub sample_rate: u32,
}

impl ToneOscillator {
    /// Well-formedness: a positive sample rate and a phase inside it.
    pub open spec fn wf(self) -> bool {
        &&& self.sample_rate >= 1
        &&& self.phase_clock < self.sample_rate
    }

    /// A fresh oscillator at phase zero.
    pub fn new(sample_rate: u32) -> (r: ToneOscillator)
        requires
            sample_rate >= 1,
        ensures
            r.wf(),
            r.sample_rate == sample_rate,
            r.phase_clock == 0,
    {
        ToneOscillator { phase_clock: 0, sample_rate }
    }

    /// Advances the phase clock by exactly one, wrapping at the sample
    /// rate, and returns the new phase.
    pub fn advance(&mut self) -> (phase: u32)
        requires
            old(self).wf(),
        ensures
            final(self).wf(),
            final(self).sample_rate == old(self).sample_rate,
            final(self).phase_clock == (old(self).phase_clock + 1) % (
            old(self).sample_rate as int),
            phase == final(self).phase_clock,
    {
        self.phase_clock = (self.phase_clock + 1) % self.sample_rate;
        self.phase_clock
    }
}

} // verus!
