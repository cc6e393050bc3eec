//! The synthesis engine: one sample clock, one tick counter, and the
//! generators selected at configuration time.
//!
//! The engine owns all generator state exclusively and performs no
//! internal locking: every mutation happens on the thread that currently
//! holds the real-time handle's exclusive access.

use vstd::prelude::*;

use crate::colored::step_contributions;
use crate::colored::step_output;
use crate::colored::ColoredNoiseGenerator;
use crate::colored::DRAW_MAX;
use crate::errors::NoiseError;
use crate::noise_element::element_output;
use crate::noise_element::element_step;
use crate::noise_element::in_scaled_image;
use crate::noise_element::scaled_high;
use crate::noise_element::scaled_low;
use crate::noise_element::NoiseElement;
use crate::random::next_uniform;
use crate::random::UNIFORM_DENOM;
use crate::sample::SAMPLE_UNIT;

verus! {

/// The value a uniform draw numerator `u` is remapped to for direct white
/// noise: the unit interval stretched to `[-SAMPLE_UNIT, SAMPLE_UNIT]`.
pub open spec fn white_sample_spec(u: int) -> int {
    u * 2 * SAMPLE_UNIT / (UNIFORM_DENOM as int) - SAMPLE_UNIT
}

/// Whether `s` is a sample the white-noise remap can actually produce:
/// the image of `white_sample_spec` over all uniform draws.
pub open spec fn in_white_image(s: i64) -> bool {
    exists|u: int| 0 <= u <= UNIFORM_DENOM && s == #[trigger] white_sample_spec(u)
}

/// Remaps a uniform draw numerator over `UNIFORM_DENOM` into a full-scale
/// white-noise sample in `[-SAMPLE_UNIT, SAMPLE_UNIT]`.
pub fn white_sample(u: u16) -> (s: i64)
    requires
        u <= UNIFORM_DENOM,
    ensures
        s == white_sample_spec(u as int),
        -SAMPLE_UNIT <= s <= SAMPLE_UNIT,
{
    proof {
        assert(0 <= (u as int) * 2 * (SAMPLE_UNIT as int) / (UNIFORM_DENOM as int) <= 2
            * SAMPLE_UNIT) by (nonlinear_arith)
            requires
                0 <= u <= UNIFORM_DENOM,
                UNIFORM_DENOM == 765,
                SAMPLE_UNIT == 65536,
        ;
    }
    let num: u64 = (u as u64) * 2 * (SAMPLE_UNIT as u64) / (UNIFORM_DENOM as u64);
    (num as i64) - SAMPLE_UNIT
}

/// The scaled draw fed to the band scan of the colored-noise generator:
/// the uniform numerator stretched to `[0, DRAW_MAX]`.
pub open spec fn band_draw_spec(u: int) -> int {
    u * (DRAW_MAX as int) / (UNIFORM_DENOM as int)
}

/// Scales a uniform draw numerator to the band-selection range
/// `[0, DRAW_MAX]`.
pub fn band_draw(u: u16) -> (r: u16)
    requires
        u <= UNIFORM_DENOM,
    ensures
        r == band_draw_spec(u as int),
        r <= DRAW_MAX,
{
    ((u as u64) * (DRAW_MAX as u64) / (UNIFORM_DENOM as u64)) as u16
}

/// The signed value draw fed to the colored-noise generator: the uniform
/// numerator stretched to `[-DRAW_MAX, DRAW_MAX]`.
pub open spec fn value_draw_spec(u: int) -> int {
    u * 2 * (DRAW_MAX as int) / (UNIFORM_DENOM as int) - DRAW_MAX
}

/// Scales a uniform draw numerator to the signed contribution range
/// `[-DRAW_MAX, DRAW_MAX]`.
pub fn value_draw(u: u16) -> (r: i64)
    requires
        u <= UNIFORM_DENOM,
    ensures
        r == value_draw_spec(u as int),
        -(DRAW_MAX as int) <= r <= DRAW_MAX as int,
{
    proof {
        assert(0 <= (u as int) * 2 * (DRAW_MAX as int) / (UNIFORM_DENOM as int) <= 2 * (
        DRAW_MAX as int)) by (nonlinear_arith)
            requires
                0 <= u <= UNIFORM_DENOM,
                UNIFORM_DENOM == 765,
                DRAW_MAX == 32767,
        ;
    }
    let num: u64 = (u as u64) * 2 * (DRAW_MAX as u64) / (UNIFORM_DENOM as u64);
    (num as i64) - (DRAW_MAX as i64)
}

/// The synthesis algorithm a pull is asked for. Exactly one pull method
/// runs per output sample; the selector names which.
#[derive(Clone, Copy, Debug, PartialEq, Eq, Structural)]
pub enum Algorithm {
    /// Direct white noise: one fresh uniform draw per sample.
    WhiteNoise,
    /// Sparse periodic noise from the pre-drawn element buffer.
    ElementNoise,
    /// The multi-band pink-noise approximation.
    ColoredNoise,
}

/// The synthesis engine.
pub struct AudioProcessor {
    /// Wrapping per-frame counter used to derive phase-based signals.
    pub sample_clock: u32,
    /// The output sample rate, fixed at construction.
    pub sample_rate: u32,
    /// Monotonic tick counter driving the periodic noise element.
    pub tick: u64,
    /// The periodic noise element, when one was configured.
    pub element: Option<NoiseElement>,
    /// The pink-noise approximation; quiet until pulled.
    pub colored: ColoredNoiseGenerator,
}

impl AudioProcessor {
    /// Well-formedness of the engine and of every generator it owns.
    pub open spec fn wf(self) -> bool {
        &&& self.sample_rate >= 1
        &&& self.sample_clock < self.sample_rate
        &&& self.colored.wf()
        &&& (self.element matches Some(el) ==> el.wf())
    }

    /// A fresh engine at clock zero, with no periodic noise element
    /// configured.
    pub fn new(sample_rate: u32) -> (r: AudioProcessor)
        requires
            sample_rate >= 1,
        ensures
            r.wf(),
            r.sample_rate == sample_rate,
            r.sample_clock == 0,
            r.tick == 0,
            r.element is None,
            r.colored.accumulator == 0,
    {
        AudioProcessor {
            sample_clock: 0,
            sample_rate,
            tick: 0,
            element: None,
            colored: ColoredNoiseGenerator::new(),
        }
    }

    /// A fresh engine with a periodic noise element for the range
    /// `[min, max]`, drawing a fresh value every `occurrence`-th tick.
    ///
    /// Fails exactly as `NoiseElement::new` does: fast, loudly, and with
    /// no partially built engine.
    pub fn with_element(sample_rate: u32, occurrence: u32, min: i32, max: i32) -> (r: Result<
        AudioProcessor,
        NoiseError,
    >)
        requires
            sample_rate >= 1,
            occurrence >= 1,
        ensures
            max == min ==> r == Err::<AudioProcessor, NoiseError>(
                NoiseError::InvalidRange(crate::errors::RangeFault::Equal),
            ),
            max < min ==> r == Err::<AudioProcessor, NoiseError>(
                NoiseError::InvalidRange(crate::errors::RangeFault::Inverted),
            ),
            min < max && r is Err ==> r == Err::<AudioProcessor, NoiseError>(
                NoiseError::EntropyUnavailable,
            ),
            r matches Ok(p) ==> {
                &&& p.wf()
                &&& p.sample_rate == sample_rate
                &&& p.sample_clock == 0
                &&& p.tick == 0
                &&& p.element matches Some(el) && el.occurrence == occurrence && el.min == min
                    && el.max == max && el.buffer@.len() == sample_rate && el.cursor == 0 && (
                forall|j: int|
                    0 <= j < el.buffer@.len() ==> in_scaled_image(
                        #[trigger] el.buffer@[j],
                        min,
                        max,
                    ))
            },
    {
        let element = match NoiseElement::new(occurrence, min, max, sample_rate) {
            Ok(el) => el,
            Err(e) => {
                return Err(e);
            },
        };
        Ok(
            AudioProcessor {
                sample_clock: 0,
                sample_rate,
                tick: 0,
                element: Some(element),
                colored: ColoredNoiseGenerator::new(),
            },
        )
    }

    /// Advances the sample clock by exactly one, wrapping at the sample
    /// rate.
    pub fn increment_sample_clock(&mut self)
        requires
            old(self).wf(),
        ensures
            final(self).wf(),
            final(self).sample_clock == (old(self).sample_clock + 1) % (
            old(self).sample_rate as int),
            final(self).sample_rate == old(self).sample_rate,
            final(self).tick == old(self).tick,
            final(self).element == old(self).element,
            final(self).colored == old(self).colored,
    {
        self.sample_clock = (self.sample_clock + 1) % self.sample_rate;
    }

    /// Advances the sample clock and returns the new phase, for the output
    /// stage to evaluate the sine tone at.
    pub fn tone_phase(&mut self) -> (phase: u32)
        requires
            old(self).wf(),
        ensures
            final(self).wf(),
            final(self).sample_clock == (old(self).sample_clock + 1) % (
            old(self).sample_rate as int),
            phase == final(self).sample_clock,
            final(self).sample_rate == old(self).sample_rate,
            final(self).tick == old(self).tick,
            final(self).element == old(self).element,
            final(self).colored == old(self).colored,
    {
        self.increment_sample_clock();
        self.sample_clock
    }

    /// One pull of direct white noise: a fresh uniform draw remapped to
    /// full scale. The engine's state is untouched.
    ///
    /// An entropy failure is propagated, never replaced by a substitute
    /// sample.
    pub fn white_noise(&mut self) -> (r: Result<i64, NoiseError>)
        requires
            old(self).wf(),
        ensures
            *final(self) == *old(self),
            final(self).wf(),
            r matches Ok(s) ==> -SAMPLE_UNIT <= s <= SAMPLE_UNIT,
            r matches Ok(s) ==> in_white_image(s),
            r is Err ==> r == Err::<i64, NoiseError>(NoiseError::EntropyUnavailable),
    {
        match next_uniform() {
            Ok(u) => Ok(white_sample(u)),
            Err(e) => Err(e),
        }
    }

    /// One pull of the pink-noise approximation: the clock advances, two
    /// fresh draws are scaled, and the colored-noise generator steps once.
    ///
    /// On success the sample equals the post-update accumulator shifted
    /// right by 16 bits; on an entropy failure the error is propagated and
    /// no band changes.
    pub fn pink_noise(&mut self) -> (r: Result<i64, NoiseError>)
        requires
            old(self).wf(),
        ensures
            final(self).wf(),
            final(self).sample_clock == (old(self).sample_clock + 1) % (
            old(self).sample_rate as int),
            final(self).sample_rate == old(self).sample_rate,
            final(self).tick == old(self).tick,
            final(self).element == old(self).element,
            r matches Ok(s) ==> s == final(self).colored.accumulator >> 16,
            r matches Ok(s) ==> exists|u: int, v: int|
                0 <= u <= DRAW_MAX && -(DRAW_MAX as int) <= v <= DRAW_MAX as int
                    && final(self).colored.contributions@ == #[trigger] step_contributions(
                    old(self).colored.contributions@,
                    u,
                    v,
                ) && s == step_output(old(self).colored.contributions@, u, v),
            r is Err ==> r == Err::<i64, NoiseError>(NoiseError::EntropyUnavailable)
                && final(self).colored == old(self).colored,
    {
        self.increment_sample_clock();
        let u = match next_uniform() {
            Ok(u) => u,
            Err(e) => {
                return Err(e);
            },
        };
        let w = match next_uniform() {
            Ok(w) => w,
            Err(e) => {
                return Err(e);
            },
        };
        let band = band_draw(u);
        let value = value_draw(w);
        Ok(self.colored.step(band, value))
    }

    /// One tick of the periodic noise element: the tick counter advances
    /// and the element yields either exactly `0` or, on every
    /// `occurrence`-th tick, the next pre-drawn buffer value.
    pub fn element_noise(&mut self) -> (r: i64)
        requires
            old(self).wf(),
            old(self).element is Some,
            old(self).tick < u64::MAX,
        ensures
            final(self).wf(),
            final(self).tick == old(self).tick + 1,
            final(self).sample_clock == old(self).sample_clock,
            final(self).sample_rate == old(self).sample_rate,
            final(self).colored == old(self).colored,
            final(self).element is Some,
            old(self).element matches Some(oe) ==> final(self).element == Some(
                element_step(oe, old(self).tick + 1),
            ) && r == element_output(oe, old(self).tick + 1),
            ({
                let oe = old(self).element->Some_0;
                let ne = final(self).element->Some_0;
                &&& ne.occurrence == oe.occurrence
                &&& ne.min == oe.min
                &&& ne.max == oe.max
                &&& ne.buffer@ == oe.buffer@
                &&& if (old(self).tick + 1) % (oe.occurrence as int) == 0 {
                    &&& ne.cursor == (oe.cursor + 1) % (oe.buffer@.len() as int)
                    &&& r == oe.buffer@[ne.cursor as int]
                } else {
                    &&& ne.cursor == oe.cursor
                    &&& r == 0
                }
            }),
    {
        self.tick = self.tick + 1;
        let mut el = match self.element.take() {
            Some(el) => el,
            None => {
                proof {
                    assert(false);
                }
                unreached()
            },
        };
        let r = el.next(self.tick);
        self.element = Some(el);
        r
    }

    /// One pull of the selected algorithm: exactly one sample, produced by
    /// exactly one of the pull methods.
    ///
    /// The element algorithm never fails (its randomness was drawn at
    /// construction); the other two fail only when the entropy source does,
    /// and the failure is propagated.
    pub fn pull_sample(&mut self, alg: Algorithm) -> (r: Result<i64, NoiseError>)
        requires
            old(self).wf(),
            alg == Algorithm::ElementNoise ==> old(self).element is Some && old(self).tick
                < u64::MAX,
        ensures
            final(self).wf(),
            final(self).sample_rate == old(self).sample_rate,
            (final(self).element is Some <==> old(self).element is Some),
            final(self).tick <= old(self).tick + 1,
            alg == Algorithm::ElementNoise ==> r is Ok && final(self).tick == old(self).tick + 1,
            alg != Algorithm::ElementNoise ==> final(self).tick == old(self).tick,
            r is Err ==> r == Err::<i64, NoiseError>(NoiseError::EntropyUnavailable),
            // direct white noise: the engine untouched, the sample an
            // actual remap of some uniform draw
            alg == Algorithm::WhiteNoise ==> *final(self) == *old(self),
            alg == Algorithm::WhiteNoise ==> (r matches Ok(s) ==> -SAMPLE_UNIT <= s <= SAMPLE_UNIT
                && in_white_image(s)),
            // colored noise: the clock advances, the element is untouched,
            // and state and sample are one band step on two scaled draws
            alg == Algorithm::ColoredNoise ==> final(self).element == old(self).element
                && final(self).sample_clock == (old(self).sample_clock + 1) % (
            old(self).sample_rate as int),
            alg == Algorithm::ColoredNoise ==> (r matches Ok(s) ==> s
                == final(self).colored.accumulator >> 16 && exists|u: int, v: int|
                0 <= u <= DRAW_MAX && -(DRAW_MAX as int) <= v <= DRAW_MAX as int
                    && final(self).colored.contributions@ == #[trigger] step_contributions(
                    old(self).colored.contributions@,
                    u,
                    v,
                ) && s == step_output(old(self).colored.contributions@, u, v)),
            alg == Algorithm::ColoredNoise ==> (r is Err ==> final(self).colored
                == old(self).colored),
            // element noise: exactly one tick of the periodic element, the
            // clock and the colored state untouched
            alg == Algorithm::ElementNoise ==> final(self).sample_clock == old(self).sample_clock
                && final(self).colored == old(self).colored,
            alg == Algorithm::ElementNoise ==> (old(self).element matches Some(oe)
                ==> final(self).element == Some(element_step(oe, old(self).tick + 1)) && (
            r matches Ok(s) ==> s == element_output(oe, old(self).tick + 1))),
            alg == Algorithm::ElementNoise ==> (old(self).element matches Some(oe) ==> (
            r matches Ok(s) ==> scaled_low(oe.min, oe.max) <= s <= scaled_high(oe.min, oe.max))),
    {
        match alg {
            Algorithm::WhiteNoise => self.white_noise(),
            Algorithm::ElementNoise => Ok(self.element_noise()),
            Algorithm::ColoredNoise => self.pink_noise(),
        }
    }
}

} // verus!
