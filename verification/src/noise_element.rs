//! A periodically refreshed buffer of pre-drawn random values.
//!
//! A `NoiseElement` decouples the rate at which fresh random values are
//! chosen from the output sample rate: the buffer is materialized once at
//! construction by a single batch draw, and the cursor advances only on
//! every `occurrence`-th tick; all other ticks yield exactly `0`.
//!
//! Scaling of a raw byte keeps the characteristic mapping of the
//! synthesizer: `b * (max - min) / 255 - (max - min) / 2`, a range of
//! width `max - min` centered at zero rather than `[min, max]` itself.

use vstd::prelude::*;

use crate::errors::NoiseError;
use crate::errors::RangeFault;
use crate::random::random_buffer;

verus! {

/// The value a raw random byte is scaled to for a noise range `[min, max]`:
/// the range's width applied to the byte, recentered around zero.
pub open spec fn scaled_value(b: u8, min: i32, max: i32) -> int {
    b * (max - min) / 255 - (max - min) / 2
}

/// The lowest value `scaled_value` can take for the range `[min, max]`.
pub open spec fn scaled_low(min: i32, max: i32) -> int {
    -((max - min) / 2)
}

/// The highest value `scaled_value` can take for the range `[min, max]`.
pub open spec fn scaled_high(min: i32, max: i32) -> int {
    (max - min) - (max - min) / 2
}

/// Whether `v` is a value the byte scaling can actually produce for the
/// range `[min, max]`: the image of `scaled_value` over all bytes.
pub open spec fn in_scaled_image(v: i64, min: i32, max: i32) -> bool {
    exists|b: u8| v == #[trigger] scaled_value(b, min, max)
}

/// Scales one raw random byte into the zero-centered noise range of width
/// `max - min`.
pub fn scale_byte(b: u8, min: i32, max: i32) -> (r: i64)
    requires
        min < max,
    ensures
        r == scaled_value(b, min, max),
        scaled_low(min, max) <= r <= scaled_high(min, max),
{
    let d: u64 = (max as i64 - min as i64) as u64;
    proof {
        assert(1 <= d <= 0xffff_ffffu64);
        assert(b as int * d as int <= 255 * d as int) by (nonlinear_arith)
            requires
                0 <= b <= 255,
                d >= 0,
        ;
    }
    let num: u64 = (b as u64) * d / 255;
    proof {
        assert(num <= d);
    }
    (num as i64) - ((d / 2) as i64)
}

/// The element state after one tick: on a tick that is a multiple of the
/// occurrence stride the cursor advances by one, wrapping at the buffer
/// length; any other tick leaves the element unchanged.
pub open spec fn element_step(el: NoiseElement, tick: int) -> NoiseElement {
    if tick % (el.occurrence as int) == 0 {
        NoiseElement { cursor: ((el.cursor + 1) % (el.buffer@.len() as int)) as usize, ..el }
    } else {
        el
    }
}

/// The value one tick yields: the buffer value under the advanced cursor
/// on a tick that is a multiple of the occurrence stride, exactly `0`
/// otherwise.
pub open spec fn element_output(el: NoiseElement, tick: int) -> i64 {
    if tick % (el.occurrence as int) == 0 {
        el.buffer@[(el.cursor + 1) % (el.buffer@.len() as int)]
    } else {
        0
    }
}

/// The element state after the run of `n` consecutive ticks
/// `start + 1, ..., start + n`.
pub open spec fn element_run_state(el: NoiseElement, start: int, n: nat) -> NoiseElement
    decreases n,
{
    if n == 0 {
        el
    } else {
        element_run_state(element_step(el, start + 1), start + 1, (n - 1) as nat)
    }
}

/// The values the run of `n` consecutive ticks `start + 1, ..., start + n`
/// yields, in tick order.
pub open spec fn element_run_outputs(el: NoiseElement, start: int, n: nat) -> Seq<i64>
    decreases n,
{
    if n == 0 {
        Seq::empty()
    } else {
        seq![element_output(el, start + 1)].add(
            element_run_outputs(element_step(el, start + 1), start + 1, (n - 1) as nat),
        )
    }
}

/// A run yields exactly one value per tick.
pub proof fn lemma_element_run_len(el: NoiseElement, start: int, n: nat)
    ensures
        element_run_outputs(el, start, n).len() == n,
    decreases n,
{
    if n != 0 {
        lemma_element_run_len(element_step(el, start + 1), start + 1, (n - 1) as nat);
    }
}

/// Extending a run by one tick steps the final state once and appends that
/// step's output.
pub proof fn lemma_element_run_snoc(el: NoiseElement, start: int, n: nat)
    ensures
        element_run_state(el, start, n + 1) == element_step(
            element_run_state(el, start, n),
            start + n + 1,
        ),
        element_run_outputs(el, start, n + 1) == element_run_outputs(el, start, n).push(
            element_output(element_run_state(el, start, n), start + n + 1),
        ),
    decreases n,
{
    if n == 0 {
        reveal_with_fuel(element_run_state, 3);
        reveal_with_fuel(element_run_outputs, 3);
        assert(element_run_outputs(el, start, 1) =~= element_run_outputs(el, start, 0).push(
            element_output(el, start + 1),
        ));
    } else {
        lemma_element_run_snoc(element_step(el, start + 1), start + 1, (n - 1) as nat);
        assert(element_run_outputs(el, start, n + 1) =~= element_run_outputs(el, start, n).push(
            element_output(element_run_state(el, start, n), start + n + 1),
        ));
    }
}

/// A run never touches the buffer, the stride or the range, keeps the
/// element well formed, and yields one value per tick.
pub proof fn lemma_element_run_preserves(el: NoiseElement, start: int, n: nat)
    requires
        el.wf(),
    ensures
        element_run_state(el, start, n).wf(),
        element_run_state(el, start, n).buffer@ == el.buffer@,
        element_run_state(el, start, n).occurrence == el.occurrence,
        element_run_state(el, start, n).min == el.min,
        element_run_state(el, start, n).max == el.max,
        element_run_outputs(el, start, n).len() == n,
    decreases n,
{
    if n != 0 {
        lemma_element_run_preserves(element_step(el, start + 1), start + 1, (n - 1) as nat);
    }
}

/// The `i`-th value of a run is the output of one tick taken from the
/// state the first `i` ticks left behind.
pub proof fn lemma_element_run_index(el: NoiseElement, start: int, n: nat, i: int)
    requires
        0 <= i < n,
    ensures
        element_run_outputs(el, start, n)[i] == element_output(
            element_run_state(el, start, i as nat),
            start + i + 1,
        ),
    decreases i,
{
    lemma_element_run_len(element_step(el, start + 1), start + 1, (n - 1) as nat);
    if i > 0 {
        lemma_element_run_index(element_step(el, start + 1), start + 1, (n - 1) as nat, i - 1);
    }
}

/// Periodic sparsity of the noise element: across any run of consecutive
/// ticks, every tick that is not a multiple of the occurrence stride
/// yields exactly `0`, and every tick that is advances the cursor once
/// (wrapping at the buffer length) and yields the buffer value under it;
/// the buffer, the stride and the range never change.
pub proof fn lemma_element_periodicity(el: NoiseElement, start: int, n: nat, i: int)
    requires
        el.wf(),
        0 <= i < n,
    ensures
        element_run_outputs(el, start, n).len() == n,
        element_run_state(el, start, n).buffer@ == el.buffer@,
        element_run_state(el, start, n).occurrence == el.occurrence,
        (start + i + 1) % (el.occurrence as int) != 0 ==> element_run_outputs(el, start, n)[i]
            == 0,
        (start + i + 1) % (el.occurrence as int) == 0 ==> element_run_outputs(el, start, n)[i]
            == el.buffer@[(element_run_state(el, start, i as nat).cursor + 1) % (
        el.buffer@.len() as int)],
{
    lemma_element_run_preserves(el, start, n);
    lemma_element_run_preserves(el, start, i as nat);
    lemma_element_run_index(el, start, n, i);
}

/// A stateful, periodically refreshed buffer of pre-drawn noise values.
pub struct NoiseElement {
    /// A fresh value is produced only on every `occurrence`-th tick.
    pub occurrence: u32,
    /// The pre-drawn values, one batch draw at construction.
    pub buffer: Vec<i64>,
    /// Index of the most recently returned value; wraps at the buffer length.
    pub cursor: usize,
    /// Lower bound of the configured noise range, in fixed point.
    pub min: i32,
    /// Upper bound of the configured noise range, in fixed point.
    pub max: i32,
}

impl NoiseElement {
    /// Well-formedness: a positive occurrence stride, a strictly widening
    /// range, a non-empty buffer of values inside the zero-centered range,
    /// and a cursor inside the buffer.
    pub open spec fn wf(self) -> bool {
        &&& self.occurrence >= 1
        &&& self.min < self.max
        &&& self.buffer@.len() >= 1
        &&& self.cursor < self.buffer@.len()
        &&& forall|j: int|
            0 <= j < self.buffer@.len() ==> scaled_low(self.min, self.max)
                <= #[trigger] self.buffer@[j] <= scaled_high(self.min, self.max)
    }

    /// Builds a noise element for the range `[min, max]` by drawing
    /// `sample_rate` independent random values in one batch.
    ///
    /// An empty range fails with `RangeFault::Equal` and an inverted one
    /// with `RangeFault::Inverted`; no partially built element escapes.
    pub fn new(occurrence: u32, min: i32, max: i32, sample_rate: u32) -> (r: Result<
        NoiseElement,
        NoiseError,
    >)
        requires
            occurrence >= 1,
            sample_rate >= 1,
        ensures
            max == min ==> r == Err::<NoiseElement, NoiseError>(
                NoiseError::InvalidRange(RangeFault::Equal),
            ),
            max < min ==> r == Err::<NoiseElement, NoiseError>(
                NoiseError::InvalidRange(RangeFault::Inverted),
            ),
            min < max && r is Err ==> r == Err::<NoiseElement, NoiseError>(
                NoiseError::EntropyUnavailable,
            ),
            r matches Ok(el) ==> {
                &&& el.wf()
                &&& el.occurrence == occurrence
                &&& el.min == min
                &&& el.max == max
                &&& el.cursor == 0
                &&& el.buffer@.len() == sample_rate
                &&& forall|j: int|
                    0 <= j < el.buffer@.len() ==> in_scaled_image(
                        #[trigger] el.buffer@[j],
                        min,
                        max,
                    )
            },
    {
        if max == min {
            return Err(NoiseError::InvalidRange(RangeFault::Equal));
        }
        if max < min {
            return Err(NoiseError::InvalidRange(RangeFault::Inverted));
        }
        let bytes = match random_buffer(sample_rate as usize) {
            Ok(b) => b,
            Err(_) => {
                return Err(NoiseError::EntropyUnavailable);
            },
        };
        let mut buffer: Vec<i64> = Vec::new();
        let mut j: usize = 0;
        while j < bytes.len()
            invariant
                min < max,
                j <= bytes.len(),
                bytes@.len() == sample_rate,
                buffer@.len() == j,
                forall|k: int|
                    0 <= k < j ==> scaled_low(min, max) <= #[trigger] buffer@[k] <= scaled_high(
                        min,
                        max,
                    ),
                forall|k: int| 0 <= k < j ==> #[trigger] buffer@[k] == scaled_value(bytes@[k], min, max),
            decreases bytes@.len() - j,
        {
            buffer.push(scale_byte(bytes[j], min, max));
            j += 1;
        }
        proof {
            assert forall|k: int| 0 <= k < buffer@.len() implies in_scaled_image(
                #[trigger] buffer@[k],
                min,
                max,
            ) by {
                assert(buffer@[k] == scaled_value(bytes@[k], min, max));
            }
        }
        Ok(NoiseElement { occurrence, buffer, cursor: 0, min, max })
    }

    /// One tick of the element's clock.
    ///
    /// On every tick that is a multiple of `occurrence` the cursor advances
    /// by one (wrapping at the buffer length) and the value under it is
    /// returned; every other tick yields exactly `0` and leaves the element
    /// unchanged.
    pub fn next(&mut self, tick: u64) -> (r: i64)
        requires
            old(self).wf(),
        ensures
            final(self).wf(),
            *final(self) == element_step(*old(self), tick as int),
            r == element_output(*old(self), tick as int),
            final(self).occurrence == old(self).occurrence,
            final(self).min == old(self).min,
            final(self).max == old(self).max,
            final(self).buffer@ == old(self).buffer@,
            tick % (old(self).occurrence as u64) == 0 ==> {
                &&& final(self).cursor == (old(self).cursor + 1) % (old(self).buffer@.len() as int)
                &&& r == old(self).buffer@[final(self).cursor as int]
            },
            tick % (old(self).occurrence as u64) != 0 ==> {
                &&& final(self).cursor == old(self).cursor
                &&& r == 0
            },
            scaled_low(old(self).min, old(self).max) <= r <= scaled_high(
                old(self).min,
                old(self).max,
            ),
    {
        if tick % (self.occurrence as u64) == 0 {
            let len = self.buffer.len();
            proof {
                assert(self.cursor < len);
            }
            self.cursor = (self.cursor + 1) % len;
            self.buffer[self.cursor]
        } else {
            0
        }
    }
}

} // verus!
