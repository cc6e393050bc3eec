//! The real-time handle: shared, mutually exclusive ownership of one
//! synthesis engine, and the buffer-fill path of the real-time renderer.
//!
//! Two roles share one engine: a control owner that constructs and
//! reconfigures it, and a real-time renderer with hard deadlines. The
//! handle hands the engine out by value through a non-blocking try-acquire;
//! while one role holds the engine the handle is empty and the other role's
//! attempt is refused at once, never queued. A renderer whose attempt is
//! refused fills its whole buffer with silence for that callback: dropped
//! audio for one buffer is the accepted degradation, blocking is not.

use vstd::arithmetic::div_mod::lemma_div_pos_is_pos;
use vstd::arithmetic::div_mod::lemma_fundamental_div_mod;
use vstd::arithmetic::div_mod::lemma_fundamental_div_mod_converse;
use vstd::arithmetic::div_mod::lemma_mod_bound;
use vstd::prelude::*;

use crate::audio_processor::in_white_image;
use crate::audio_processor::Algorithm;
use crate::audio_processor::AudioProcessor;
use crate::colored::in_draw_ranges;
use crate::colored::lemma_colored_run_snoc;
use crate::colored::run_contributions;
use crate::colored::run_outputs;
use crate::colored::step_contributions;
use crate::colored::step_output;
use crate::colored::DRAW_MAX;
use crate::errors::NoiseError;
use crate::noise_element::element_run_outputs;
use crate::noise_element::element_run_state;
use crate::noise_element::lemma_element_run_snoc;
use crate::sample::SAMPLE_UNIT;

verus! {

/// Every slot of the buffer holds literal silence.
pub open spec fn all_zero(s: Seq<i64>) -> bool {
    forall|k: int| 0 <= k < s.len() ==> s[k] == 0
}

/// Every slot of a frame holds that frame's one sample: slot `k` equals
/// the first slot of the frame `k` belongs to.
pub open spec fn frame_replicated(s: Seq<i64>, channels: int) -> bool {
    forall|k: int| 0 <= k < s.len() ==> #[trigger] s[k] == s[(k / channels) * channels]
}

/// A buffer of pure silence: `frames * channels` slots of exactly `0`.
pub fn silence_buffer(frames: usize, channels: usize) -> (r: Vec<i64>)
    requires
        frames * channels <= usize::MAX,
    ensures
        r@.len() == frames * channels,
        all_zero(r@),
{
    let total: usize = frames * channels;
    let mut buf: Vec<i64> = Vec::new();
    let mut k: usize = 0;
    while k < total
        invariant
            k <= total,
            buf@.len() == k,
            all_zero(buf@),
        decreases total - k,
    {
        buf.push(0);
        k += 1;
    }
    buf
}

/// Which frame a buffer slot belongs to: slots of the frame being filled
/// divide to the frame's own index, slots of earlier frames to a smaller
/// one.
proof fn lemma_frame_index(k: int, f: int, ch: int)
    requires
        ch >= 1,
        0 <= f,
        0 <= k < (f + 1) * ch,
    ensures
        f * ch <= k ==> k / ch == f,
        k < f * ch ==> 0 <= k / ch < f,
        k < f * ch ==> 0 <= (k / ch) * ch <= k,
{
    assert((f + 1) * ch == f * ch + ch) by (nonlinear_arith);
    if f * ch <= k {
        lemma_fundamental_div_mod_converse(k, ch, f, k - f * ch);
    } else {
        lemma_fundamental_div_mod(k, ch);
        lemma_mod_bound(k, ch);
        lemma_div_pos_is_pos(k, ch);
        let q = k / ch;
        assert(q * ch == ch * q) by (nonlinear_arith);
        assert(q * ch <= k);
        assert(q < f) by (nonlinear_arith)
            requires
                q * ch <= k,
                k < f * ch,
                ch >= 1,
        ;
    }
}

/// The shared, mutually exclusive ownership wrapper around one engine.
pub struct RealtimeHandle {
    /// The engine, present exactly while no role holds exclusive access.
    pub engine: Option<AudioProcessor>,
}

/// The spec-level effect of a non-blocking acquisition attempt: the handle
/// is left empty, and the caller receives whatever engine it held.
pub open spec fn spec_try_acquire(h: RealtimeHandle) -> (RealtimeHandle, Option<AudioProcessor>) {
    (RealtimeHandle { engine: None }, h.engine)
}

/// Mutual exclusion: of two acquisition attempts with no release in
/// between, at most one is granted. A granted attempt leaves the handle
/// empty, so the other role's attempt receives nothing.
pub proof fn lemma_mutual_exclusion(h: RealtimeHandle)
    ensures
        spec_try_acquire(h).1 is Some ==> !spec_try_acquire(h).0.available(),
        spec_try_acquire(spec_try_acquire(h).0).1 is None,
{
}

impl RealtimeHandle {
    /// Well-formedness: whatever engine the handle holds is well formed.
    pub open spec fn wf(self) -> bool {
        self.engine matches Some(e) ==> e.wf()
    }

    /// Whether an acquisition attempt would currently be granted.
    pub open spec fn available(self) -> bool {
        self.engine is Some
    }

    /// Wraps one engine for shared use; created once at stream setup and
    /// passed by reference into the output callback.
    pub fn new(engine: AudioProcessor) -> (r: RealtimeHandle)
        requires
            engine.wf(),
        ensures
            r.wf(),
            r.available(),
            r.engine == Some(engine),
    {
        RealtimeHandle { engine: Some(engine) }
    }

    /// A non-blocking attempt to take exclusive access: the engine is
    /// granted by value exactly when no other role holds it, and the
    /// attempt is refused at once otherwise. No queueing, no waiting.
    pub fn try_acquire(&mut self) -> (r: Option<AudioProcessor>)
        requires
            old(self).wf(),
        ensures
            final(self).wf(),
            *final(self) == spec_try_acquire(*old(self)).0,
            r == spec_try_acquire(*old(self)).1,
            !final(self).available(),
            old(self).available() ==> r == old(self).engine,
            !old(self).available() ==> r is None,
            r matches Some(e) ==> e.wf(),
    {
        self.engine.take()
    }

    /// Returns the engine to the handle, making it available to the other
    /// role again.
    pub fn release(&mut self, engine: AudioProcessor)
        requires
            old(self).wf(),
            !old(self).available(),
            engine.wf(),
        ensures
            final(self).wf(),
            final(self).available(),
            final(self).engine == Some(engine),
    {
        self.engine = Some(engine);
    }

    /// One output callback of the real-time renderer: fill a buffer of
    /// `frames * channels` slots, one pulled sample per frame replicated
    /// across its channels, in strict frame order.
    ///
    /// When the control owner holds the engine the attempt is refused and
    /// the whole buffer is silence — never partially filled. When the
    /// engine is held by no one it is acquired, pulled once per frame, and
    /// released; logical time advances only while access is actually held.
    /// An entropy failure releases the engine and is propagated.
    pub fn render_buffer(&mut self, alg: Algorithm, frames: usize, channels: usize) -> (r: Result<
        Vec<i64>,
        NoiseError,
    >)
        requires
            old(self).wf(),
            frames * channels <= usize::MAX,
            alg == Algorithm::ElementNoise ==> (old(self).engine matches Some(e) ==> e.element
                is Some && e.tick + frames <= u64::MAX),
        ensures
            final(self).wf(),
            !old(self).available() ==> {
                &&& *final(self) == *old(self)
                &&& r matches Ok(buf) && buf@.len() == frames * channels && all_zero(buf@)
            },
            old(self).available() ==> final(self).available(),
            old(self).available() ==> (r matches Ok(buf) ==> buf@.len() == frames * channels
                && frame_replicated(buf@, channels as int)),
            r is Err ==> old(self).available() && r == Err::<Vec<i64>, NoiseError>(
                NoiseError::EntropyUnavailable,
            ),
            old(self).available() && alg == Algorithm::ElementNoise ==> r is Ok,
            old(self).engine matches Some(e0) ==> (final(self).engine matches Some(e1)
                ==> e1.sample_rate == e0.sample_rate && (e1.element is Some <==> e0.element
                is Some)),
            // logical time advances by exactly one tick per frame actually
            // rendered, and not at all while the engine is not held
            old(self).engine matches Some(e0) ==> (alg == Algorithm::ElementNoise && r is Ok
                ==> (final(self).engine matches Some(e1) ==> e1.tick == e0.tick + frames)),
            // the periodic element is silent on every frame whose tick is
            // not a multiple of its occurrence stride
            old(self).engine matches Some(e0) ==> (alg == Algorithm::ElementNoise ==> (
            e0.element matches Some(oel) ==> (r matches Ok(buf) ==> forall|k: int|
                0 <= k < buf@.len() && (e0.tick + k / (channels as int) + 1) % (
                oel.occurrence as int) != 0 ==> #[trigger] buf@[k] == 0))),
            // the last rendered colored-noise frame is the engine's own
            // post-update accumulator, compressed
            old(self).engine matches Some(e0) ==> (alg == Algorithm::ColoredNoise && frames >= 1
                && channels >= 1 ==> (r matches Ok(buf) ==> (final(self).engine matches Some(e1)
                ==> buf@[buf@.len() - 1] == e1.colored.accumulator >> 16))),
            // white noise never leaves the normalized range, and every
            // slot is an actual remap of some uniform draw
            old(self).available() ==> (alg == Algorithm::WhiteNoise ==> (r matches Ok(buf)
                ==> forall|k: int|
                0 <= k < buf@.len() ==> -SAMPLE_UNIT <= #[trigger] buf@[k] <= SAMPLE_UNIT
                    && in_white_image(buf@[k]))),
            // the element buffer carries the element's own run, frame by
            // frame: one tick per frame, cursor advanced once per on-stride
            // tick, the run's value replicated across the frame
            old(self).engine matches Some(e0) ==> (alg == Algorithm::ElementNoise ==> (
            e0.element matches Some(oel) ==> (r matches Ok(buf) ==> {
                &&& (final(self).engine matches Some(e1) ==> e1.element == Some(
                    element_run_state(oel, e0.tick as int, frames as nat),
                ))
                &&& forall|k: int|
                    0 <= k < buf@.len() ==> #[trigger] buf@[k] == element_run_outputs(
                        oel,
                        e0.tick as int,
                        frames as nat,
                    )[k / (channels as int)]
            }))),
            // the colored buffer is the generator's run on some admitted
            // draw sequence, one step per frame, ending in the engine's
            // own contribution state
            old(self).engine matches Some(e0) ==> (alg == Algorithm::ColoredNoise ==> (
            r matches Ok(buf) ==> exists|draws: Seq<(int, int)>|
                {
                    &&& draws.len() == frames
                    &&& #[trigger] in_draw_ranges(draws)
                    &&& (final(self).engine matches Some(e1) ==> e1.colored.contributions@
                        == run_contributions(e0.colored.contributions@, draws))
                    &&& forall|k: int|
                        0 <= k < buf@.len() ==> #[trigger] buf@[k] == run_outputs(
                            e0.colored.contributions@,
                            draws,
                        )[k / (channels as int)]
                })),
    {
        let mut engine = match self.try_acquire() {
            Some(e) => e,
            None => {
                return Ok(silence_buffer(frames, channels));
            },
        };
        let ghost e0 = engine;
        let ghost mut draws: Seq<(int, int)> = Seq::empty();
        let mut buf: Vec<i64> = Vec::new();
        let mut f: usize = 0;
        while f < frames
            invariant
                old(self).available(),
                old(self).engine == Some(e0),
                self.engine is None,
                f <= frames,
                frames * channels <= usize::MAX,
                buf@.len() == f * channels,
                engine.wf(),
                engine.sample_rate == e0.sample_rate,
                engine.element is Some <==> e0.element is Some,
                alg == Algorithm::ElementNoise ==> e0.element is Some && e0.tick + frames
                    <= u64::MAX && engine.tick == e0.tick + f,
                alg == Algorithm::ElementNoise ==> (e0.element matches Some(oel) ==> (
                engine.element matches Some(nel) && nel.occurrence == oel.occurrence)),
                alg == Algorithm::ElementNoise ==> (e0.element matches Some(oel) ==> forall|
                    k: int,
                |
                    0 <= k < buf@.len() && (e0.tick + k / (channels as int) + 1) % (
                    oel.occurrence as int) != 0 ==> #[trigger] buf@[k] == 0),
                alg == Algorithm::ColoredNoise && f >= 1 && channels >= 1 ==> buf@[buf@.len() - 1]
                    == engine.colored.accumulator >> 16,
                alg == Algorithm::WhiteNoise ==> forall|k: int|
                    0 <= k < buf@.len() ==> -SAMPLE_UNIT <= #[trigger] buf@[k] <= SAMPLE_UNIT
                        && in_white_image(buf@[k]),
                alg == Algorithm::ElementNoise ==> (e0.element matches Some(oel) ==> {
                    &&& engine.element == Some(element_run_state(oel, e0.tick as int, f as nat))
                    &&& element_run_outputs(oel, e0.tick as int, f as nat).len() == f
                    &&& forall|k: int|
                        0 <= k < buf@.len() ==> #[trigger] buf@[k] == element_run_outputs(
                            oel,
                            e0.tick as int,
                            f as nat,
                        )[k / (channels as int)]
                }),
                alg == Algorithm::ColoredNoise ==> {
                    &&& draws.len() == f
                    &&& in_draw_ranges(draws)
                    &&& engine.colored.contributions@ == run_contributions(
                        e0.colored.contributions@,
                        draws,
                    )
                    &&& run_outputs(e0.colored.contributions@, draws).len() == f
                    &&& forall|k: int|
                        0 <= k < buf@.len() ==> #[trigger] buf@[k] == run_outputs(
                            e0.colored.contributions@,
                            draws,
                        )[k / (channels as int)]
                },
                frame_replicated(buf@, channels as int),
            decreases frames - f,
        {
            let ghost eng_prev = engine;
            let s = match engine.pull_sample(alg) {
                Ok(s) => s,
                Err(e) => {
                    self.release(engine);
                    return Err(e);
                },
            };
            proof {
                if alg == Algorithm::ColoredNoise {
                    let (u, v) = choose|u: int, v: int|
                        0 <= u <= DRAW_MAX && -(DRAW_MAX as int) <= v <= DRAW_MAX as int
                            && engine.colored.contributions@ == #[trigger] step_contributions(
                            eng_prev.colored.contributions@,
                            u,
                            v,
                        ) && s == step_output(eng_prev.colored.contributions@, u, v);
                    lemma_colored_run_snoc(e0.colored.contributions@, draws, u, v);
                    draws = draws.push((u, v));
                }
                if alg == Algorithm::ElementNoise {
                    lemma_element_run_snoc(e0.element->Some_0, e0.tick as int, f as nat);
                }
            }
            let ghost ch = channels as int;
            let ghost frame_start = f * ch;
            let ghost base = buf@;
            let mut c: usize = 0;
            while c < channels
                invariant
                    c <= channels,
                    buf@ == base.add(Seq::new(c as nat, |i: int| s)),
                    base.len() == frame_start,
                decreases channels - c,
            {
                proof {
                    assert(buf@.push(s) =~= base.add(Seq::new((c + 1) as nat, |i: int| s)));
                }
                buf.push(s);
                c += 1;
            }
            proof {
                assert((f + 1) * ch == f * ch + ch) by (nonlinear_arith);
                assert(buf@.len() == frame_start + ch);
                assert forall|k: int| frame_start <= k < buf@.len() implies k / ch == f as int
                    && #[trigger] buf@[k] == s by {
                    lemma_frame_index(k, f as int, ch);
                }
                assert forall|k: int| 0 <= k < frame_start implies 0 <= k / ch < f as int
                    && #[trigger] buf@[k] == base[k] && 0 <= (k / ch) * ch <= k by {
                    assert(ch >= 1) by (nonlinear_arith)
                        requires
                            0 <= k < frame_start,
                            frame_start == f * ch,
                            ch >= 0,
                            f >= 0,
                    ;
                    lemma_frame_index(k, f as int, ch);
                }
                assert forall|k: int| 0 <= k < buf@.len() implies #[trigger] buf@[k] == buf@[(k
                    / ch) * ch] by {
                    if frame_start <= k {
                        assert(buf@[frame_start] == s);
                        assert(buf@[k] == s);
                    } else {
                        assert(ch >= 1) by (nonlinear_arith)
                            requires
                                0 <= k < frame_start,
                                frame_start == f * ch,
                                ch >= 0,
                                f >= 0,
                        ;
                        lemma_frame_index(k, f as int, ch);
                        assert(base[k] == base[(k / ch) * ch]);
                        assert(buf@[k] == base[k]);
                        assert(buf@[(k / ch) * ch] == base[(k / ch) * ch]);
                    }
                }
            }
            f += 1;
        }
        self.release(engine);
        Ok(buf)
    }
}

} // verus!
