use noise_synth::band_draw;
use noise_synth::silence_buffer;
use noise_synth::value_draw;
use noise_synth::Algorithm;
use noise_synth::AudioProcessor;
use noise_synth::NoiseError;
use noise_synth::RangeFault;
use noise_synth::RealtimeHandle;

#[test]
fn band_draw_exact_values() {
    assert_eq!(band_draw(0), 0);
    assert_eq!(band_draw(765), 32767);
    assert_eq!(band_draw(1), 42);
    assert_eq!(band_draw(382), 16362);
}

#[test]
fn value_draw_exact_values() {
    assert_eq!(value_draw(0), -32767);
    assert_eq!(value_draw(765), 32767);
    assert_eq!(value_draw(382), -43);
    assert_eq!(value_draw(100), -24201);
}

#[test]
fn processor_starts_at_clock_zero() {
    let p = AudioProcessor::new(44100);
    assert_eq!(p.sample_clock, 0);
    assert_eq!(p.sample_rate, 44100);
    assert_eq!(p.tick, 0);
    assert!(p.element.is_none());
    assert_eq!(p.colored.accumulator, 0);
}

#[test]
fn sample_clock_wraps_at_rate() {
    let mut p = AudioProcessor::new(3);
    p.increment_sample_clock();
    assert_eq!(p.sample_clock, 1);
    p.increment_sample_clock();
    assert_eq!(p.sample_clock, 2);
    p.increment_sample_clock();
    assert_eq!(p.sample_clock, 0);
}

#[test]
fn tone_phase_advances_then_reads() {
    let mut p = AudioProcessor::new(4);
    let phases: Vec<u32> = (0..6).map(|_| p.tone_phase()).collect();
    assert_eq!(phases, vec![1, 2, 3, 0, 1, 2]);
}

#[test]
fn white_noise_stays_in_full_scale() {
    let mut p = AudioProcessor::new(44100);
    for _ in 0..100 {
        let s = p.white_noise().expect("entropy source unavailable");
        assert!(-65536 <= s && s <= 65536);
    }
    // direct white noise leaves the engine's clocks alone
    assert_eq!(p.sample_clock, 0);
    assert_eq!(p.tick, 0);
}

#[test]
fn pink_noise_returns_shifted_accumulator() {
    let mut p = AudioProcessor::new(8);
    for i in 0..20u32 {
        let s = p.pink_noise().expect("entropy source unavailable");
        assert_eq!(s, p.colored.accumulator >> 16);
        assert_eq!(p.sample_clock, (i + 1) % 8);
    }
}

#[test]
fn with_element_propagates_range_errors() {
    let r = AudioProcessor::with_element(100, 2, 9, 9);
    assert_eq!(r.err().unwrap(), NoiseError::InvalidRange(RangeFault::Equal));
    let r = AudioProcessor::with_element(100, 2, 9, -9);
    assert_eq!(r.err().unwrap(), NoiseError::InvalidRange(RangeFault::Inverted));
}

#[test]
fn element_noise_ticks_through_processor() {
    let mut p = AudioProcessor::with_element(100, 2, -65536, 65536).expect("construction failed");
    for tick in 1u64..=100 {
        let s = p.element_noise();
        assert_eq!(p.tick, tick);
        if tick % 2 != 0 {
            assert_eq!(s, 0);
        } else {
            assert!(-65536 <= s && s <= 65536);
        }
    }
}

#[test]
fn pull_sample_selects_algorithm() {
    let mut p = AudioProcessor::with_element(50, 2, -65536, 65536).expect("construction failed");
    let s = p.pull_sample(Algorithm::ElementNoise).expect("element pull cannot fail");
    assert_eq!(s, 0); // tick 1 is not a multiple of 2
    let s = p.pull_sample(Algorithm::WhiteNoise).expect("entropy source unavailable");
    assert!(-65536 <= s && s <= 65536);
    let s = p.pull_sample(Algorithm::ColoredNoise).expect("entropy source unavailable");
    assert_eq!(s, p.colored.accumulator >> 16);
}

#[test]
fn silence_buffer_is_all_zero() {
    let buf = silence_buffer(8, 2);
    assert_eq!(buf.len(), 16);
    assert!(buf.iter().all(|s| *s == 0));
    assert_eq!(silence_buffer(0, 4).len(), 0);
}

#[test]
fn try_acquire_is_mutually_exclusive() {
    let mut h = RealtimeHandle::new(AudioProcessor::new(100));
    let engine = h.try_acquire();
    assert!(engine.is_some());
    // while one role holds the engine, the other role's attempt is refused
    assert!(h.try_acquire().is_none());
    assert!(h.try_acquire().is_none());
    h.release(engine.unwrap());
    assert!(h.try_acquire().is_some());
}

#[test]
fn contended_fill_is_pure_silence() {
    // the control owner holds exclusive access during the callback
    let mut h = RealtimeHandle::new(AudioProcessor::new(44100));
    let engine = h.try_acquire().expect("fresh handle grants access");
    let buf = h
        .render_buffer(Algorithm::WhiteNoise, 8, 2)
        .expect("a contended fill degrades to silence, not to an error");
    assert_eq!(buf.len(), 16);
    for s in buf.iter() {
        assert_eq!(*s, 0);
    }
    h.release(engine);
}

#[test]
fn uncontended_fill_replicates_frames() {
    let mut h = RealtimeHandle::new(AudioProcessor::new(44100));
    let buf = h
        .render_buffer(Algorithm::WhiteNoise, 16, 3)
        .expect("entropy source unavailable");
    assert_eq!(buf.len(), 48);
    for f in 0..16 {
        for c in 0..3 {
            assert_eq!(buf[f * 3 + c], buf[f * 3]);
        }
    }
    // the handle is available again after the fill
    assert!(h.try_acquire().is_some());
}

#[test]
fn empty_fill_is_empty() {
    let mut h = RealtimeHandle::new(AudioProcessor::new(100));
    let buf = h.render_buffer(Algorithm::WhiteNoise, 0, 2).expect("empty fill cannot fail");
    assert!(buf.is_empty());
}

#[test]
fn colored_fill_ends_on_the_accumulator() {
    let mut h = RealtimeHandle::new(AudioProcessor::new(100));
    let buf = h
        .render_buffer(Algorithm::ColoredNoise, 5, 2)
        .expect("entropy source unavailable");
    assert_eq!(buf.len(), 10);
    let engine = h.try_acquire().expect("fill released the engine");
    assert_eq!(buf[9], engine.colored.accumulator >> 16);
}

#[test]
fn single_slot_element_buffer_wraps() {
    let mut p = AudioProcessor::with_element(1, 1, -65536, 65536).expect("construction failed");
    let first = p.element_noise();
    for _ in 0..5 {
        // every tick re-reads the single buffer slot
        assert_eq!(p.element_noise(), first);
    }
}

#[test]
fn element_fill_replays_the_buffer() {
    // occurrence 1: every tick advances the cursor, so a fill replays the
    // pre-drawn buffer in order, each value replicated across its frame
    let p = AudioProcessor::with_element(4, 1, -65536, 65536).expect("construction failed");
    let drawn = p.element.as_ref().expect("element session carries an element").buffer.clone();
    let mut h = RealtimeHandle::new(p);
    let buf = h
        .render_buffer(Algorithm::ElementNoise, 3, 2)
        .expect("element fill cannot fail");
    assert_eq!(
        buf,
        vec![drawn[1], drawn[1], drawn[2], drawn[2], drawn[3], drawn[3]]
    );
}

#[test]
fn uncontended_element_fill_keeps_frame_order() {
    let p = AudioProcessor::with_element(50, 2, -65536, 65536).expect("construction failed");
    let mut h = RealtimeHandle::new(p);
    let buf = h
        .render_buffer(Algorithm::ElementNoise, 4, 1)
        .expect("element fill cannot fail");
    assert_eq!(buf.len(), 4);
    // ticks 1..=4: odd ticks are silent, even ticks carry a buffer value
    assert_eq!(buf[0], 0);
    assert_eq!(buf[2], 0);
    assert!(-65536 <= buf[1] && buf[1] <= 65536);
    assert!(-65536 <= buf[3] && buf[3] <= 65536);
    // logical time advanced only while access was held
    let engine = h.try_acquire().expect("fill released the engine");
    assert_eq!(engine.tick, 4);
}
