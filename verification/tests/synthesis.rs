use noise_synth::clamp;
use noise_synth::next_uniform;
use noise_synth::random_buffer;
use noise_synth::scale_byte;
use noise_synth::uniform_from_bytes;
use noise_synth::white_sample;
use noise_synth::ColoredNoiseGenerator;
use noise_synth::NoiseError;
use noise_synth::NoiseElement;
use noise_synth::RangeFault;
use noise_synth::ToneOscillator;
use noise_synth::SAMPLE_UNIT;

#[test]
fn clamp_above_full_scale() {
    assert_eq!(clamp(SAMPLE_UNIT + 1), SAMPLE_UNIT);
    assert_eq!(clamp(i64::MAX), SAMPLE_UNIT);
}

#[test]
fn clamp_below_full_scale() {
    assert_eq!(clamp(-SAMPLE_UNIT - 1), -SAMPLE_UNIT);
    assert_eq!(clamp(i64::MIN), -SAMPLE_UNIT);
}

#[test]
fn clamp_inside_range_unchanged() {
    assert_eq!(clamp(0), 0);
    assert_eq!(clamp(SAMPLE_UNIT), SAMPLE_UNIT);
    assert_eq!(clamp(-SAMPLE_UNIT), -SAMPLE_UNIT);
    assert_eq!(clamp(1234), 1234);
}

#[test]
fn clamp_is_idempotent() {
    for x in [i64::MIN, -SAMPLE_UNIT - 7, -1, 0, 99, SAMPLE_UNIT + 7, i64::MAX] {
        assert_eq!(clamp(clamp(x)), clamp(x));
    }
}

#[test]
fn random_buffer_has_requested_length() {
    let b = random_buffer(100).expect("entropy source unavailable");
    assert_eq!(b.len(), 100);
    let b = random_buffer(0).expect("entropy source unavailable");
    assert_eq!(b.len(), 0);
}

#[test]
fn uniform_from_bytes_sums() {
    assert_eq!(uniform_from_bytes(0, 0, 0), 0);
    assert_eq!(uniform_from_bytes(255, 255, 255), 765);
    assert_eq!(uniform_from_bytes(1, 2, 3), 6);
}

#[test]
fn next_uniform_in_unit_range() {
    for _ in 0..50 {
        let u = next_uniform().expect("entropy source unavailable");
        assert!(u <= 765);
    }
}

#[test]
fn scale_byte_exact_values() {
    // full scale [-1.0, 1.0]: width 131072 recentered at zero
    assert_eq!(scale_byte(0, -65536, 65536), -65536);
    assert_eq!(scale_byte(255, -65536, 65536), 65536);
    assert_eq!(scale_byte(128, -65536, 65536), 257);
    assert_eq!(scale_byte(1, -65536, 65536), -65022);
    // half scale: width 65536
    assert_eq!(scale_byte(1, -32768, 32768), -32511);
}

#[test]
fn noise_element_rejects_equal_bounds() {
    let r = NoiseElement::new(1, 5, 5, 10);
    assert_eq!(r.err().unwrap(), NoiseError::InvalidRange(RangeFault::Equal));
}

#[test]
fn noise_element_rejects_inverted_bounds() {
    let r = NoiseElement::new(1, 7, 3, 10);
    assert_eq!(r.err().unwrap(), NoiseError::InvalidRange(RangeFault::Inverted));
}

#[test]
fn range_faults_are_distinguishable() {
    assert_ne!(
        NoiseError::InvalidRange(RangeFault::Equal),
        NoiseError::InvalidRange(RangeFault::Inverted)
    );
    assert_ne!(
        NoiseError::InvalidRange(RangeFault::Equal),
        NoiseError::EntropyUnavailable
    );
}

#[test]
fn noise_element_buffer_length_and_range() {
    let el = NoiseElement::new(1, -65536, 65536, 250).expect("construction failed");
    assert_eq!(el.buffer.len(), 250);
    for v in el.buffer.iter() {
        assert!(-65536 <= *v && *v <= 65536);
    }
}

#[test]
fn noise_element_period_three() {
    let mut el = NoiseElement::new(3, -65536, 65536, 30).expect("construction failed");
    for tick in 1u64..=60 {
        let s = el.next(tick);
        if tick % 3 != 0 {
            assert_eq!(s, 0);
        } else {
            assert!(-65536 <= s && s <= 65536);
        }
    }
}

#[test]
fn noise_element_occurrence_one_walks_buffer() {
    let mut el = NoiseElement::new(1, -65536, 65536, 4).expect("construction failed");
    let expected = el.buffer.clone();
    // the cursor starts at 0 and advances before each read, wrapping at 4
    for round in 0..3 {
        for i in 0..4usize {
            let tick = (round * 4 + i + 1) as u64;
            let s = el.next(tick);
            assert_eq!(s, expected[(i + 1) % 4]);
        }
    }
}

#[test]
fn periodic_element_scenario() {
    // occurrence 2 over a 100-value buffer for the range [-1.0, 1.0]:
    // ticks that are not multiples of 2 are silent, the others yield a
    // buffer value inside full scale
    let mut el = NoiseElement::new(2, -65536, 65536, 100).expect("construction failed");
    for tick in 1u64..=100 {
        let s = el.next(tick);
        if tick % 2 != 0 {
            assert_eq!(s, 0);
        } else {
            assert!(-65536 <= s && s <= 65536);
        }
    }
}

#[test]
fn white_sample_exact_values() {
    assert_eq!(white_sample(0), -65536);
    assert_eq!(white_sample(765), 65536);
    assert_eq!(white_sample(382), -86);
}

#[test]
fn colored_generator_starts_quiet() {
    let g = ColoredNoiseGenerator::new();
    assert_eq!(g.accumulator, 0);
    assert_eq!(g.contributions, vec![0, 0, 0, 0, 0]);
}

#[test]
fn colored_step_updates_first_matching_band() {
    let mut g = ColoredNoiseGenerator::new();
    // u = 0 selects band 0 (threshold 22347); contribution 100 * 14055
    let out = g.step(0, 100);
    assert_eq!(g.contributions, vec![1405500, 0, 0, 0, 0]);
    assert_eq!(g.accumulator, 1405500);
    assert_eq!(out, 21);
    // u = 22347 clears band 0 and selects band 1 (threshold 27917)
    let out = g.step(22347, 50);
    assert_eq!(g.contributions, vec![1405500, 637950, 0, 0, 0]);
    assert_eq!(g.accumulator, 2043450);
    assert_eq!(out, 31);
    // u = 29950 selects the last band (threshold 30007)
    let out = g.step(29950, 10);
    assert_eq!(g.contributions, vec![1405500, 637950, 0, 0, 157160]);
    assert_eq!(out, (2043450i64 + 157160) >> 16);
}

#[test]
fn colored_step_no_band_keeps_accumulator() {
    let mut g = ColoredNoiseGenerator::new();
    g.step(0, 100);
    // 32767 clears every threshold (the largest is 30007): nothing changes
    let out = g.step(32767, -555);
    assert_eq!(g.contributions, vec![1405500, 0, 0, 0, 0]);
    assert_eq!(g.accumulator, 1405500);
    assert_eq!(out, 21);
}

#[test]
fn colored_step_negative_value_shifts_arithmetically() {
    let mut g = ColoredNoiseGenerator::new();
    let out = g.step(0, -100);
    assert_eq!(g.accumulator, -1405500);
    assert_eq!(out, -22);
}

#[test]
fn colored_replay_is_deterministic() {
    let draws = [
        (0u16, 100i64),
        (25000, -300),
        (32767, 7),
        (29600, 4000),
        (1, -32767),
        (29950, 32767),
    ];
    let mut g1 = ColoredNoiseGenerator::new();
    let mut g2 = ColoredNoiseGenerator::new();
    for (u, v) in draws {
        let o1 = g1.step(u, v);
        let o2 = g2.step(u, v);
        assert_eq!(o1, o2);
        assert_eq!(g1.contributions, g2.contributions);
        assert_eq!(g1.accumulator, g2.accumulator);
    }
}

#[test]
fn colored_step_output_is_shifted_accumulator() {
    let mut g = ColoredNoiseGenerator::new();
    for (u, v) in [(0u16, 321i64), (28000, -9999), (23000, 12345), (32767, 1)] {
        let out = g.step(u, v);
        assert_eq!(out, g.accumulator >> 16);
    }
}

#[test]
fn tone_oscillator_wraps_at_sample_rate() {
    let mut osc = ToneOscillator::new(4);
    assert_eq!(osc.phase_clock, 0);
    let phases: Vec<u32> = (0..9).map(|_| osc.advance()).collect();
    assert_eq!(phases, vec![1, 2, 3, 0, 1, 2, 3, 0, 1]);
}
