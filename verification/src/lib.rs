//! Real-time procedural noise synthesis core.
//!
//! Audio samples are represented in signed fixed point: `SAMPLE_UNIT`
//! stands for full scale (`1.0`), so the normalized audio range is
//! `[-SAMPLE_UNIT, SAMPLE_UNIT]`. The output stage divides by
//! `SAMPLE_UNIT` when it converts a sample to the stream's own format.

mod audio_processor;
mod colored;
mod errors;
mod handle;
mod noise_element;
mod random;
mod sample;
mod tone;

pub use audio_processor::band_draw;
pub use audio_processor::value_draw;
pub use audio_processor::white_sample;
pub use audio_processor::Algorithm;
pub use audio_processor::AudioProcessor;
pub use audio_processor::{band_draw_spec, in_white_image, value_draw_spec, white_sample_spec};
pub use colored::ColoredNoiseGenerator;
pub use colored::{band_gain, band_threshold, contributions_total, selected_band};
pub use colored::{in_draw_ranges, run_contributions, run_outputs, step_contributions, step_output};
pub use colored::{lemma_colored_deterministic, lemma_colored_run_snoc};
pub use colored::{lemma_selected_band_is_first, BAND_COUNT, CONTRIB_BOUND, DRAW_MAX};
pub use errors::NoiseError;
pub use errors::RangeFault;
pub use handle::silence_buffer;
pub use handle::RealtimeHandle;
pub use handle::{all_zero, frame_replicated, lemma_mutual_exclusion, spec_try_acquire};
pub use noise_element::scale_byte;
pub use noise_element::NoiseElement;
pub use noise_element::{element_output, element_run_outputs, element_run_state, element_step};
pub use noise_element::{in_scaled_image, scaled_high, scaled_low, scaled_value};
pub use noise_element::{lemma_element_periodicity, lemma_element_run_snoc};
pub use random::next_uniform;
pub use random::random_buffer;
pub use random::uniform_from_bytes;
pub use random::UNIFORM_DENOM;
pub use sample::clamp;
pub use sample::clamp_spec;
pub use sample::lemma_clamp_idempotent;
pub use sample::SAMPLE_UNIT;
pub use tone::ToneOscillator;
