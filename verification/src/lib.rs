//! Computes the total playback duration of an MPEG audio stream by
//! scanning its bytes frame by frame, without decoding any samples.
//!
//! The scanner walks the byte stream in one pass: ID3v1 and ID3v2 tags
//! are skipped without contributing to the duration, every MPEG frame
//! header is validated and measured, and the per-frame durations are
//! accumulated in nanoseconds.

mod error;
mod frame;
mod header;
mod laws;
mod scan;
mod tables;

pub use error::Mp3DurationError;
pub use frame::{measure_frame, spec_measure_frame, FrameInfo};
pub use laws::{
    lemma_id3v1_prefix_preserves_duration, lemma_id3v1_suffix_preserves_duration,
    lemma_id3v2_prefix_preserves_duration, lemma_id3v2_suffix_preserves_duration,
    lemma_repeated_frames_duration,
    lemma_scan_concat, lemma_scan_deterministic, lemma_scan_shift,
    lemma_unrecognized_start_fails, seq_repeat, spec_is_whole_frame,
};
pub use scan::{
    add_duration, from_bytes, outcome_duration, spec_duration_result, spec_id3v2_footer_length,
    spec_is_id3v1_signature, spec_is_id3v2_signature, spec_scan, spec_synchsafe_size, spec_word,
    synchsafe_size, ScanOutcome,
};
pub use header::{decode_header, spec_decode_header, FrameHeader, Layer, Version};
pub use tables::{
    get_bitrate, get_samples_per_frame, get_sampling_rate, spec_get_bitrate,
    spec_get_samples_per_frame, spec_get_sampling_rate,
};
