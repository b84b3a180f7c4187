use vstd::arithmetic::div_mod::{lemma_div_is_ordered, lemma_div_is_ordered_by_denominator};
use vstd::arithmetic::mul::{lemma_mul_inequality, lemma_mul_upper_bound};
use vstd::prelude::*;
use crate::error::Mp3DurationError;
use crate::header::{decode_header, spec_decode_header};
use crate::tables::{
    get_bitrate, get_samples_per_frame, get_sampling_rate, spec_get_bitrate,
    spec_get_samples_per_frame, spec_get_sampling_rate,
};

verus! {

/// The two numbers the scan loop needs from one valid frame header:
/// how far to advance past the frame body, and how long the frame plays.
#[derive(Clone, Copy, Debug, PartialEq, Eq, Structural)]
pub struct FrameInfo {
    /// Bytes of the frame that remain after its four header bytes.
    pub frame_length: u32,
    /// Playback time of the frame in nanoseconds, rounded down.
    pub duration_ns: u64,
}

/// Playback time of one frame: its samples divided by the sampling
/// rate, at nanosecond resolution, rounded down.
pub open spec fn spec_frame_duration_ns(samples: int, sampling_rate: int) -> int {
    samples * 1_000_000_000 / sampling_rate
}

/// Byte length of the frame body past the four header bytes. The whole
/// frame occupies `samples / 8 * bitrate / sampling_rate` bytes plus one
/// padding byte when the padding bit is set; the four header bytes are
/// already consumed, so they are subtracted.
pub open spec fn spec_frame_length(
    samples: int,
    bitrate: int,
    sampling_rate: int,
    padding: bool,
) -> int {
    samples / 8 * bitrate / sampling_rate + (if padding {
        1int
    } else {
        0int
    }) - 4
}

/// What measuring a header word yields: the frame's body length and
/// playback time, or the first validation error, checked in this order:
/// version, bitrate code, layer, sampling-rate code.
pub open spec fn spec_measure_frame(header: u32) -> Result<FrameInfo, Mp3DurationError> {
    match spec_decode_header(header) {
        Err(e) => Err(e),
        Ok(fh) => match spec_get_bitrate(fh.version, fh.layer, fh.bitrate_code) {
            Err(e) => Err(e),
            Ok(bitrate) => match spec_get_sampling_rate(fh.version, fh.sampling_rate_code) {
                Err(e) => Err(e),
                Ok(sampling_rate) => match spec_get_samples_per_frame(fh.version, fh.layer) {
                    Err(e) => Err(e),
                    Ok(samples) => Ok(
                        FrameInfo {
                            frame_length: spec_frame_length(
                                samples as int,
                                bitrate as int,
                                sampling_rate as int,
                                fh.padding,
                            ) as u32,
                            duration_ns: spec_frame_duration_ns(
                                samples as int,
                                sampling_rate as int,
                            ) as u64,
                        },
                    ),
                },
            },
        },
    }
}

/// Validates a header word whose sync pattern already matched, and
/// computes the frame's body length and playback time from the lookup
/// tables.
pub fn measure_frame(header: u32) -> (r: Result<FrameInfo, Mp3DurationError>)
    ensures
        r == spec_measure_frame(header),
        r matches Ok(f) ==> f.duration_ns <= 144_000_000,
{
    let fh = match decode_header(header) {
        Ok(fh) => fh,
        Err(e) => {
            return Err(e);
        },
    };
    let bitrate = match get_bitrate(fh.version, fh.layer, fh.bitrate_code) {
        Ok(b) => b,
        Err(e) => {
            return Err(e);
        },
    };
    let sampling_rate = match get_sampling_rate(fh.version, fh.sampling_rate_code) {
        Ok(s) => s,
        Err(e) => {
            return Err(e);
        },
    };
    let num_samples = match get_samples_per_frame(fh.version, fh.layer) {
        Ok(n) => n,
        Err(e) => {
            return Err(e);
        },
    };
    proof {
        // The frame plays at most 1152 samples at no less than 8000 Hz,
        // so its duration stays below 144 ms.
        lemma_div_is_ordered_by_denominator(
            num_samples as int * 1_000_000_000,
            8000,
            sampling_rate as int,
        );
        lemma_div_is_ordered(num_samples as int * 1_000_000_000, 1152int * 1_000_000_000, 8000);
    }
    let frame_duration = (num_samples as u64 * 1_000_000_000) / (sampling_rate as u64);
    let eighth = num_samples / 8;
    proof {
        // eighth is 48, 72 or 144, and the bitrate is at most 448000,
        // so the product fits comfortably in a u32 ...
        lemma_mul_upper_bound(eighth as int, 144, bitrate as int, 448000);
        // ... and is at least 48 * 8000, so dividing by a rate of at
        // most 48000 leaves at least 8.
        lemma_mul_inequality(48, eighth as int, bitrate as int);
        lemma_div_is_ordered(384000, eighth as int * bitrate as int, sampling_rate as int);
        lemma_div_is_ordered_by_denominator(384000, sampling_rate as int, 48000);
    }
    let scaled = eighth * bitrate;
    let quotient = scaled / sampling_rate;
    let padding: u32 = if (header >> 9) & 1 == 1 {
        1
    } else {
        0
    };
    let frame_length = quotient + padding - 4;
    Ok(FrameInfo { frame_length, duration_ns: frame_duration })
}

} // verus!
