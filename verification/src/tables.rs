use vstd::prelude::*;
use crate::error::Mp3DurationError;
use crate::header::{Layer, Version};

verus! {

/// The bitrate row for one (version, layer) pair, in kbit/s, indexed by
/// the 4-bit bitrate code. Codes 0 and 15 hold placeholder zeros: both
/// are rejected before any lookup.
pub open spec fn spec_bitrate_row(version: Version, layer: Layer) -> Seq<int> {
    match (version, layer) {
        (_, Layer::NotDefined) => seq![0, 0, 0, 0, 0, 0, 0, 0, 0, 0, 0, 0, 0, 0, 0, 0],
        (Version::Mpeg1, Layer::Layer1) => seq![
            0,
            32,
            64,
            96,
            128,
            160,
            192,
            224,
            256,
            288,
            320,
            352,
            384,
            416,
            448,
            0,
        ],
        (Version::Mpeg1, Layer::Layer2) => seq![
            0,
            32,
            48,
            56,
            64,
            80,
            96,
            112,
            128,
            160,
            192,
            224,
            256,
            320,
            384,
            0,
        ],
        (Version::Mpeg1, Layer::Layer3) => seq![
            0,
            32,
            40,
            48,
            56,
            64,
            80,
            96,
            112,
            128,
            160,
            192,
            224,
            256,
            320,
            0,
        ],
        (_, Layer::Layer1) => seq![
            0,
            32,
            48,
            56,
            64,
            80,
            96,
            112,
            128,
            144,
            160,
            176,
            192,
            224,
            256,
            0,
        ],
        (_, _) => seq![0, 8, 16, 24, 32, 40, 48, 56, 64, 80, 96, 112, 128, 144, 160, 0],
    }
}

/// The sampling-rate row for one version, in Hz, indexed by the 2-bit
/// sampling-rate code. Code 3 holds a placeholder zero: it is rejected
/// before any lookup.
pub open spec fn spec_sampling_rate_row(version: Version) -> Seq<int> {
    match version {
        Version::Mpeg1 => seq![44100, 48000, 32000, 0],
        Version::Mpeg2 => seq![22050, 24000, 16000, 0],
        Version::Mpeg25 => seq![11025, 12000, 8000, 0],
    }
}

/// Samples carried by one frame of the given version and layer.
pub open spec fn spec_samples_per_frame(version: Version, layer: Layer) -> int {
    match (version, layer) {
        (_, Layer::NotDefined) => 0,
        (_, Layer::Layer1) => 384,
        (_, Layer::Layer2) => 1152,
        (Version::Mpeg1, _) => 1152,
        (_, _) => 576,
    }
}

/// What the bitrate lookup yields: the bitrate in bits per second, or
/// the error naming the reserved code or undefined layer.
pub open spec fn spec_get_bitrate(version: Version, layer: Layer, encoded_bitrate: u8) -> Result<
    u32,
    Mp3DurationError,
> {
    if encoded_bitrate == 0 || encoded_bitrate >= 15 {
        Err(Mp3DurationError::InvalidBitrate { bitrate: encoded_bitrate })
    } else if layer == Layer::NotDefined {
        Err(Mp3DurationError::ForbiddenLayer)
    } else {
        Ok((1000 * spec_bitrate_row(version, layer)[encoded_bitrate as int]) as u32)
    }
}

/// What the sampling-rate lookup yields: the rate in Hz, or the error
/// naming the reserved code.
pub open spec fn spec_get_sampling_rate(version: Version, encoded_sampling_rate: u8) -> Result<
    u32,
    Mp3DurationError,
> {
    if encoded_sampling_rate >= 3 {
        Err(Mp3DurationError::InvalidSamplingRate { sampling_rate: encoded_sampling_rate })
    } else {
        Ok(spec_sampling_rate_row(version)[encoded_sampling_rate as int] as u32)
    }
}

/// What the samples-per-frame lookup yields, or `ForbiddenLayer` for the
/// undefined layer.
pub open spec fn spec_get_samples_per_frame(version: Version, layer: Layer) -> Result<
    u32,
    Mp3DurationError,
> {
    if layer == Layer::NotDefined {
        Err(Mp3DurationError::ForbiddenLayer)
    } else {
        Ok(spec_samples_per_frame(version, layer) as u32)
    }
}

/// Looks up the bitrate in bits per second for a decoded header.
///
/// Fails with `InvalidBitrate` if and only if the code is 0 or 15 (the
/// reserved and free-format encodings), and otherwise with
/// `ForbiddenLayer` if and only if the layer is undefined.
pub fn get_bitrate(version: Version, layer: Layer, encoded_bitrate: u8) -> (r: Result<
    u32,
    Mp3DurationError,
>)
    ensures
        r == spec_get_bitrate(version, layer, encoded_bitrate),
        r matches Ok(bitrate) ==> 8000 <= bitrate <= 448000,
{
    if encoded_bitrate == 0 || encoded_bitrate >= 15 {
        return Err(Mp3DurationError::InvalidBitrate { bitrate: encoded_bitrate });
    }
    if layer == Layer::NotDefined {
        return Err(Mp3DurationError::ForbiddenLayer);
    }
    let row: [u32; 16] = match (version, layer) {
        (Version::Mpeg1, Layer::Layer1) => [
            0,
            32,
            64,
            96,
            128,
            160,
            192,
            224,
            256,
            288,
            320,
            352,
            384,
            416,
            448,
            0,
        ],
        (Version::Mpeg1, Layer::Layer2) => [
            0,
            32,
            48,
            56,
            64,
            80,
            96,
            112,
            128,
            160,
            192,
            224,
            256,
            320,
            384,
            0,
        ],
        (Version::Mpeg1, Layer::Layer3) => [
            0,
            32,
            40,
            48,
            56,
            64,
            80,
            96,
            112,
            128,
            160,
            192,
            224,
            256,
            320,
            0,
        ],
        (_, Layer::Layer1) => [0, 32, 48, 56, 64, 80, 96, 112, 128, 144, 160, 176, 192, 224, 256, 0],
        (_, _) => [0, 8, 16, 24, 32, 40, 48, 56, 64, 80, 96, 112, 128, 144, 160, 0],
    };
    let kbps = row[encoded_bitrate as usize];
    Ok(1000 * kbps)
}

/// Looks up the sampling rate in Hz for a decoded header.
///
/// Fails with `InvalidSamplingRate` if and only if the code is 3, the
/// reserved encoding.
pub fn get_sampling_rate(version: Version, encoded_sampling_rate: u8) -> (r: Result<
    u32,
    Mp3DurationError,
>)
    ensures
        r == spec_get_sampling_rate(version, encoded_sampling_rate),
        r matches Ok(rate) ==> 8000 <= rate <= 48000,
{
    if encoded_sampling_rate >= 3 {
        return Err(Mp3DurationError::InvalidSamplingRate { sampling_rate: encoded_sampling_rate });
    }
    let row: [u32; 4] = match version {
        Version::Mpeg1 => [44100, 48000, 32000, 0],
        Version::Mpeg2 => [22050, 24000, 16000, 0],
        Version::Mpeg25 => [11025, 12000, 8000, 0],
    };
    Ok(row[encoded_sampling_rate as usize])
}

/// Looks up how many samples one frame carries.
///
/// Fails with `ForbiddenLayer` if and only if the layer is undefined.
pub fn get_samples_per_frame(version: Version, layer: Layer) -> (r: Result<u32, Mp3DurationError>)
    ensures
        r == spec_get_samples_per_frame(version, layer),
        r matches Ok(samples) ==> samples == 384 || samples == 576 || samples == 1152,
{
    if layer == Layer::NotDefined {
        return Err(Mp3DurationError::ForbiddenLayer);
    }
    let samples: u32 = match (version, layer) {
        (_, Layer::Layer1) => 384,
        (_, Layer::Layer2) => 1152,
        (Version::Mpeg1, _) => 1152,
        (_, _) => 576,
    };
    Ok(samples)
}

} // verus!
