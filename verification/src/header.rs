use vstd::prelude::*;
use crate::error::Mp3DurationError;

verus! {

/// The MPEG audio version, decoded from bits 20-19 of a frame header.
#[derive(Clone, Copy, Debug, PartialEq, Eq, Structural)]
pub enum Version {
    Mpeg1,
    Mpeg2,
    Mpeg25,
}

/// The MPEG layer, decoded from bits 18-17 of a frame header.
///
/// `NotDefined` is a validity marker, not a usable layer: every table
/// lookup against it fails with `ForbiddenLayer`.
#[derive(Clone, Copy, Debug, PartialEq, Eq, Structural)]
pub enum Layer {
    NotDefined,
    Layer1,
    Layer2,
    Layer3,
}

/// The fields of one 32-bit MPEG frame header, decoded but not yet
/// checked against the lookup tables.
#[derive(Clone, Copy, Debug, PartialEq, Eq, Structural)]
pub struct FrameHeader {
    pub version: Version,
    pub layer: Layer,
    /// The raw 4-bit bitrate code (0 to 15).
    pub bitrate_code: u8,
    /// The raw 2-bit sampling-rate code (0 to 3).
    pub sampling_rate_code: u8,
    /// Whether the padding bit is set, adding one byte to the frame.
    pub padding: bool,
}

/// The top 11 bits of the header word must all be set.
pub open spec fn spec_sync_matches(header: u32) -> bool {
    header >> 21 == 0x7ff
}

pub open spec fn spec_version_code(header: u32) -> u32 {
    (header >> 19) & 3
}

pub open spec fn spec_layer_code(header: u32) -> u32 {
    (header >> 17) & 3
}

pub open spec fn spec_bitrate_code(header: u32) -> u32 {
    (header >> 12) & 15
}

pub open spec fn spec_sampling_rate_code(header: u32) -> u32 {
    (header >> 10) & 3
}

pub open spec fn spec_padding_bit(header: u32) -> bool {
    (header >> 9) & 1 == 1
}

pub open spec fn spec_version(header: u32) -> Version {
    if spec_version_code(header) == 0 {
        Version::Mpeg25
    } else if spec_version_code(header) == 2 {
        Version::Mpeg2
    } else {
        Version::Mpeg1
    }
}

pub open spec fn spec_layer(header: u32) -> Layer {
    if spec_layer_code(header) == 0 {
        Layer::NotDefined
    } else if spec_layer_code(header) == 1 {
        Layer::Layer3
    } else if spec_layer_code(header) == 2 {
        Layer::Layer2
    } else {
        Layer::Layer1
    }
}

/// What decoding a header word yields: its fields, or `ForbiddenVersion`
/// when the version bits hold the reserved pattern `01`.
pub open spec fn spec_decode_header(header: u32) -> Result<FrameHeader, Mp3DurationError> {
    if spec_version_code(header) == 1 {
        Err(Mp3DurationError::ForbiddenVersion)
    } else {
        Ok(
            FrameHeader {
                version: spec_version(header),
                layer: spec_layer(header),
                bitrate_code: spec_bitrate_code(header) as u8,
                sampling_rate_code: spec_sampling_rate_code(header) as u8,
                padding: spec_padding_bit(header),
            },
        )
    }
}

/// Extracts the version, layer, bitrate code, sampling-rate code and
/// padding bit from a 32-bit header word. The sync pattern is the
/// caller's concern; the reserved version code `01` is rejected here.
pub fn decode_header(header: u32) -> (r: Result<FrameHeader, Mp3DurationError>)
    ensures
        r == spec_decode_header(header),
        spec_version_code(header) == 1 <==> r == Err::<FrameHeader, Mp3DurationError>(
            Mp3DurationError::ForbiddenVersion,
        ),
{
    let version_code = (header >> 19) & 3;
    if version_code == 1 {
        return Err(Mp3DurationError::ForbiddenVersion);
    }
    let version = if version_code == 0 {
        Version::Mpeg25
    } else if version_code == 2 {
        Version::Mpeg2
    } else {
        Version::Mpeg1
    };
    let layer_code = (header >> 17) & 3;
    let layer = if layer_code == 0 {
        Layer::NotDefined
    } else if layer_code == 1 {
        Layer::Layer3
    } else if layer_code == 2 {
        Layer::Layer2
    } else {
        Layer::Layer1
    };
    let bitrate_code = ((header >> 12) & 15) as u8;
    let sampling_rate_code = ((header >> 10) & 3) as u8;
    let padding = (header >> 9) & 1 == 1;
    Ok(FrameHeader { version, layer, bitrate_code, sampling_rate_code, padding })
}

} // verus!
