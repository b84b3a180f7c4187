use vstd::prelude::*;

verus! {

/// The ways a duration scan can fail.
///
/// Every variant is terminal: the scanner stops at the first invalid
/// encoding and reports it, returning no partial duration.
#[derive(Clone, Copy, Debug, PartialEq, Eq, Structural)]
pub enum Mp3DurationError {
    /// The header's two version bits hold the reserved pattern `01`.
    ForbiddenVersion,
    /// The header's layer bits hold `00`, which names no usable layer.
    ForbiddenLayer,
    /// The four bitrate bits hold a reserved or free-format code (0 or 15).
    InvalidBitrate { bitrate: u8 },
    /// The two sampling-rate bits hold the reserved code 3.
    InvalidSamplingRate { sampling_rate: u8 },
    /// A four-byte window matched neither a tag signature nor the MPEG
    /// sync pattern, so the stream position can no longer be trusted.
    UnexpectedFrame { header: u32 },
    /// The stream ended inside the fixed-size head of an ID3v2 tag.
    UnexpectedEndOfStream,
}

} // verus!
