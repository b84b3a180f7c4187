use mp3_duration::{
    decode_header, get_bitrate, get_samples_per_frame, get_sampling_rate, measure_frame,
    synchsafe_size, FrameHeader, FrameInfo, Layer, Mp3DurationError, Version,
};

#[test]
fn bitrate_lookup_exact_values() {
    assert_eq!(get_bitrate(Version::Mpeg1, Layer::Layer3, 14), Ok(320000));
    assert_eq!(get_bitrate(Version::Mpeg1, Layer::Layer1, 14), Ok(448000));
    assert_eq!(get_bitrate(Version::Mpeg1, Layer::Layer2, 1), Ok(32000));
    assert_eq!(get_bitrate(Version::Mpeg2, Layer::Layer3, 1), Ok(8000));
    assert_eq!(get_bitrate(Version::Mpeg2, Layer::Layer1, 9), Ok(144000));
    assert_eq!(get_bitrate(Version::Mpeg25, Layer::Layer2, 14), Ok(160000));
}

#[test]
fn bitrate_code_zero_is_invalid() {
    assert_eq!(
        get_bitrate(Version::Mpeg1, Layer::Layer3, 0),
        Err(Mp3DurationError::InvalidBitrate { bitrate: 0 })
    );
}

#[test]
fn bitrate_code_fifteen_is_invalid() {
    assert_eq!(
        get_bitrate(Version::Mpeg2, Layer::Layer2, 15),
        Err(Mp3DurationError::InvalidBitrate { bitrate: 15 })
    );
}

#[test]
fn bitrate_undefined_layer_is_forbidden() {
    assert_eq!(
        get_bitrate(Version::Mpeg1, Layer::NotDefined, 7),
        Err(Mp3DurationError::ForbiddenLayer)
    );
}

#[test]
fn bitrate_checks_code_before_layer() {
    // A reserved code is reported even when the layer is undefined too.
    assert_eq!(
        get_bitrate(Version::Mpeg1, Layer::NotDefined, 15),
        Err(Mp3DurationError::InvalidBitrate { bitrate: 15 })
    );
}

#[test]
fn sampling_rate_lookup_exact_values() {
    assert_eq!(get_sampling_rate(Version::Mpeg1, 0), Ok(44100));
    assert_eq!(get_sampling_rate(Version::Mpeg1, 1), Ok(48000));
    assert_eq!(get_sampling_rate(Version::Mpeg1, 2), Ok(32000));
    assert_eq!(get_sampling_rate(Version::Mpeg2, 0), Ok(22050));
    assert_eq!(get_sampling_rate(Version::Mpeg25, 2), Ok(8000));
}

#[test]
fn sampling_rate_code_three_is_invalid() {
    assert_eq!(
        get_sampling_rate(Version::Mpeg1, 3),
        Err(Mp3DurationError::InvalidSamplingRate { sampling_rate: 3 })
    );
    assert_eq!(
        get_sampling_rate(Version::Mpeg25, 3),
        Err(Mp3DurationError::InvalidSamplingRate { sampling_rate: 3 })
    );
}

#[test]
fn samples_per_frame_exact_values() {
    assert_eq!(get_samples_per_frame(Version::Mpeg1, Layer::Layer1), Ok(384));
    assert_eq!(get_samples_per_frame(Version::Mpeg1, Layer::Layer2), Ok(1152));
    assert_eq!(get_samples_per_frame(Version::Mpeg1, Layer::Layer3), Ok(1152));
    assert_eq!(get_samples_per_frame(Version::Mpeg2, Layer::Layer3), Ok(576));
    assert_eq!(get_samples_per_frame(Version::Mpeg25, Layer::Layer3), Ok(576));
    assert_eq!(
        get_samples_per_frame(Version::Mpeg2, Layer::NotDefined),
        Err(Mp3DurationError::ForbiddenLayer)
    );
}

#[test]
fn decode_header_extracts_every_field() {
    // Sync, version 11 (MPEG1), layer 01 (Layer3), bitrate 1110 (code
    // 14), sampling 00, no padding.
    assert_eq!(
        decode_header(0xFFFB_E000),
        Ok(FrameHeader {
            version: Version::Mpeg1,
            layer: Layer::Layer3,
            bitrate_code: 14,
            sampling_rate_code: 0,
            padding: false,
        })
    );
    // Version 10 (MPEG2), layer 10 (Layer2), bitrate code 1, sampling
    // code 1, padding set.
    assert_eq!(
        decode_header(0xFFF4_1600),
        Ok(FrameHeader {
            version: Version::Mpeg2,
            layer: Layer::Layer2,
            bitrate_code: 1,
            sampling_rate_code: 1,
            padding: true,
        })
    );
    // Version 00 (MPEG2.5), layer 00 (undefined) still decodes; the
    // layer is only rejected by the table lookups.
    assert_eq!(
        decode_header(0xFFE1_E000),
        Ok(FrameHeader {
            version: Version::Mpeg25,
            layer: Layer::NotDefined,
            bitrate_code: 14,
            sampling_rate_code: 0,
            padding: false,
        })
    );
}

#[test]
fn decode_header_rejects_reserved_version() {
    // Version bits 01 are the reserved pattern.
    assert_eq!(decode_header(0xFFEB_E000), Err(Mp3DurationError::ForbiddenVersion));
}

#[test]
fn measure_frame_mpeg1_layer3_320() {
    // 1152 samples at 44100 Hz: 1152 * 10^9 / 44100 ns, rounded down;
    // body 1152/8 * 320000 / 44100 - 4 = 1040 bytes.
    assert_eq!(
        measure_frame(0xFFFB_E000),
        Ok(FrameInfo { frame_length: 1040, duration_ns: 26_122_448 })
    );
}

#[test]
fn measure_frame_counts_padding_byte() {
    // Same header with the padding bit set: one more body byte, the
    // same duration.
    assert_eq!(
        measure_frame(0xFFFB_E200),
        Ok(FrameInfo { frame_length: 1041, duration_ns: 26_122_448 })
    );
}

#[test]
fn measure_frame_mpeg2_layer3_smallest() {
    // MPEG2 Layer3, bitrate code 1 (8000 bps), sampling code 1 (24000
    // Hz): 576 samples play 24 ms; body 72 * 8000 / 24000 - 4 = 20.
    assert_eq!(
        measure_frame(0xFFF3_1400),
        Ok(FrameInfo { frame_length: 20, duration_ns: 24_000_000 })
    );
}

#[test]
fn measure_frame_error_order() {
    assert_eq!(measure_frame(0xFFEB_E000), Err(Mp3DurationError::ForbiddenVersion));
    // Valid version, reserved bitrate code 0.
    assert_eq!(
        measure_frame(0xFFFB_0000),
        Err(Mp3DurationError::InvalidBitrate { bitrate: 0 })
    );
    // Valid version, reserved bitrate code 15.
    assert_eq!(
        measure_frame(0xFFFB_F000),
        Err(Mp3DurationError::InvalidBitrate { bitrate: 15 })
    );
    // Undefined layer with a reserved bitrate code: the bitrate code is
    // checked first.
    assert_eq!(
        measure_frame(0xFFF9_F000),
        Err(Mp3DurationError::InvalidBitrate { bitrate: 15 })
    );
    // Undefined layer with a valid bitrate code.
    assert_eq!(measure_frame(0xFFF9_E000), Err(Mp3DurationError::ForbiddenLayer));
    // Reserved sampling-rate code 3.
    assert_eq!(
        measure_frame(0xFFFB_EC00),
        Err(Mp3DurationError::InvalidSamplingRate { sampling_rate: 3 })
    );
}

#[test]
fn synchsafe_size_packs_seven_bit_fields() {
    assert_eq!(synchsafe_size(0, 0, 0, 0), 0);
    assert_eq!(synchsafe_size(0, 0, 0, 0x7F), 127);
    assert_eq!(synchsafe_size(0, 0, 1, 0), 128);
    assert_eq!(synchsafe_size(0x01, 0x7F, 0x7F, 0x7F), 4_194_303);
    assert_eq!(synchsafe_size(0x7F, 0x7F, 0x7F, 0x7F), 268_435_455);
}

#[test]
fn synchsafe_size_ignores_top_bits() {
    assert_eq!(synchsafe_size(0xFF, 0xFF, 0xFF, 0xFF), 268_435_455);
    assert_eq!(synchsafe_size(0x80, 0x80, 0x80, 0x85), 5);
}
