use vstd::arithmetic::mul::{lemma_mul_is_commutative, lemma_mul_is_distributive_add};
use vstd::prelude::*;
use crate::error::Mp3DurationError;
use crate::frame::{spec_measure_frame, FrameInfo};
use crate::header::spec_sync_matches;
use crate::scan::{
    add_duration, outcome_duration, spec_id3v2_footer_length, spec_is_id3v1_signature,
    spec_is_id3v2_signature, spec_scan, spec_synchsafe_size, spec_word, scan_fuel, ScanOutcome,
};

verus! {

/// A word whose top eleven bits are all set starts with the byte 0xff,
/// so a frame header never doubles as a tag signature.
proof fn lemma_sync_first_byte(b0: u8, b1: u8, b2: u8, b3: u8)
    requires
        spec_sync_matches(spec_word(b0, b1, b2, b3)),
    ensures
        b0 == 0xff,
{
    assert(((b0 as u32) << 24 | (b1 as u32) << 16 | (b2 as u32) << 8 | (b3 as u32)) >> 21 == 0x7ff
        ==> b0 == 0xff) by (bit_vector);
}

/// Scanning is local: what stands before the cursor never matters, so a
/// scan of `prefix + data` from the seam reports the playback time of
/// `data` alone.
pub proof fn lemma_scan_shift(prefix: Seq<u8>, data: Seq<u8>, pos: int)
    requires
        0 <= pos,
    ensures
        outcome_duration(spec_scan(prefix + data, prefix.len() + pos)) == outcome_duration(
            spec_scan(data, pos),
        ),
    decreases scan_fuel(data.len() as int, pos),
{
    let all = prefix + data;
    let p = prefix.len() as int;
    assert(all.len() == p + data.len());
    if pos + 4 > data.len() {
    } else {
        assert(all[p + pos] == data[pos]);
        assert(all[p + pos + 1] == data[pos + 1]);
        assert(all[p + pos + 2] == data[pos + 2]);
        assert(all[p + pos + 3] == data[pos + 3]);
        if spec_is_id3v1_signature(data[pos], data[pos + 1], data[pos + 2]) {
            lemma_scan_shift(prefix, data, pos + 128);
        } else if spec_is_id3v2_signature(data[pos], data[pos + 1], data[pos + 2]) {
            if pos + 10 > data.len() {
            } else {
                assert(all[p + pos + 5] == data[pos + 5]);
                assert(all[p + pos + 6] == data[pos + 6]);
                assert(all[p + pos + 7] == data[pos + 7]);
                assert(all[p + pos + 8] == data[pos + 8]);
                assert(all[p + pos + 9] == data[pos + 9]);
                lemma_scan_shift(
                    prefix,
                    data,
                    pos + 10 + spec_synchsafe_size(
                        data[pos + 6],
                        data[pos + 7],
                        data[pos + 8],
                        data[pos + 9],
                    ) + spec_id3v2_footer_length(data[pos + 5]),
                );
            }
        } else {
            let header = spec_word(data[pos], data[pos + 1], data[pos + 2], data[pos + 3]);
            if spec_sync_matches(header) {
                match spec_measure_frame(header) {
                    Ok(f) => {
                        lemma_scan_shift(prefix, data, pos + 4 + f.frame_length);
                    },
                    Err(_) => {},
                }
            } else {
            }
        }
    }
}

/// Scanning distributes over concatenation: when a scan of `data`
/// consumes it exactly to its last byte, a scan of `data + rest` plays
/// `data`'s time and then `rest`'s.
pub proof fn lemma_scan_concat(data: Seq<u8>, rest: Seq<u8>, pos: int, total: nat)
    requires
        0 <= pos,
        spec_scan(data, pos) == (ScanOutcome::Finished {
            total_ns: total,
            end: data.len() as int,
        }),
    ensures
        outcome_duration(spec_scan(data + rest, pos)) == add_duration(
            total,
            outcome_duration(spec_scan(rest, 0)),
        ),
    decreases scan_fuel(data.len() as int, pos),
{
    let all = data + rest;
    if pos + 4 > data.len() {
        assert(pos == data.len() && total == 0);
        lemma_scan_shift(data, rest, 0);
    } else {
        assert(all[pos] == data[pos]);
        assert(all[pos + 1] == data[pos + 1]);
        assert(all[pos + 2] == data[pos + 2]);
        assert(all[pos + 3] == data[pos + 3]);
        if spec_is_id3v1_signature(data[pos], data[pos + 1], data[pos + 2]) {
            lemma_scan_concat(data, rest, pos + 128, total);
        } else if spec_is_id3v2_signature(data[pos], data[pos + 1], data[pos + 2]) {
            assert(pos + 10 <= data.len());
            assert(all[pos + 5] == data[pos + 5]);
            assert(all[pos + 6] == data[pos + 6]);
            assert(all[pos + 7] == data[pos + 7]);
            assert(all[pos + 8] == data[pos + 8]);
            assert(all[pos + 9] == data[pos + 9]);
            lemma_scan_concat(
                data,
                rest,
                pos + 10 + spec_synchsafe_size(
                    data[pos + 6],
                    data[pos + 7],
                    data[pos + 8],
                    data[pos + 9],
                ) + spec_id3v2_footer_length(data[pos + 5]),
                total,
            );
        } else {
            let header = spec_word(data[pos], data[pos + 1], data[pos + 2], data[pos + 3]);
            assert(spec_sync_matches(header));
            let f = spec_measure_frame(header)->Ok_0;
            let next = pos + 4 + f.frame_length;
            match spec_scan(data, next) {
                ScanOutcome::Finished { total_ns, end } => {
                    assert(end == data.len());
                    assert(total == (f.duration_ns + total_ns) as nat);
                    lemma_scan_concat(data, rest, next, total_ns);
                },
                ScanOutcome::Failed { err } => {
                    assert(false);
                },
            }
        }
    }
}

/// One whole frame and nothing else: at least the four header bytes,
/// the sync pattern set, every field valid, and exactly as many bytes
/// as the header declares.
pub open spec fn spec_is_whole_frame(frame: Seq<u8>) -> bool {
    &&& frame.len() >= 4
    &&& spec_sync_matches(spec_word(frame[0], frame[1], frame[2], frame[3]))
    &&& spec_measure_frame(spec_word(frame[0], frame[1], frame[2], frame[3])) matches Ok(f)
        && frame.len() == 4 + f.frame_length
}

/// `s` written out `n` times in a row.
pub open spec fn seq_repeat(s: Seq<u8>, n: nat) -> Seq<u8>
    decreases n,
{
    if n == 0 {
        Seq::<u8>::empty()
    } else {
        s + seq_repeat(s, (n - 1) as nat)
    }
}

/// A scan of one whole frame plays exactly the duration its header
/// declares and stops at its last byte.
proof fn lemma_single_frame_scan(frame: Seq<u8>, f: FrameInfo)
    requires
        spec_is_whole_frame(frame),
        spec_measure_frame(spec_word(frame[0], frame[1], frame[2], frame[3])) == Ok::<
            FrameInfo,
            Mp3DurationError,
        >(f),
    ensures
        spec_scan(frame, 0) == (ScanOutcome::Finished {
            total_ns: f.duration_ns as nat,
            end: frame.len() as int,
        }),
{
    lemma_sync_first_byte(frame[0], frame[1], frame[2], frame[3]);
    assert(spec_scan(frame, frame.len() as int) == (ScanOutcome::Finished {
        total_ns: 0nat,
        end: frame.len() as int,
    }));
}

/// A constant-bitrate stream of `n` identical whole frames plays for
/// exactly `n` times the duration one frame declares: nanosecond
/// accumulation adds no drift beyond the one floor division fixed in
/// the frame duration itself.
pub proof fn lemma_repeated_frames_duration(frame: Seq<u8>, n: nat, f: FrameInfo)
    requires
        spec_is_whole_frame(frame),
        spec_measure_frame(spec_word(frame[0], frame[1], frame[2], frame[3])) == Ok::<
            FrameInfo,
            Mp3DurationError,
        >(f),
    ensures
        outcome_duration(spec_scan(seq_repeat(frame, n), 0)) == Ok::<nat, Mp3DurationError>(
            n * f.duration_ns as nat,
        ),
    decreases n,
{
    if n == 0 {
        assert(seq_repeat(frame, n).len() == 0);
    } else {
        lemma_repeated_frames_duration(frame, (n - 1) as nat, f);
        lemma_single_frame_scan(frame, f);
        lemma_scan_concat(frame, seq_repeat(frame, (n - 1) as nat), 0, f.duration_ns as nat);
        let d = f.duration_ns as int;
        lemma_mul_is_distributive_add(d, n - 1, 1);
        lemma_mul_is_commutative(d, n as int);
        lemma_mul_is_commutative(d, n - 1);
    }
}

/// An ID3v1 tag before a stream leaves its playback time untouched:
/// the scanner steps over the fixed 128 bytes and reads on as if the
/// tag were not there.
pub proof fn lemma_id3v1_prefix_preserves_duration(tag: Seq<u8>, data: Seq<u8>)
    requires
        tag.len() == 128,
        spec_is_id3v1_signature(tag[0], tag[1], tag[2]),
    ensures
        outcome_duration(spec_scan(tag + data, 0)) == outcome_duration(spec_scan(data, 0)),
{
    let all = tag + data;
    assert(all[0] == tag[0]);
    assert(all[1] == tag[1]);
    assert(all[2] == tag[2]);
    lemma_scan_shift(tag, data, 0);
}

/// An ID3v1 tag after a stream that scans cleanly to its last byte
/// leaves the playback time untouched as well.
pub proof fn lemma_id3v1_suffix_preserves_duration(data: Seq<u8>, tag: Seq<u8>, total: nat)
    requires
        tag.len() == 128,
        spec_is_id3v1_signature(tag[0], tag[1], tag[2]),
        spec_scan(data, 0) == (ScanOutcome::Finished {
            total_ns: total,
            end: data.len() as int,
        }),
    ensures
        outcome_duration(spec_scan(data + tag, 0)) == outcome_duration(spec_scan(data, 0)),
{
    lemma_scan_concat(data, tag, 0, total);
    assert(spec_scan(tag, 0) == spec_scan(tag, 128));
}

/// An ID3v2 tag before a stream leaves its playback time untouched:
/// the synchsafe size names the body's length exactly, the footer flag
/// adds ten bytes, and the scanner steps over just that.
pub proof fn lemma_id3v2_prefix_preserves_duration(tag: Seq<u8>, data: Seq<u8>)
    requires
        tag.len() >= 10,
        spec_is_id3v2_signature(tag[0], tag[1], tag[2]),
        tag.len() == 10 + spec_synchsafe_size(tag[6], tag[7], tag[8], tag[9])
            + spec_id3v2_footer_length(tag[5]),
    ensures
        outcome_duration(spec_scan(tag + data, 0)) == outcome_duration(spec_scan(data, 0)),
{
    let all = tag + data;
    assert(all[0] == tag[0]);
    assert(all[1] == tag[1]);
    assert(all[2] == tag[2]);
    assert(all[5] == tag[5]);
    assert(all[6] == tag[6]);
    assert(all[7] == tag[7]);
    assert(all[8] == tag[8]);
    assert(all[9] == tag[9]);
    lemma_scan_shift(tag, data, 0);
}

/// An ID3v2 tag after a stream that scans cleanly to its last byte
/// leaves the playback time untouched as well.
pub proof fn lemma_id3v2_suffix_preserves_duration(data: Seq<u8>, tag: Seq<u8>, total: nat)
    requires
        tag.len() >= 10,
        spec_is_id3v2_signature(tag[0], tag[1], tag[2]),
        tag.len() == 10 + spec_synchsafe_size(tag[6], tag[7], tag[8], tag[9])
            + spec_id3v2_footer_length(tag[5]),
        spec_scan(data, 0) == (ScanOutcome::Finished {
            total_ns: total,
            end: data.len() as int,
        }),
    ensures
        outcome_duration(spec_scan(data + tag, 0)) == outcome_duration(spec_scan(data, 0)),
{
    lemma_scan_concat(data, tag, 0, total);
    assert(spec_scan(tag, 0) == spec_scan(tag, tag.len() as int));
}

/// A stream that opens with neither tag signature nor frame sync fails
/// at once with its first four-byte word; nothing is skipped or
/// retried.
pub proof fn lemma_unrecognized_start_fails(data: Seq<u8>)
    requires
        data.len() >= 4,
        !spec_is_id3v1_signature(data[0], data[1], data[2]),
        !spec_is_id3v2_signature(data[0], data[1], data[2]),
        !spec_sync_matches(spec_word(data[0], data[1], data[2], data[3])),
    ensures
        spec_scan(data, 0) == (ScanOutcome::Failed {
            err: Mp3DurationError::UnexpectedFrame {
                header: spec_word(data[0], data[1], data[2], data[3]),
            },
        }),
{
}

/// The scan is a function of the bytes alone: two streams holding equal
/// bytes report equal outcomes, however they were opened.
pub proof fn lemma_scan_deterministic(d1: Seq<u8>, d2: Seq<u8>)
    requires
        d1 == d2,
    ensures
        outcome_duration(spec_scan(d1, 0)) == outcome_duration(spec_scan(d2, 0)),
{
}

} // verus!
