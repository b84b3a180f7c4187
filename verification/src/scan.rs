use vstd::prelude::*;
use crate::error::Mp3DurationError;
use crate::frame::{measure_frame, spec_measure_frame};
use crate::header::spec_sync_matches;

verus! {

/// How one scan of a byte stream ends: at end-of-stream with the
/// accumulated playback time and the position where reading stopped, or
/// at the first invalid encoding.
pub enum ScanOutcome {
    Finished { total_ns: nat, end: int },
    Failed { err: Mp3DurationError },
}

/// The 32-bit big-endian word formed by four consecutive bytes.
pub open spec fn spec_word(b0: u8, b1: u8, b2: u8, b3: u8) -> u32 {
    (b0 as u32) << 24 | (b1 as u32) << 16 | (b2 as u32) << 8 | (b3 as u32)
}

/// Three ASCII bytes "TAG" open a fixed 128-byte ID3v1 tag.
pub open spec fn spec_is_id3v1_signature(b0: u8, b1: u8, b2: u8) -> bool {
    b0 == 0x54 && b1 == 0x41 && b2 == 0x47
}

/// Three ASCII bytes "ID3" open a variable-length ID3v2 tag.
pub open spec fn spec_is_id3v2_signature(b0: u8, b1: u8, b2: u8) -> bool {
    b0 == 0x49 && b1 == 0x44 && b2 == 0x33
}

/// The synchsafe tag size of an ID3v2 header: each of the four size
/// bytes contributes its low seven bits to a 28-bit big-endian integer.
pub open spec fn spec_synchsafe_size(s0: u8, s1: u8, s2: u8, s3: u8) -> u32 {
    ((s0 & 0x7f) as u32) << 21 | ((s1 & 0x7f) as u32) << 14 | ((s2 & 0x7f) as u32) << 7 | ((s3
        & 0x7f) as u32)
}

/// Bytes that follow an ID3v2 tag body: ten more when the footer flag
/// (bit 0x10 of the flags byte) is set.
pub open spec fn spec_id3v2_footer_length(flags: u8) -> int {
    if flags & 0x10 != 0 {
        10
    } else {
        0
    }
}

/// Bytes left to scan; zero once the position has passed the end.
pub open spec fn scan_fuel(len: int, pos: int) -> int {
    if pos <= len {
        len - pos
    } else {
        0
    }
}

/// The outcome of scanning `data` from byte position `pos` onward.
///
/// Fewer than four bytes left means a clean end of stream, even
/// mid-position. "TAG" opens a 128-byte ID3v1 tag and "ID3" an ID3v2
/// tag, both skipped without contributing playback time; a word whose
/// top eleven bits are set is an MPEG frame, measured and skipped, its
/// duration added; anything else is an error, as is a stream that ends
/// inside an ID3v2 tag head.
pub open spec fn spec_scan(data: Seq<u8>, pos: int) -> ScanOutcome
    decreases scan_fuel(data.len() as int, pos),
{
    if pos < 0 || pos + 4 > data.len() {
        ScanOutcome::Finished { total_ns: 0, end: pos }
    } else if spec_is_id3v1_signature(data[pos], data[pos + 1], data[pos + 2]) {
        spec_scan(data, pos + 128)
    } else if spec_is_id3v2_signature(data[pos], data[pos + 1], data[pos + 2]) {
        if pos + 10 > data.len() {
            ScanOutcome::Failed { err: Mp3DurationError::UnexpectedEndOfStream }
        } else {
            spec_scan(
                data,
                pos + 10 + spec_synchsafe_size(
                    data[pos + 6],
                    data[pos + 7],
                    data[pos + 8],
                    data[pos + 9],
                ) + spec_id3v2_footer_length(data[pos + 5]),
            )
        }
    } else {
        let header = spec_word(data[pos], data[pos + 1], data[pos + 2], data[pos + 3]);
        if spec_sync_matches(header) {
            match spec_measure_frame(header) {
                Ok(f) => match spec_scan(data, pos + 4 + f.frame_length) {
                    ScanOutcome::Finished { total_ns, end } => ScanOutcome::Finished {
                        total_ns: (f.duration_ns + total_ns) as nat,
                        end,
                    },
                    failed => failed,
                },
                Err(e) => ScanOutcome::Failed { err: e },
            }
        } else {
            ScanOutcome::Failed { err: Mp3DurationError::UnexpectedFrame { header } }
        }
    }
}

/// The playback time an outcome reports; where reading stopped is
/// dropped.
pub open spec fn outcome_duration(o: ScanOutcome) -> Result<nat, Mp3DurationError> {
    match o {
        ScanOutcome::Finished { total_ns, .. } => Ok(total_ns),
        ScanOutcome::Failed { err } => Err(err),
    }
}

/// Adds playback time already accumulated to the duration reported by a
/// later outcome.
pub open spec fn add_duration(total: nat, r: Result<nat, Mp3DurationError>) -> Result<
    nat,
    Mp3DurationError,
> {
    match r {
        Ok(rest) => Ok((total + rest) as nat),
        Err(e) => Err(e),
    }
}

/// A scan result as mathematical nanoseconds.
pub open spec fn spec_duration_result(r: Result<u128, Mp3DurationError>) -> Result<
    nat,
    Mp3DurationError,
> {
    match r {
        Ok(d) => Ok(d as nat),
        Err(e) => Err(e),
    }
}

/// Positions past the last full four-byte window all end the scan
/// cleanly with nothing left to add.
proof fn lemma_scan_past_end(data: Seq<u8>, a: int, b: int)
    requires
        a + 4 > data.len(),
        b + 4 > data.len(),
    ensures
        outcome_duration(spec_scan(data, a)) == outcome_duration(spec_scan(data, b)),
{
}

/// Decodes the four synchsafe size bytes of an ID3v2 tag head.
pub fn synchsafe_size(s0: u8, s1: u8, s2: u8, s3: u8) -> (r: u32)
    ensures
        r == spec_synchsafe_size(s0, s1, s2, s3),
{
    ((s0 & 0x7f) as u32) << 21 | ((s1 & 0x7f) as u32) << 14 | ((s2 & 0x7f) as u32) << 7 | ((s3
        & 0x7f) as u32)
}

/// Moves the cursor forward by `skip` bytes, stopping at the end of the
/// stream: seeking beyond it and reading is the same clean end of
/// stream as stopping exactly there.
fn advance_position(pos: usize, skip: u64, len: usize) -> (r: usize)
    requires
        pos + 4 <= len,
        1 <= skip,
    ensures
        pos + skip <= len ==> r == pos + skip,
        pos + skip > len ==> r == len,
        pos < r <= len,
{
    let target = pos as u128 + skip as u128;
    if target > len as u128 {
        len
    } else {
        target as usize
    }
}

/// Scans a byte stream and returns its total playback time in
/// nanoseconds: the sum of the durations of its MPEG frames, with ID3v1
/// and ID3v2 tags skipped, or the first error the stream shows.
///
/// The result is exactly what `spec_scan` says of the bytes, so two
/// scans of equal bytes return equal results.
pub fn from_bytes(data: &[u8]) -> (r: Result<u128, Mp3DurationError>)
    ensures
        spec_duration_result(r) == outcome_duration(spec_scan(data@, 0)),
{
    let len = data.len();
    let mut pos: usize = 0;
    let mut total: u128 = 0;
    while len - pos >= 4
        invariant
            len == data@.len(),
            pos <= len,
            total <= 36_000_000 * pos,
            outcome_duration(spec_scan(data@, 0)) == add_duration(
                total as nat,
                outcome_duration(spec_scan(data@, pos as int)),
            ),
        decreases len - pos,
    {
        let b0 = data[pos];
        let b1 = data[pos + 1];
        let b2 = data[pos + 2];
        let b3 = data[pos + 3];

        // ID3v1 tag: skip its fixed 128 bytes, 4 of them already read.
        if b0 == 0x54 && b1 == 0x41 && b2 == 0x47 {
            proof {
                if pos + 128 > len {
                    lemma_scan_past_end(data@, pos + 128, len as int);
                }
            }
            pos = advance_position(pos, 128, len);
            continue;
        }
        // ID3v2 tag: read the rest of its 10-byte head, then skip the
        // declared body and, if flagged, the 10-byte footer.
        if b0 == 0x49 && b1 == 0x44 && b2 == 0x33 {
            if len - pos < 10 {
                return Err(Mp3DurationError::UnexpectedEndOfStream);
            }
            let flags = data[pos + 5];
            let s0 = data[pos + 6];
            let s1 = data[pos + 7];
            let s2 = data[pos + 8];
            let s3 = data[pos + 9];
            let tag_size = synchsafe_size(s0, s1, s2, s3);
            let footer: u64 = if flags & 0x10 != 0 {
                10
            } else {
                0
            };
            let skip: u64 = 10 + tag_size as u64 + footer;
            proof {
                if pos + skip > len {
                    lemma_scan_past_end(data@, pos as int + skip as int, len as int);
                }
            }
            pos = advance_position(pos, skip, len);
            continue;
        }
        // MPEG frame: measure it, accumulate its duration, skip its
        // body.
        let header = (b0 as u32) << 24 | (b1 as u32) << 16 | (b2 as u32) << 8 | (b3 as u32);
        if header >> 21 == 0x7ff {
            let f = match measure_frame(header) {
                Ok(f) => f,
                Err(e) => {
                    return Err(e);
                },
            };
            let skip: u64 = 4 + f.frame_length as u64;
            proof {
                let o = spec_scan(data@, pos + skip);
                assert(outcome_duration(spec_scan(data@, pos as int)) == add_duration(
                    f.duration_ns as nat,
                    outcome_duration(o),
                ));
                if pos + skip > len {
                    lemma_scan_past_end(data@, pos as int + skip as int, len as int);
                }
            }
            total = total + f.duration_ns as u128;
            pos = advance_position(pos, skip, len);
            continue;
        }
        return Err(Mp3DurationError::UnexpectedFrame { header });
    }
    Ok(total)
}

} // verus!
