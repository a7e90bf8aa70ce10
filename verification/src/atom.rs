//! Movie-header capture-date extraction from an ISO-BMFF/QuickTime atom
//! tree.
//!
//! The container is a flat walk of length-prefixed, four-byte-type-tagged
//! boxes.  The walk finds `moov`, then `mvhd` within it, and decodes the
//! creation-time field: seconds since 1904-01-01T00:00:00 UTC, 32-bit when
//! the header version is 0 and 64-bit otherwise.  Rendering that instant in
//! the local time zone is chrono's, behind a trusted wrapper.

use crate::datetime::{local_ymd_from_epoch_1904, valid_date, Date};
use crate::stream::{be32, be64, read32, read64, read8, ByteStream};
use vstd::prelude::*;

verus! {

/// The `moov` type code, big-endian packed.
pub const MOOV_CC: u32 = 0x6d6f_6f76;

/// The `mvhd` type code, big-endian packed.
pub const MVHD_CC: u32 = 0x6d76_6864;

/// Typed failure of the atom date extraction.
#[derive(Clone, Copy, Debug, PartialEq, Eq, Structural)]
pub enum AtomError {
    /// The stream ended before the sought atom or field.
    Truncated,
    /// An atom declared a length too small for its own header.
    Malformed,
    /// The creation-time seconds leave the representable time range.
    TimeOutOfRange,
}

/// An atom header: the payload length left after the header fields, and
/// the type code, big-endian packed.
#[derive(Clone, Copy, Debug, PartialEq, Eq, Structural)]
pub struct AtomHead {
    pub length: u64,
    pub fourcc: u32,
}

/// Outcome of parsing one atom header, at specification level.
pub enum HeadSpec {
    /// Type code, payload start position, and payload length.
    Parsed { fourcc: int, payload: int, length: int },
    /// The stream ended inside the header.
    Truncated,
    /// A declared length below 8 (or an extended length below 16).
    Malformed,
}

/// One atom header at `p`: a 32-bit big-endian length and a four-byte type
/// code; a declared length of 1 defers to a 64-bit extended length behind
/// the type code, covering the sixteen header bytes; any other declared
/// length below 8 is malformed.
pub open spec fn spec_read_head(b: Seq<u8>, p: int) -> HeadSpec {
    if p + 8 > b.len() {
        HeadSpec::Truncated
    } else {
        let len32 = be32(b, p);
        let fourcc = be32(b, p + 4);
        if len32 == 1 {
            if p + 16 > b.len() {
                HeadSpec::Truncated
            } else {
                let ext = be64(b, p + 8);
                if ext < 16 {
                    HeadSpec::Malformed
                } else {
                    HeadSpec::Parsed { fourcc, payload: p + 16, length: ext - 16 }
                }
            }
        } else if len32 < 8 {
            HeadSpec::Malformed
        } else {
            HeadSpec::Parsed { fourcc, payload: p + 8, length: len32 - 8 }
        }
    }
}

/// Outcome of the linear atom walk, at specification level.
pub enum AtomSeek {
    /// Payload start position and payload length of the first match.
    Found { payload: int, length: int },
    /// The stream ended before a match.
    Truncated,
    /// A malformed atom header stopped the walk.
    Malformed,
}

/// Walks atom headers from `p`, stopping at the first whose type code is
/// `cc` and seeking over the payload of every other; running past the end
/// of the stream is the not-found failure.
pub open spec fn spec_seek_to(b: Seq<u8>, p: int, cc: int) -> AtomSeek
    decreases b.len() - p,
{
    match spec_read_head(b, p) {
        HeadSpec::Truncated => AtomSeek::Truncated,
        HeadSpec::Malformed => AtomSeek::Malformed,
        HeadSpec::Parsed { fourcc, payload, length } => {
            if fourcc == cc {
                AtomSeek::Found { payload, length }
            } else if payload + length >= b.len() {
                AtomSeek::Truncated
            } else {
                spec_seek_to(b, payload + length, cc)
            }
        },
    }
}

/// Outcome of decoding the movie-header creation time, at specification
/// level.
pub enum MvhdSpec {
    /// The creation-time seconds since the 1904 epoch.
    Secs(int),
    /// The stream ended inside the header.
    Truncated,
}

/// The creation-time field of a movie header whose payload starts at `m`:
/// one version byte and three flag bytes, then 32-bit seconds when the
/// version is 0 and 64-bit seconds otherwise.
pub open spec fn spec_mvhd_seconds(b: Seq<u8>, m: int) -> MvhdSpec {
    if m + 4 > b.len() {
        MvhdSpec::Truncated
    } else if b[m] == 0 {
        if m + 8 > b.len() {
            MvhdSpec::Truncated
        } else {
            MvhdSpec::Secs(be32(b, m + 4))
        }
    } else {
        if m + 12 > b.len() {
            MvhdSpec::Truncated
        } else {
            MvhdSpec::Secs(be64(b, m + 4))
        }
    }
}

/// The creation-time seconds of a whole container: `moov` from the start,
/// `mvhd` within it, then the movie-header field.
pub open spec fn spec_atom_seconds(b: Seq<u8>) -> Result<int, AtomError> {
    match spec_seek_to(b, 0, MOOV_CC as int) {
        AtomSeek::Truncated => Err(AtomError::Truncated),
        AtomSeek::Malformed => Err(AtomError::Malformed),
        AtomSeek::Found { payload, .. } => match spec_seek_to(b, payload, MVHD_CC as int) {
            AtomSeek::Truncated => Err(AtomError::Truncated),
            AtomSeek::Malformed => Err(AtomError::Malformed),
            AtomSeek::Found { payload: m, .. } => match spec_mvhd_seconds(b, m) {
                MvhdSpec::Truncated => Err(AtomError::Truncated),
                MvhdSpec::Secs(n) => Ok(n),
            },
        },
    }
}

/// Reads one atom header and leaves the cursor at the payload start.
pub fn read_head(s: &mut ByteStream) -> (r: Result<AtomHead, AtomError>)
    requires
        old(s).wf(),
    ensures
        final(s).wf(),
        final(s).data == old(s).data,
        match spec_read_head(old(s).data@, old(s).pos as int) {
            HeadSpec::Parsed { fourcc, payload, length } => r matches Ok(h) && h.fourcc == fourcc
                && h.length == length && final(s).pos == payload,
            HeadSpec::Truncated => r == Err::<AtomHead, AtomError>(AtomError::Truncated),
            HeadSpec::Malformed => r == Err::<AtomHead, AtomError>(AtomError::Malformed),
        },
{
    let len32 = match read32(s) {
        Ok(v) => v,
        Err(_) => {
            return Err(AtomError::Truncated);
        },
    };
    let fourcc = match read32(s) {
        Ok(v) => v,
        Err(_) => {
            return Err(AtomError::Truncated);
        },
    };
    if len32 == 1 {
        let ext = match read64(s) {
            Ok(v) => v,
            Err(_) => {
                return Err(AtomError::Truncated);
            },
        };
        if ext < 16 {
            return Err(AtomError::Malformed);
        }
        Ok(AtomHead { length: ext - 16, fourcc })
    } else if len32 < 8 {
        Err(AtomError::Malformed)
    } else {
        Ok(AtomHead { length: (len32 - 8) as u64, fourcc })
    }
}

/// Walks atom headers forward to the first atom of type `cc`, leaving the
/// cursor at its payload start.
#[verifier::loop_isolation(false)]
pub fn seek_to(s: &mut ByteStream, cc: u32) -> (r: Result<AtomHead, AtomError>)
    requires
        old(s).wf(),
    ensures
        final(s).wf(),
        final(s).data == old(s).data,
        match spec_seek_to(old(s).data@, old(s).pos as int, cc as int) {
            AtomSeek::Found { payload, length } => r matches Ok(h) && h.length == length
                && h.fourcc == cc && final(s).pos == payload,
            AtomSeek::Truncated => r == Err::<AtomHead, AtomError>(AtomError::Truncated),
            AtomSeek::Malformed => r == Err::<AtomHead, AtomError>(AtomError::Malformed),
        },
{
    let ghost b = s.data@;
    loop
        invariant
            s.wf(),
            s.data == old(s).data,
            spec_seek_to(b, s.pos as int, cc as int) == spec_seek_to(
                b,
                old(s).pos as int,
                cc as int,
            ),
        decreases b.len() - s.pos,
    {
        let head = match read_head(s) {
            Ok(h) => h,
            Err(e) => {
                return Err(e);
            },
        };
        if head.fourcc == cc {
            return Ok(head);
        }
        s.skip(head.length);
    }
}

/// Decodes the creation-time seconds of the movie header at the cursor.
pub fn read_mvhd_seconds(s: &mut ByteStream) -> (r: Result<u64, AtomError>)
    requires
        old(s).wf(),
    ensures
        final(s).wf(),
        final(s).data == old(s).data,
        match spec_mvhd_seconds(old(s).data@, old(s).pos as int) {
            MvhdSpec::Secs(n) => r matches Ok(v) && v == n,
            MvhdSpec::Truncated => r == Err::<u64, AtomError>(AtomError::Truncated),
        },
{
    let version = match read8(s) {
        Ok(v) => v,
        Err(_) => {
            return Err(AtomError::Truncated);
        },
    };
    // the three flag bytes carry nothing the walk needs
    match read8(s) {
        Ok(_) => {},
        Err(_) => {
            return Err(AtomError::Truncated);
        },
    }
    match read8(s) {
        Ok(_) => {},
        Err(_) => {
            return Err(AtomError::Truncated);
        },
    }
    match read8(s) {
        Ok(_) => {},
        Err(_) => {
            return Err(AtomError::Truncated);
        },
    }
    if version == 0 {
        match read32(s) {
            Ok(v) => Ok(v as u64),
            Err(_) => Err(AtomError::Truncated),
        }
    } else {
        match read64(s) {
            Ok(v) => Ok(v),
            Err(_) => Err(AtomError::Truncated),
        }
    }
}

/// The creation-time seconds of a whole container's bytes.
pub fn atom_creation_seconds(bytes: &Vec<u8>) -> (r: Result<u64, AtomError>)
    ensures
        match spec_atom_seconds(bytes@) {
            Ok(n) => r matches Ok(v) && v == n,
            Err(e) => r == Err::<u64, AtomError>(e),
        },
{
    let mut s = ByteStream::new(bytes.clone());
    match seek_to(&mut s, MOOV_CC) {
        Ok(_) => {},
        Err(e) => {
            return Err(e);
        },
    }
    match seek_to(&mut s, MVHD_CC) {
        Ok(_) => {},
        Err(e) => {
            return Err(e);
        },
    }
    read_mvhd_seconds(&mut s)
}

/// Extracts the capture date embedded in a video container's bytes: the
/// movie-header creation time, rendered as the local calendar date.
/// Decoded seconds up to `u32::MAX` always succeed; seconds beyond
/// `i64::MAX` always fail as out of range.
pub fn read_taken_at_from_atom(bytes: &Vec<u8>) -> (r: Result<Date, AtomError>)
    ensures
        r matches Ok(d) ==> valid_date(d),
        match spec_atom_seconds(bytes@) {
            Ok(n) => (r matches Ok(d) && valid_date(d)) || r == Err::<Date, AtomError>(
                AtomError::TimeOutOfRange,
            ),
            Err(e) => r == Err::<Date, AtomError>(e),
        },
        (spec_atom_seconds(bytes@) matches Ok(n) && n <= u32::MAX) ==> r is Ok,
        (spec_atom_seconds(bytes@) matches Ok(n) && n > i64::MAX) ==> r == Err::<Date, AtomError>(
            AtomError::TimeOutOfRange,
        ),
{
    let secs = match atom_creation_seconds(bytes) {
        Ok(v) => v,
        Err(e) => {
            return Err(e);
        },
    };
    match local_ymd_from_epoch_1904(secs) {
        Some(t) => Ok(Date { year: t.0, month: t.1, day: t.2 }),
        None => Err(AtomError::TimeOutOfRange),
    }
}

} // verus!
