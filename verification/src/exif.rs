//! EXIF capture-date extraction.
//!
//! A conformant container is decoded by the exif crate directly.  When that
//! fails, a verified raw scan walks the byte stream for a JPEG
//! start-of-image marker immediately followed by an APP1 segment whose body
//! carries the `Exif\0\0` identifier, and the segment body is handed to the
//! decoder as a raw buffer.  The decoded datetime text is then parsed and
//! mapped to the local calendar date.

use crate::datetime::{local_ymd_from_naive, parse_datetime, spec_parse_datetime, spec_real_datetime, valid_date, Date};
use crate::stream::{be16, read16, read8, ByteStream};
use vstd::prelude::*;

verus! {

/// Typed failure of the EXIF date extraction.
#[derive(Clone, Copy, Debug, PartialEq, Eq, Structural)]
pub enum ExifError {
    /// The stream ended before a usable APP1 segment was found.
    Truncated,
    /// An APP1 segment declared a length below the two length bytes.
    BadSegmentLength,
    /// The raw segment body was not decodable as EXIF.
    DecodeFailed,
    /// The decoded tag set carries none of the three datetime fields.
    NoDateTag,
    /// The datetime text is not a real `YYYY-MM-DD HH:MM:SS` timestamp.
    InvalidDateTime,
    /// The timestamp falls in a local-time gap.
    LocalTimeGap,
}

/// Outcome of the raw APP1 scan, at specification level.
pub enum ExifScan {
    /// The first matching segment's body, with the identifier stripped.
    Found(Seq<u8>),
    /// The stream ended first.
    Truncated,
    /// A matching segment declared a length below 2.
    BadLength,
}

/// The least index at or after `p` holding byte `v`, or the end of `b`.
pub open spec fn scan_to(b: Seq<u8>, p: int, v: u8) -> int
    decreases b.len() - p,
{
    if p >= b.len() {
        b.len() as int
    } else if b[p] == v {
        p
    } else {
        scan_to(b, p + 1, v)
    }
}

/// The least index at or after `p` whose byte differs from `v`, or the end
/// of `b`.
pub open spec fn scan_past(b: Seq<u8>, p: int, v: u8) -> int
    decreases b.len() - p,
{
    if p >= b.len() {
        b.len() as int
    } else if b[p] != v {
        p
    } else {
        scan_past(b, p + 1, v)
    }
}

proof fn lemma_scan_to_bounds(b: Seq<u8>, p: int, v: u8)
    requires
        0 <= p <= b.len(),
    ensures
        p <= scan_to(b, p, v) <= b.len(),
    decreases b.len() - p,
{
    if p < b.len() && b[p] != v {
        lemma_scan_to_bounds(b, p + 1, v);
    }
}

proof fn lemma_scan_past_bounds(b: Seq<u8>, p: int, v: u8)
    requires
        0 <= p <= b.len(),
    ensures
        p <= scan_past(b, p, v) <= b.len(),
    decreases b.len() - p,
{
    if p < b.len() && b[p] == v {
        lemma_scan_past_bounds(b, p + 1, v);
    }
}

/// The six identifier bytes `Exif\0\0` that open an EXIF APP1 body.
pub open spec fn exif_id() -> Seq<u8> {
    seq![0x45u8, 0x78u8, 0x69u8, 0x66u8, 0x00u8, 0x00u8]
}

/// The raw scan, step by step over the stream: skip to a `0xFF`, skip
/// the run of `0xFF` bytes, and demand a start-of-image byte immediately
/// followed by an APP1 marker; read the segment's declared big-endian
/// length, fail if it is below the two length bytes, and hand back the
/// segment body behind the `Exif\0\0` identifier; on any mismatch resume
/// the scan where the reads left the cursor.
pub open spec fn spec_find_exif(b: Seq<u8>, p: int) -> ExifScan
    decreases b.len() - p,
        when 0 <= p <= b.len()
        via spec_find_exif_decreases
{
    let j = scan_to(b, p, 0xff);
    if j >= b.len() {
        ExifScan::Truncated
    } else {
        let k = scan_past(b, j + 1, 0xff);
        if k >= b.len() {
            ExifScan::Truncated
        } else if b[k] != 0xd8 {
            spec_find_exif(b, k + 1)
        } else if k + 1 >= b.len() {
            ExifScan::Truncated
        } else if b[k + 1] != 0xff {
            spec_find_exif(b, k + 2)
        } else if k + 2 >= b.len() {
            ExifScan::Truncated
        } else if b[k + 2] != 0xe1 {
            spec_find_exif(b, k + 3)
        } else if k + 5 > b.len() {
            ExifScan::Truncated
        } else {
            let n = be16(b, k + 3);
            if n < 2 {
                ExifScan::BadLength
            } else if k + 5 + (n - 2) > b.len() {
                ExifScan::Truncated
            } else {
                let seg = b.subrange(k + 5, k + 5 + (n - 2));
                if seg.len() >= 6 && seg.subrange(0, 6) == exif_id() {
                    ExifScan::Found(seg.subrange(6, seg.len() as int))
                } else {
                    spec_find_exif(b, k + 5 + (n - 2))
                }
            }
        }
    }
}

#[via_fn]
proof fn spec_find_exif_decreases(b: Seq<u8>, p: int) {
    lemma_scan_to_bounds(b, p, 0xff);
    let j = scan_to(b, p, 0xff);
    if j < b.len() {
        lemma_scan_past_bounds(b, j + 1, 0xff);
    }
}

/// Consumes bytes up to and including the first `v`; without one, consumes
/// to the end of the stream.
#[verifier::loop_isolation(false)]
fn skip_through(s: &mut ByteStream, v: u8)
    requires
        old(s).wf(),
    ensures
        final(s).wf(),
        final(s).data == old(s).data,
        ({
            let j = scan_to(old(s).data@, old(s).pos as int, v);
            if j < old(s).data@.len() {
                final(s).pos == j + 1
            } else {
                final(s).pos == old(s).data@.len()
            }
        }),
{
    let ghost d0 = s.data;
    let ghost b = s.data@;
    let ghost p0 = s.pos as int;
    loop
        invariant
            s.wf(),
            s.data == d0,
            s.data@ == b,
            p0 <= s.pos <= b.len(),
            scan_to(b, s.pos as int, v) == scan_to(b, p0, v),
        decreases b.len() - s.pos,
    {
        if s.pos >= s.data.len() {
            return ;
        }
        let c = s.data[s.pos];
        s.pos = s.pos + 1;
        if c == v {
            return ;
        }
    }
}

/// Consumes the run of `v` bytes at the cursor and returns the byte after
/// it, or the end-of-stream failure.
#[verifier::loop_isolation(false)]
fn next_past(s: &mut ByteStream, v: u8) -> (r: Result<u8, ExifError>)
    requires
        old(s).wf(),
    ensures
        final(s).wf(),
        final(s).data == old(s).data,
        ({
            let k = scan_past(old(s).data@, old(s).pos as int, v);
            if k < old(s).data@.len() {
                r == Ok::<u8, ExifError>(old(s).data@[k]) && final(s).pos == k + 1
            } else {
                r == Err::<u8, ExifError>(ExifError::Truncated) && final(s).pos == old(
                    s,
                ).data@.len()
            }
        }),
{
    let ghost d0 = s.data;
    let ghost b = s.data@;
    let ghost p0 = s.pos as int;
    loop
        invariant
            s.wf(),
            s.data == d0,
            s.data@ == b,
            p0 <= s.pos <= b.len(),
            scan_past(b, s.pos as int, v) == scan_past(b, p0, v),
        decreases b.len() - s.pos,
    {
        if s.pos >= s.data.len() {
            return Err(ExifError::Truncated);
        }
        let c = s.data[s.pos];
        s.pos = s.pos + 1;
        if c != v {
            return Ok(c);
        }
    }
}

/// Copies `cnt` bytes at the cursor into a fresh buffer and consumes them.
#[verifier::loop_isolation(false)]
fn read_bytes(s: &mut ByteStream, cnt: usize) -> (r: Vec<u8>)
    requires
        old(s).wf(),
        cnt <= old(s).remaining(),
    ensures
        final(s).wf(),
        final(s).data == old(s).data,
        final(s).pos == old(s).pos + cnt,
        r@ == old(s).data@.subrange(old(s).pos as int, old(s).pos + cnt),
{
    let mut out: Vec<u8> = Vec::new();
    let mut i: usize = 0;
    while i < cnt
        invariant
            s.wf(),
            i <= cnt,
            cnt <= s.remaining(),
            out@ == s.data@.subrange(s.pos as int, s.pos + i),
        decreases cnt - i,
    {
        out.push(s.data[s.pos + i]);
        proof {
            assert(out@ =~= s.data@.subrange(s.pos as int, s.pos + i + 1));
        }
        i = i + 1;
    }
    s.pos = s.pos + cnt;
    out
}

/// Scans the stream for a start-of-image marker immediately followed by an
/// APP1 segment carrying `Exif\0\0`, and returns the segment body with the
/// identifier stripped.
#[verifier::loop_isolation(false)]
pub fn find_exif(s: &mut ByteStream) -> (r: Result<Vec<u8>, ExifError>)
    requires
        old(s).wf(),
    ensures
        final(s).wf(),
        final(s).data == old(s).data,
        match spec_find_exif(old(s).data@, old(s).pos as int) {
            ExifScan::Found(seg) => r matches Ok(v) && v@ == seg,
            ExifScan::Truncated => r == Err::<Vec<u8>, ExifError>(ExifError::Truncated),
            ExifScan::BadLength => r == Err::<Vec<u8>, ExifError>(ExifError::BadSegmentLength),
        },
{
    let ghost d0 = s.data;
    let ghost b = s.data@;
    let ghost p0 = s.pos as int;
    loop
        invariant
            s.wf(),
            s.data == d0,
            s.data@ == b,
            0 <= s.pos <= b.len(),
            spec_find_exif(b, s.pos as int) == spec_find_exif(b, p0),
        decreases b.len() - s.pos,
    {
        let ghost q = s.pos as int;
        proof {
            lemma_scan_to_bounds(b, q, 0xff);
        }
        let ghost j = scan_to(b, q, 0xff);
        skip_through(s, 0xff);
        proof {
            if j < b.len() {
                lemma_scan_past_bounds(b, j + 1, 0xff);
            }
        }
        let ghost k = scan_past(b, j + 1, 0xff);
        let code = match next_past(s, 0xff) {
            Ok(c) => c,
            Err(e) => {
                return Err(e);
            },
        };
        if code != 0xd8 {
            continue ;
        }
        let c2 = match read8(s) {
            Ok(c) => c,
            Err(_) => {
                return Err(ExifError::Truncated);
            },
        };
        if c2 != 0xff {
            continue ;
        }
        let c3 = match read8(s) {
            Ok(c) => c,
            Err(_) => {
                return Err(ExifError::Truncated);
            },
        };
        if c3 != 0xe1 {
            continue ;
        }
        let n = match read16(s) {
            Ok(v) => v,
            Err(_) => {
                return Err(ExifError::Truncated);
            },
        };
        if n < 2 {
            return Err(ExifError::BadSegmentLength);
        }
        let seglen = (n - 2) as usize;
        if s.data.len() - s.pos < seglen {
            return Err(ExifError::Truncated);
        }
        let ghost seg = b.subrange(k + 5, k + 5 + (seglen as int));
        if seglen >= 6 && s.data[s.pos] == 0x45 && s.data[s.pos + 1] == 0x78 && s.data[s.pos + 2]
            == 0x69 && s.data[s.pos + 3] == 0x66 && s.data[s.pos + 4] == 0x00 && s.data[s.pos + 5]
            == 0x00 {
            proof {
                assert(seg.subrange(0, 6) =~= exif_id());
            }
            s.pos = s.pos + 6;
            let tail = read_bytes(s, seglen - 6);
            proof {
                assert(tail@ =~= seg.subrange(6, seg.len() as int));
            }
            return Ok(tail);
        } else {
            proof {
                if seg.len() >= 6 && seg.subrange(0, 6) =~= exif_id() {
                    assert(seg.subrange(0, 6)[0] == b[k + 5]);
                    assert(seg.subrange(0, 6)[1] == b[k + 6]);
                    assert(seg.subrange(0, 6)[2] == b[k + 7]);
                    assert(seg.subrange(0, 6)[3] == b[k + 8]);
                    assert(seg.subrange(0, 6)[4] == b[k + 9]);
                    assert(seg.subrange(0, 6)[5] == b[k + 10]);
                }
            }
            s.skip(seglen as u64);
            continue ;
        }
    }
}

/// The datetime text that the exif crate's container parse settles on: the
/// outer `None` is a container or TIFF decode failure, the inner `None` a
/// decoded tag set without a datetime field.
pub uninterp spec fn container_datetime_text(bytes: Seq<u8>) -> Option<Option<Seq<char>>>;

/// The datetime text that the exif crate's raw TIFF parse settles on, with
/// the same shape as `container_datetime_text`.
pub uninterp spec fn raw_datetime_text(buf: Seq<u8>) -> Option<Option<Seq<char>>>;

/// Relies on kamadak-exif: `Reader::read_from_container` decodes the EXIF
/// tag set of a recognized image container, `Exif::get_field` looks up the
/// first present of DateTimeOriginal, DateTimeDigitized and DateTime, and
/// `Field::display_value` renders it; all depend on the bytes alone.
#[verifier::external_body]
fn read_container_datetime(bytes: &Vec<u8>) -> (r: Option<Option<String>>)
    ensures
        r is None <==> container_datetime_text(bytes@) is None,
        r matches Some(o) ==> container_datetime_text(bytes@) matches Some(so) && (o is None
            <==> so is None),
        r matches Some(Some(t)) ==> container_datetime_text(bytes@) == Some(Some(t@)),
{
    let mut cur = std::io::Cursor::new(bytes.as_slice());
    let decoded = ::exif::Reader::new().read_from_container(&mut cur).ok()?;
    let field = decoded.get_field(::exif::Tag::DateTimeOriginal, ::exif::In::PRIMARY).or_else(
        || decoded.get_field(::exif::Tag::DateTimeDigitized, ::exif::In::PRIMARY),
    ).or_else(|| decoded.get_field(::exif::Tag::DateTime, ::exif::In::PRIMARY));
    match field {
        Some(f) => Some(Some(f.display_value().to_string())),
        None => Some(None),
    }
}

/// Relies on kamadak-exif: `Reader::read_raw` decodes a raw TIFF buffer,
/// and the same field lookup and rendering as the container path; all
/// depend on the bytes alone.
#[verifier::external_body]
fn read_raw_datetime(buf: Vec<u8>) -> (r: Option<Option<String>>)
    ensures
        r is None <==> raw_datetime_text(buf@) is None,
        r matches Some(o) ==> raw_datetime_text(buf@) matches Some(so) && (o is None
            <==> so is None),
        r matches Some(Some(t)) ==> raw_datetime_text(buf@) == Some(Some(t@)),
{
    let decoded = ::exif::Reader::new().read_raw(buf).ok()?;
    let field = decoded.get_field(::exif::Tag::DateTimeOriginal, ::exif::In::PRIMARY).or_else(
        || decoded.get_field(::exif::Tag::DateTimeDigitized, ::exif::In::PRIMARY),
    ).or_else(|| decoded.get_field(::exif::Tag::DateTime, ::exif::In::PRIMARY));
    match field {
        Some(f) => Some(Some(f.display_value().to_string())),
        None => Some(None),
    }
}

/// The date that a given datetime text must produce: a shape mismatch is
/// the invalid-datetime failure, and so is a well-shaped text whose
/// fields are no real calendar datetime; a real timestamp either yields
/// its own calendar fields or falls in a local-time gap — nothing else.
pub open spec fn date_result_for_text(r: Result<Date, ExifError>, t: Seq<char>) -> bool {
    match spec_parse_datetime(t) {
        None => r == Err::<Date, ExifError>(ExifError::InvalidDateTime),
        Some(p) => if !spec_real_datetime(
            p.year as int,
            p.month as int,
            p.day as int,
            p.hour as int,
            p.minute as int,
            p.second as int,
        ) {
            r == Err::<Date, ExifError>(ExifError::InvalidDateTime)
        } else {
            match r {
                Ok(d) => d.year == p.year && d.month == p.month && d.day == p.day && valid_date(d),
                Err(e) => e == ExifError::LocalTimeGap,
            }
        },
    }
}

/// The datetime text `t` cannot produce a date: it is ill-shaped, or its
/// fields are no real calendar datetime.
pub open spec fn text_certainly_fails(t: Seq<char>) -> bool {
    match spec_parse_datetime(t) {
        None => true,
        Some(p) => !spec_real_datetime(
            p.year as int,
            p.month as int,
            p.day as int,
            p.hour as int,
            p.minute as int,
            p.second as int,
        ),
    }
}


/// The extraction is bound to fail on these bytes: every case the
/// contract distinguishes ends in an error, whatever the local time zone
/// answers.
pub open spec fn exif_certainly_fails(b: Seq<u8>) -> bool {
    match container_datetime_text(b) {
        Some(Some(t)) => text_certainly_fails(t),
        Some(None) => true,
        None => match spec_find_exif(b, 0) {
            ExifScan::Found(seg) => match raw_datetime_text(seg) {
                Some(Some(t)) => text_certainly_fails(t),
                Some(None) => true,
                None => true,
            },
            ExifScan::Truncated => true,
            ExifScan::BadLength => true,
        },
    }
}

/// Extracts the capture date embedded in an image's bytes: first through
/// the conformant container parse, then through the raw APP1 scan, reading
/// the first present datetime field and interpreting it in the local time
/// zone.
pub fn read_taken_at_from_exif(bytes: &Vec<u8>) -> (r: Result<Date, ExifError>)
    ensures
        r matches Ok(d) ==> valid_date(d),
        exif_certainly_fails(bytes@) ==> r is Err,
        container_datetime_text(bytes@) matches Some(Some(t)) ==> date_result_for_text(r, t),
        (container_datetime_text(bytes@) matches Some(o) && o is None) ==> r == Err::<
            Date,
            ExifError,
        >(ExifError::NoDateTag),
        container_datetime_text(bytes@) is None ==> match spec_find_exif(bytes@, 0) {
            ExifScan::Found(seg) => match raw_datetime_text(seg) {
                Some(Some(t)) => date_result_for_text(r, t),
                Some(None) => r == Err::<Date, ExifError>(ExifError::NoDateTag),
                None => r == Err::<Date, ExifError>(ExifError::DecodeFailed),
            },
            ExifScan::Truncated => r == Err::<Date, ExifError>(ExifError::Truncated),
            ExifScan::BadLength => r == Err::<Date, ExifError>(ExifError::BadSegmentLength),
        },
{
    let text: String = match read_container_datetime(bytes) {
        Some(Some(t)) => t,
        Some(None) => {
            return Err(ExifError::NoDateTag);
        },
        None => {
            let mut s = ByteStream::new(bytes.clone());
            let seg = match find_exif(&mut s) {
                Ok(seg) => seg,
                Err(e) => {
                    return Err(e);
                },
            };
            match read_raw_datetime(seg) {
                Some(Some(t)) => t,
                Some(None) => {
                    return Err(ExifError::NoDateTag);
                },
                None => {
                    return Err(ExifError::DecodeFailed);
                },
            }
        },
    };
    date_from_datetime_text(text.as_str())
}

/// Parses a datetime text and interprets it in the local time zone,
/// keeping its calendar fields.
fn date_from_datetime_text(text: &str) -> (r: Result<Date, ExifError>)
    ensures
        date_result_for_text(r, text@),
        r matches Ok(d) ==> valid_date(d),
{
    let parts = match parse_datetime(text) {
        Some(p) => p,
        None => {
            return Err(ExifError::InvalidDateTime);
        },
    };
    assert(parts.year <= 9999);
    match local_ymd_from_naive(parts.year, parts.month, parts.day, parts.hour, parts.minute,
        parts.second) {
        Some(Some(t)) => Ok(Date { year: t.0, month: t.1, day: t.2 }),
        Some(None) => Err(ExifError::LocalTimeGap),
        None => Err(ExifError::InvalidDateTime),
    }
}

} // verus!
