//! Per-file timestamp resolution.
//!
//! A file is classified by its lowercased extension into the EXIF image
//! family, the atom video family, or the unsupported rest.  The resolver
//! dispatches to the matching extractor and falls back, on any extraction
//! failure, to the filesystem creation date the caller read, and last to
//! the current local date; by design it always yields a date.

use crate::atom::{read_taken_at_from_atom, spec_atom_seconds};
use crate::datetime::{spec_parse_datetime, today_local, valid_date, Date, DateTimeParts};
use crate::exif::{
    container_datetime_text, exif_certainly_fails, raw_datetime_text, read_taken_at_from_exif,
    spec_find_exif, ExifScan,
};
use crate::template::chars_of_str;
use vstd::prelude::*;

verus! {

/// Which extractor a file's extension selects.
#[derive(Clone, Copy, Debug, PartialEq, Eq, Structural)]
pub enum MediaKind {
    /// An image container with an EXIF block.
    Exif,
    /// An ISO-BMFF/QuickTime container.
    Atom,
    /// Anything else: no extractor applies.
    Unsupported,
}

/// The ASCII-lowercased counterpart of `c`.
pub open spec fn lower_char(c: char) -> char {
    if c == 'A' {
        'a'
    } else if c == 'A' {
        'a'
    } else if c == 'B' {
        'b'
    } else if c == 'C' {
        'c'
    } else if c == 'D' {
        'd'
    } else if c == 'E' {
        'e'
    } else if c == 'F' {
        'f'
    } else if c == 'G' {
        'g'
    } else if c == 'H' {
        'h'
    } else if c == 'I' {
        'i'
    } else if c == 'J' {
        'j'
    } else if c == 'K' {
        'k'
    } else if c == 'L' {
        'l'
    } else if c == 'M' {
        'm'
    } else if c == 'N' {
        'n'
    } else if c == 'O' {
        'o'
    } else if c == 'P' {
        'p'
    } else if c == 'Q' {
        'q'
    } else if c == 'R' {
        'r'
    } else if c == 'S' {
        's'
    } else if c == 'T' {
        't'
    } else if c == 'U' {
        'u'
    } else if c == 'V' {
        'v'
    } else if c == 'W' {
        'w'
    } else if c == 'X' {
        'x'
    } else if c == 'Y' {
        'y'
    } else if c == 'Z' {
        'z'
    } else {
        c
    }
}

/// The ASCII-lowercased counterpart of `s`, character by character.
pub open spec fn lower_seq(s: Seq<char>) -> Seq<char> {
    s.map_values(|c: char| lower_char(c))
}

/// The extractor family of a lowercased extension.
pub open spec fn spec_classify(ext: Seq<char>) -> MediaKind {
    let e = lower_seq(ext);
    if e == "jpg"@
        || e == "jpeg"@
        || e == "heif"@
        || e == "heic"@
        || e == "avif"@
        || e == "webp"@
        || e == "png"@
        || e == "nef"@
        || e == "nrw"@
        || e == "cr2"@
        || e == "dng"@
        || e == "arw"@
        || e == "sr2"@
        || e == "srf"@
        || e == "rw2"@
        || e == "raf"@
        || e == "pef"@
        || e == "mos"@
        || e == "3fr"@
        || e == "erf"@
        || e == "mef"@
        || e == "dcr"@
        || e == "srw"@
        || e == "tif"@
        || e == "tiff"@ {
        MediaKind::Exif
    } else if e == "mp4"@ || e == "m4v"@ || e == "mov"@ || e == "qt"@ {
        MediaKind::Atom
    } else {
        MediaKind::Unsupported
    }
}

/// The ASCII-lowercased counterpart of `c`.
fn lower_char_exec(c: char) -> (r: char)
    ensures
        r == lower_char(c),
{
    if c == 'A' {
        'a'
    } else if c == 'A' {
        'a'
    } else if c == 'B' {
        'b'
    } else if c == 'C' {
        'c'
    } else if c == 'D' {
        'd'
    } else if c == 'E' {
        'e'
    } else if c == 'F' {
        'f'
    } else if c == 'G' {
        'g'
    } else if c == 'H' {
        'h'
    } else if c == 'I' {
        'i'
    } else if c == 'J' {
        'j'
    } else if c == 'K' {
        'k'
    } else if c == 'L' {
        'l'
    } else if c == 'M' {
        'm'
    } else if c == 'N' {
        'n'
    } else if c == 'O' {
        'o'
    } else if c == 'P' {
        'p'
    } else if c == 'Q' {
        'q'
    } else if c == 'R' {
        'r'
    } else if c == 'S' {
        's'
    } else if c == 'T' {
        't'
    } else if c == 'U' {
        'u'
    } else if c == 'V' {
        'v'
    } else if c == 'W' {
        'w'
    } else if c == 'X' {
        'x'
    } else if c == 'Y' {
        'y'
    } else if c == 'Z' {
        'z'
    } else {
        c
    }
}

/// The ASCII-lowercased counterpart of `v`, character by character.
fn lower_chars(v: &Vec<char>) -> (r: Vec<char>)
    ensures
        r@ == lower_seq(v@),
{
    let mut out: Vec<char> = Vec::new();
    let mut i: usize = 0;
    while i < v.len()
        invariant
            i <= v@.len(),
            out@ == lower_seq(v@.subrange(0, i as int)),
        decreases v@.len() - i,
    {
        out.push(lower_char_exec(v[i]));
        proof {
            assert(out@ =~= lower_seq(v@.subrange(0, i + 1)));
        }
        i = i + 1;
    }
    proof {
        assert(v@.subrange(0, v@.len() as int) =~= v@);
    }
    out
}

/// The characters of `v` are exactly those of the literal `s`.
pub(crate) fn str_eq_chars(v: &Vec<char>, s: &str) -> (r: bool)
    ensures
        r == (v@ == s@),
{
    let n = s.unicode_len();
    if v.len() != n {
        proof {
            if v@ == s@ {
                assert(v@.len() == s@.len());
            }
        }
        return false;
    }
    let mut i: usize = 0;
    while i < n
        invariant
            n == s@.len(),
            v@.len() == n,
            i <= n,
            forall|t: int| 0 <= t < i ==> v@[t] == s@[t],
        decreases n - i,
    {
        if v[i] != s.get_char(i) {
            return false;
        }
        i = i + 1;
    }
    proof {
        assert(v@ =~= s@);
    }
    true
}

/// Classifies a file extension, lowercased first, into its extractor
/// family.
pub fn classify(ext: &str) -> (r: MediaKind)
    ensures
        r == spec_classify(ext@),
{
    let low = lower_chars(&chars_of_str(ext));
    if str_eq_chars(&low, "jpg")
        || str_eq_chars(&low, "jpeg")
        || str_eq_chars(&low, "heif")
        || str_eq_chars(&low, "heic")
        || str_eq_chars(&low, "avif")
        || str_eq_chars(&low, "webp")
        || str_eq_chars(&low, "png")
        || str_eq_chars(&low, "nef")
        || str_eq_chars(&low, "nrw")
        || str_eq_chars(&low, "cr2")
        || str_eq_chars(&low, "dng")
        || str_eq_chars(&low, "arw")
        || str_eq_chars(&low, "sr2")
        || str_eq_chars(&low, "srf")
        || str_eq_chars(&low, "rw2")
        || str_eq_chars(&low, "raf")
        || str_eq_chars(&low, "pef")
        || str_eq_chars(&low, "mos")
        || str_eq_chars(&low, "3fr")
        || str_eq_chars(&low, "erf")
        || str_eq_chars(&low, "mef")
        || str_eq_chars(&low, "dcr")
        || str_eq_chars(&low, "srw")
        || str_eq_chars(&low, "tif")
        || str_eq_chars(&low, "tiff") {
        MediaKind::Exif
    } else if str_eq_chars(&low, "mp4") || str_eq_chars(&low, "m4v") || str_eq_chars(&low, "mov")
        || str_eq_chars(&low, "qt") {
        MediaKind::Atom
    } else {
        MediaKind::Unsupported
    }
}


/// The view of an optional byte buffer.
pub open spec fn view_opt_bytes(bytes: Option<Vec<u8>>) -> Option<Seq<u8>> {
    match bytes {
        Some(v) => Some(v@),
        None => None,
    }
}

/// The answer carries the extracted calendar fields, or the chain fell
/// back: to the creation date when one was given, else to the clock's
/// answer.  The fallback arm is reachable only where the local-time
/// mapping rejected the timestamp.
pub open spec fn extracted_or_fallback(r: Date, p: DateTimeParts, fs_created: Option<Date>) -> bool {
    ||| (r.year == p.year && r.month == p.month && r.day == p.day)
    ||| (fs_created matches Some(c) && r == c)
    ||| fs_created is None
}

/// The EXIF-path part of `resolver_post`: extraction that is bound to
/// fail falls back to the creation date, and a decoded timestamp text —
/// from the container parse or the raw scan — pins the answer's fields up
/// to the fallback arm.
pub open spec fn exif_resolver_post(b: Seq<u8>, fs_created: Option<Date>, r: Date) -> bool {
    &&& exif_certainly_fails(b) ==> (fs_created matches Some(c) ==> r == c)
    &&& container_datetime_text(b) matches Some(Some(t)) ==> (spec_parse_datetime(t)
        matches Some(p) ==> extracted_or_fallback(r, p, fs_created))
    &&& container_datetime_text(b) is None ==> (spec_find_exif(b, 0) matches ExifScan::Found(seg)
        ==> (raw_datetime_text(seg) matches Some(Some(t)) ==> (spec_parse_datetime(t)
        matches Some(p) ==> extracted_or_fallback(r, p, fs_created))))
}

/// Everything the fallback policy pins of the resolver's answer `r`: the
/// answer is always a valid date; with no applicable extractor, no bytes,
/// or extraction bound to fail, it is the creation date when one was
/// given; and an extracted timestamp's calendar fields carry through to
/// the answer, up to the fallback arm of `extracted_or_fallback`.
pub open spec fn resolver_post(
    extension: Seq<char>,
    bytes: Option<Seq<u8>>,
    fs_created: Option<Date>,
    r: Date,
) -> bool {
    &&& valid_date(r)
    &&& spec_classify(extension) == MediaKind::Unsupported ==> (fs_created matches Some(c) ==> r
        == c)
    &&& bytes is None ==> (fs_created matches Some(c) ==> r == c)
    &&& spec_classify(extension) == MediaKind::Exif ==> (bytes matches Some(b)
        ==> exif_resolver_post(b, fs_created, r))
    &&& spec_classify(extension) == MediaKind::Atom ==> (bytes matches Some(b)
        ==> atom_resolver_post(b, fs_created, r))
}

/// The atom-path part of `resolver_post`: a walk that fails, and a
/// creation-seconds value beyond any signed delta, both fall back to the
/// creation date.
pub open spec fn atom_resolver_post(b: Seq<u8>, fs_created: Option<Date>, r: Date) -> bool {
    &&& spec_atom_seconds(b) is Err ==> (fs_created matches Some(c) ==> r == c)
    &&& spec_atom_seconds(b) matches Ok(n) ==> (n > i64::MAX ==> (fs_created matches Some(c)
        ==> r == c))
}

/// Resolves the one capture date of a file, never failing: the embedded
/// timestamp of the matching extractor when it succeeds, else the
/// filesystem creation date when the caller could read one, else the
/// current local date.
pub fn resolve_date(extension: &str, bytes: &Option<Vec<u8>>, fs_created: Option<Date>) -> (r:
    Date)
    requires
        fs_created matches Some(c) ==> valid_date(c),
    ensures
        resolver_post(extension@, view_opt_bytes(*bytes), fs_created, r),
{
    let extracted: Option<Date> = match classify(extension) {
        MediaKind::Exif => match bytes {
            Some(b) => match read_taken_at_from_exif(b) {
                Ok(d) => Some(d),
                Err(_) => None,
            },
            None => None,
        },
        MediaKind::Atom => match bytes {
            Some(b) => match read_taken_at_from_atom(b) {
                Ok(d) => Some(d),
                Err(_) => None,
            },
            None => None,
        },
        MediaKind::Unsupported => None,
    };
    match extracted {
        Some(d) => d,
        None => match fs_created {
            Some(c) => c,
            None => {
                let t = today_local();
                Date { year: t.0, month: t.1, day: t.2 }
            },
        },
    }
}

} // verus!
