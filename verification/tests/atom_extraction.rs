use chrono::{Datelike, TimeZone};
use media_organizer::atom::{
    atom_creation_seconds, read_head, read_taken_at_from_atom, seek_to, AtomError, MOOV_CC,
    MVHD_CC,
};
use media_organizer::stream::ByteStream;

fn push_u32(out: &mut Vec<u8>, v: u32) {
    out.push((v >> 24) as u8);
    out.push((v >> 16) as u8);
    out.push((v >> 8) as u8);
    out.push(v as u8);
}

fn push_u64(out: &mut Vec<u8>, v: u64) {
    push_u32(out, (v >> 32) as u32);
    push_u32(out, v as u32);
}

/// A `moov` atom holding one `mvhd` with version 0 and the given 32-bit
/// creation seconds, behind a leading `ftyp` atom.
fn container_v0(secs: u32) -> Vec<u8> {
    let mut b = Vec::new();
    push_u32(&mut b, 16);
    b.extend_from_slice(b"ftyp");
    b.extend_from_slice(b"isom\0\0\0\0");
    push_u32(&mut b, 8 + 16);
    b.extend_from_slice(b"moov");
    push_u32(&mut b, 16);
    b.extend_from_slice(b"mvhd");
    b.extend_from_slice(&[0, 0, 0, 0]); // version 0, flags
    push_u32(&mut b, secs);
    b
}

#[test]
fn mvhd_version0_seconds_decode() {
    let b = container_v0(3_000_000_000);
    assert_eq!(atom_creation_seconds(&b), Ok(3_000_000_000));
}

#[test]
fn mvhd_version0_resolves_to_1904_epoch_instant() {
    let b = container_v0(3_000_000_000);
    let d = read_taken_at_from_atom(&b).unwrap();
    let epoch = chrono::Utc.with_ymd_and_hms(1904, 1, 1, 0, 0, 0).unwrap();
    let expected = (epoch + chrono::TimeDelta::try_seconds(3_000_000_000).unwrap())
        .with_timezone(&chrono::Local);
    assert_eq!(d.year, expected.year() as u32);
    assert_eq!(d.month, expected.month());
    assert_eq!(d.day, expected.day());
}

#[test]
fn mvhd_version1_reads_64_bit_seconds() {
    let mut b = Vec::new();
    push_u32(&mut b, 8 + 20);
    b.extend_from_slice(b"moov");
    push_u32(&mut b, 20);
    b.extend_from_slice(b"mvhd");
    b.extend_from_slice(&[1, 0, 0, 0]); // version 1, flags
    push_u64(&mut b, 5_000_000_000);
    assert_eq!(atom_creation_seconds(&b), Ok(5_000_000_000));
}

#[test]
fn extended_length_header_subtracts_sixteen() {
    let mut b = Vec::new();
    push_u32(&mut b, 1);
    b.extend_from_slice(b"free");
    push_u64(&mut b, 24);
    b.extend_from_slice(&[0; 8]);
    let mut s = ByteStream::new(b);
    let h = read_head(&mut s).unwrap();
    assert_eq!(h.length, 8);
}

#[test]
fn undersized_atom_length_is_malformed() {
    let mut b = Vec::new();
    push_u32(&mut b, 5);
    b.extend_from_slice(b"moov");
    assert_eq!(atom_creation_seconds(&b), Err(AtomError::Malformed));
}

#[test]
fn missing_moov_is_truncated() {
    let mut b = Vec::new();
    push_u32(&mut b, 16);
    b.extend_from_slice(b"ftyp");
    b.extend_from_slice(b"isom\0\0\0\0");
    assert_eq!(atom_creation_seconds(&b), Err(AtomError::Truncated));
}

#[test]
fn seek_to_walks_over_other_atoms() {
    let b = container_v0(7);
    let mut s = ByteStream::new(b);
    let moov = seek_to(&mut s, MOOV_CC).unwrap();
    assert_eq!(moov.length, 16);
    let mvhd = seek_to(&mut s, MVHD_CC).unwrap();
    assert_eq!(mvhd.length, 8);
}

#[test]
fn seconds_beyond_i64_fail_instead_of_wrapping() {
    // a creation-seconds value that no signed delta can carry must be the
    // out-of-range failure, never a wrapped pre-1904 date
    let mut b = Vec::new();
    push_u32(&mut b, 8 + 20);
    b.extend_from_slice(b"moov");
    push_u32(&mut b, 20);
    b.extend_from_slice(b"mvhd");
    b.extend_from_slice(&[1, 0, 0, 0]);
    push_u64(&mut b, u64::MAX);
    assert_eq!(read_taken_at_from_atom(&b), Err(AtomError::TimeOutOfRange));
}

#[test]
fn out_of_range_seconds_fail() {
    let mut b = Vec::new();
    push_u32(&mut b, 8 + 20);
    b.extend_from_slice(b"moov");
    push_u32(&mut b, 20);
    b.extend_from_slice(b"mvhd");
    b.extend_from_slice(&[1, 0, 0, 0]);
    push_u64(&mut b, i64::MAX as u64);
    assert_eq!(read_taken_at_from_atom(&b), Err(AtomError::TimeOutOfRange));
}
