use media_organizer::datetime::Date;
use media_organizer::exif::{find_exif, read_taken_at_from_exif, ExifError};
use media_organizer::stream::ByteStream;

fn push_u16(out: &mut Vec<u8>, v: u16) {
    out.push((v >> 8) as u8);
    out.push(v as u8);
}

fn push_u32(out: &mut Vec<u8>, v: u32) {
    out.push((v >> 24) as u8);
    out.push((v >> 16) as u8);
    out.push((v >> 8) as u8);
    out.push(v as u8);
}

/// A minimal big-endian TIFF block holding one ASCII datetime tag in the
/// Exif IFD, reached through the ExifIFDPointer of IFD0.
fn tiff_with_datetime(tag: u16, value: &str) -> Vec<u8> {
    assert_eq!(value.len(), 19);
    let mut t = Vec::new();
    t.extend_from_slice(b"MM");
    push_u16(&mut t, 0x002a);
    push_u32(&mut t, 8); // IFD0 offset
    // IFD0: one entry, the ExifIFDPointer
    push_u16(&mut t, 1);
    push_u16(&mut t, 0x8769);
    push_u16(&mut t, 4); // LONG
    push_u32(&mut t, 1);
    push_u32(&mut t, 26); // Exif IFD offset
    push_u32(&mut t, 0); // no next IFD
    // Exif IFD at 26: one entry, the requested datetime tag
    push_u16(&mut t, 1);
    push_u16(&mut t, tag);
    push_u16(&mut t, 2); // ASCII
    push_u32(&mut t, 20);
    push_u32(&mut t, 44); // string offset
    push_u32(&mut t, 0);
    assert_eq!(t.len(), 44);
    t.extend_from_slice(value.as_bytes());
    t.push(0);
    t
}

/// The same TIFF shape with no datetime field at all.
fn tiff_without_datetime() -> Vec<u8> {
    let mut t = Vec::new();
    t.extend_from_slice(b"MM");
    push_u16(&mut t, 0x002a);
    push_u32(&mut t, 8);
    push_u16(&mut t, 1);
    push_u16(&mut t, 0x0100); // ImageWidth
    push_u16(&mut t, 4);
    push_u32(&mut t, 1);
    push_u32(&mut t, 640);
    push_u32(&mut t, 0);
    t
}

/// A conformant JPEG: start-of-image, one EXIF APP1 segment, end-of-image.
fn jpeg_with_exif(tiff: &[u8]) -> Vec<u8> {
    let mut j = vec![0xff, 0xd8, 0xff, 0xe1];
    push_u16(&mut j, (2 + 6 + tiff.len()) as u16);
    j.extend_from_slice(b"Exif\0\0");
    j.extend_from_slice(tiff);
    j.push(0xff);
    j.push(0xd9);
    j
}

#[test]
fn conformant_jpeg_datetime_original_resolves() {
    let bytes = jpeg_with_exif(&tiff_with_datetime(0x9003, "2021:06:15 10:30:00"));
    let d = read_taken_at_from_exif(&bytes).unwrap();
    assert_eq!(d, Date { year: 2021, month: 6, day: 15 });
}

#[test]
fn nonconformant_embedding_found_by_raw_scan() {
    // an unrecognizable container: junk, then the marker sequence the raw
    // scan looks for, carrying DateTimeDigitized
    let tiff = tiff_with_datetime(0x9004, "2019:01:02 00:00:00");
    let mut bytes = vec![0x01, 0x02, 0xff, 0xd8, 0xff, 0xe1];
    push_u16(&mut bytes, (2 + 6 + tiff.len()) as u16);
    bytes.extend_from_slice(b"Exif\0\0");
    bytes.extend_from_slice(&tiff);
    let d = read_taken_at_from_exif(&bytes).unwrap();
    assert_eq!(d, Date { year: 2019, month: 1, day: 2 });
}

#[test]
fn exif_without_datetime_tag_fails() {
    let bytes = jpeg_with_exif(&tiff_without_datetime());
    assert_eq!(read_taken_at_from_exif(&bytes), Err(ExifError::NoDateTag));
}

#[test]
fn malformed_datetime_text_fails() {
    let bytes = jpeg_with_exif(&tiff_with_datetime(0x9003, "no date here at all"));
    assert_eq!(read_taken_at_from_exif(&bytes), Err(ExifError::InvalidDateTime));
}

#[test]
fn impossible_calendar_date_fails() {
    let bytes = jpeg_with_exif(&tiff_with_datetime(0x9003, "2021:02:30 10:30:00"));
    assert_eq!(read_taken_at_from_exif(&bytes), Err(ExifError::InvalidDateTime));
}

#[test]
fn leap_second_text_is_rejected() {
    // second 60 is no clock field of the library's calendar model
    let bytes = jpeg_with_exif(&tiff_with_datetime(0x9003, "2021:06:15 23:59:60"));
    assert_eq!(read_taken_at_from_exif(&bytes), Err(ExifError::InvalidDateTime));
}

#[test]
fn garbage_raw_segment_fails_decode() {
    // the raw scan finds an Exif-tagged APP1 segment, but its body is no
    // TIFF block
    let mut bytes = vec![0x00, 0xff, 0xd8, 0xff, 0xe1];
    push_u16(&mut bytes, 2 + 6 + 4);
    bytes.extend_from_slice(b"Exif\0\0");
    bytes.extend_from_slice(&[0xde, 0xad, 0xbe, 0xef]);
    assert_eq!(read_taken_at_from_exif(&bytes), Err(ExifError::DecodeFailed));
}

#[test]
fn empty_stream_has_no_exif_segment() {
    assert_eq!(read_taken_at_from_exif(&Vec::new()), Err(ExifError::Truncated));
}

#[test]
fn find_exif_strips_identifier() {
    let mut bytes = vec![0x00, 0xff, 0xd8, 0xff, 0xe1];
    push_u16(&mut bytes, 2 + 6 + 3);
    bytes.extend_from_slice(b"Exif\0\0");
    bytes.extend_from_slice(&[0xaa, 0xbb, 0xcc]);
    let mut s = ByteStream::new(bytes);
    assert_eq!(find_exif(&mut s), Ok(vec![0xaa, 0xbb, 0xcc]));
}

#[test]
fn find_exif_rejects_undersized_segment_length() {
    let bytes = vec![0xff, 0xd8, 0xff, 0xe1, 0x00, 0x01];
    let mut s = ByteStream::new(bytes);
    assert_eq!(find_exif(&mut s), Err(ExifError::BadSegmentLength));
}

#[test]
fn find_exif_skips_non_exif_app1_segments() {
    // a first APP1 segment without the identifier, then a second marker
    // sequence whose segment carries it
    let mut bytes = vec![0xff, 0xd8, 0xff, 0xe1, 0x00, 0x04, 0x41, 0x42];
    bytes.extend_from_slice(&[0xff, 0xd8, 0xff, 0xe1]);
    push_u16(&mut bytes, 2 + 6 + 1);
    bytes.extend_from_slice(b"Exif\0\0");
    bytes.push(0x5a);
    let mut s = ByteStream::new(bytes);
    assert_eq!(find_exif(&mut s), Ok(vec![0x5a]));
}

#[test]
fn find_exif_on_markerless_stream_is_truncated() {
    let mut s = ByteStream::new(vec![0x00, 0x01, 0x02, 0x03]);
    assert_eq!(find_exif(&mut s), Err(ExifError::Truncated));
}
