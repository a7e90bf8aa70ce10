use media_organizer::datetime::Date;
use media_organizer::stream::{read16, read32, read64, read8, ByteStream, ReadError};
use media_organizer::template::resolve_template;

#[test]
fn read8_reads_bytes_in_order() {
    let mut s = ByteStream::new(vec![0xab, 0xcd]);
    assert_eq!(read8(&mut s), Ok(0xab));
    assert_eq!(read8(&mut s), Ok(0xcd));
    assert_eq!(read8(&mut s), Err(ReadError::EndOfStream));
}

#[test]
fn read16_is_big_endian() {
    let mut s = ByteStream::new(vec![0x12, 0x34]);
    assert_eq!(read16(&mut s), Ok(0x1234));
}

#[test]
fn read32_is_big_endian() {
    let mut s = ByteStream::new(vec![0x12, 0x34, 0x56, 0x78]);
    assert_eq!(read32(&mut s), Ok(0x12345678));
}

#[test]
fn read64_is_big_endian() {
    let mut s = ByteStream::new(vec![0x01, 0x23, 0x45, 0x67, 0x89, 0xab, 0xcd, 0xef]);
    assert_eq!(read64(&mut s), Ok(0x0123456789abcdef));
}

#[test]
fn read_past_end_fails_and_keeps_position() {
    let mut s = ByteStream::new(vec![0x12]);
    assert_eq!(read32(&mut s), Err(ReadError::EndOfStream));
    assert_eq!(read8(&mut s), Ok(0x12));
}

fn date(y: u32, m: u32, d: u32) -> Date {
    Date::new(y, m, d).unwrap()
}

#[test]
fn template_substitutes_all_placeholders() {
    let r = resolve_template(
        "{CREATED_YYYY}/{CREATED_MM}/{CREATED_DD}/{FILE_NAME}",
        &date(2021, 6, 15),
        "photo.jpg",
    );
    assert_eq!(r, "2021/06/15/photo.jpg");
}

#[test]
fn template_zero_pads_short_values() {
    let r = resolve_template(
        "{CREATED_YYYY}-{CREATED_MM}-{CREATED_DD}",
        &date(7, 3, 9),
        "x",
    );
    assert_eq!(r, "0007-03-09");
}

#[test]
fn template_wide_year_keeps_all_digits() {
    let r = resolve_template("{CREATED_YYYY}", &date(123456, 1, 2), "x");
    assert_eq!(r, "123456");
}

#[test]
fn template_leaves_unknown_tokens_verbatim() {
    let r = resolve_template("{UNKNOWN}/{created_yyyy}/x", &date(2021, 6, 15), "photo.jpg");
    assert_eq!(r, "{UNKNOWN}/{created_yyyy}/x");
}

#[test]
fn template_without_placeholders_passes_through() {
    let r = resolve_template("plain/path", &date(2021, 6, 15), "photo.jpg");
    assert_eq!(r, "plain/path");
}

#[test]
fn template_substitutes_every_occurrence() {
    let r = resolve_template("{CREATED_MM}{CREATED_MM}", &date(2021, 6, 15), "x");
    assert_eq!(r, "0606");
}

#[test]
fn template_keeps_file_name_verbatim() {
    let r = resolve_template("{FILE_NAME}", &date(2021, 6, 15), "Ünïcode name.JPG");
    assert_eq!(r, "Ünïcode name.JPG");
}
