use media_organizer::datetime::Date;
use media_organizer::plan::{
    build_plan, is_blank_listing, is_cross_volume, join_path, plan_entry, should_move, validate,
    Config, FileRecord, Progress, ValidateError,
};
use media_organizer::resolve::{classify, resolve_date, MediaKind};

fn date(y: u32, m: u32, d: u32) -> Date {
    Date::new(y, m, d).unwrap()
}

#[test]
fn classify_dispatches_by_lowercased_extension() {
    assert_eq!(classify("jpg"), MediaKind::Exif);
    assert_eq!(classify("JPG"), MediaKind::Exif);
    assert_eq!(classify("Tiff"), MediaKind::Exif);
    assert_eq!(classify("mov"), MediaKind::Atom);
    assert_eq!(classify("MP4"), MediaKind::Atom);
    assert_eq!(classify("txt"), MediaKind::Unsupported);
    assert_eq!(classify(""), MediaKind::Unsupported);
}

#[test]
fn unsupported_extension_uses_creation_date() {
    let d = resolve_date("txt", &None, Some(date(2018, 11, 3)));
    assert_eq!(d, date(2018, 11, 3));
}

#[test]
fn failed_extraction_falls_back_to_creation_date() {
    let junk = Some(vec![0u8, 1, 2, 3]);
    let d = resolve_date("jpg", &junk, Some(date(2017, 4, 20)));
    assert_eq!(d, date(2017, 4, 20));
}

#[test]
fn resolver_never_fails_even_without_any_source() {
    let d = resolve_date("txt", &None, None);
    assert!(1 <= d.month && d.month <= 12);
    assert!(1 <= d.day && d.day <= 31);
    assert!(d.year >= 2020);
}

#[test]
fn validate_rejects_relative_source() {
    assert_eq!(
        validate("photos", "/out", true),
        Err(ValidateError::SourceNotAbsolute)
    );
}

#[test]
fn validate_rejects_missing_source() {
    assert_eq!(
        validate("/photos", "/out", false),
        Err(ValidateError::SourceMissing)
    );
}

#[test]
fn validate_rejects_relative_target() {
    assert_eq!(
        validate("/photos", "out", true),
        Err(ValidateError::TargetNotAbsolute)
    );
}

#[test]
fn validate_rejects_equal_roots() {
    assert_eq!(
        validate("/photos", "/photos", true),
        Err(ValidateError::SameSourceAndTarget)
    );
}

#[test]
fn validate_compares_normalized_paths() {
    assert_eq!(
        validate("/a//b/", "/a/b", true),
        Err(ValidateError::SameSourceAndTarget)
    );
}

#[test]
fn validate_accepts_distinct_roots() {
    assert_eq!(validate("/photos", "/out", true), Ok(()));
}

#[test]
fn validate_error_messages() {
    assert_eq!(
        ValidateError::SourceNotAbsolute.message(),
        "Source path must be absolute"
    );
    assert_eq!(
        ValidateError::SourceMissing.message(),
        "Source path does not exist"
    );
    assert_eq!(
        ValidateError::TargetNotAbsolute.message(),
        "Target path must be absolute"
    );
    assert_eq!(
        ValidateError::SameSourceAndTarget.message(),
        "Source and target path must be different"
    );
}

#[test]
fn join_path_inserts_separator() {
    assert_eq!(join_path("/out", "a/b.jpg"), "/out/a/b.jpg");
}

#[test]
fn join_path_keeps_existing_separator() {
    assert_eq!(join_path("/out/", "a"), "/out/a");
}

#[test]
fn join_path_absolute_sub_replaces_root() {
    assert_eq!(join_path("/out", "/abs/x"), "/abs/x");
}

#[test]
fn plan_entry_for_conformant_exif_scenario() {
    // the destination a JPEG taken 2021-06-15 gets under /out
    let dest = plan_entry(
        "/out",
        "{CREATED_YYYY}/{CREATED_MM}/{FILE_NAME}",
        &date(2021, 6, 15),
        "photo.jpg",
    );
    assert_eq!(dest, "/out/2021/06/photo.jpg");
}

fn record(path: &str, name: &str, ext: &str, created: Option<Date>) -> FileRecord {
    FileRecord {
        path: path.to_string(),
        file_name: name.to_string(),
        extension: ext.to_string(),
        bytes: None,
        fs_created: created,
    }
}

#[test]
fn build_plan_pairs_each_file_with_its_destination() {
    let files = vec![
        record("/photos/a.txt", "a.txt", "txt", Some(date(2020, 1, 2))),
        record("/photos/sub/b.txt", "b.txt", "txt", Some(date(2021, 12, 31))),
    ];
    let plan = build_plan(&files, "/out", "{CREATED_YYYY}/{CREATED_MM}/{FILE_NAME}");
    assert_eq!(plan.entries.len(), 2);
    assert_eq!(
        plan.entries[0],
        ("/photos/a.txt".to_string(), "/out/2020/01/a.txt".to_string())
    );
    assert_eq!(
        plan.entries[1],
        (
            "/photos/sub/b.txt".to_string(),
            "/out/2021/12/b.txt".to_string()
        )
    );
}

#[test]
fn build_plan_keeps_colliding_destinations() {
    // two sources resolving to one destination stay in the plan; execution
    // moves the first and skips the second
    let files = vec![
        record("/photos/x/c.txt", "c.txt", "txt", Some(date(2020, 5, 5))),
        record("/photos/y/c.txt", "c.txt", "txt", Some(date(2020, 5, 5))),
    ];
    let plan = build_plan(&files, "/out", "{CREATED_YYYY}/{FILE_NAME}");
    assert_eq!(plan.entries.len(), 2);
    assert_eq!(plan.entries[0].1, plan.entries[1].1);
    assert_ne!(plan.entries[0].0, plan.entries[1].0);
    assert!(should_move(false));
    assert!(!should_move(true));
}

#[test]
fn progress_counts_inclusive_of_current_entry() {
    let p = Progress::new(0, 4);
    assert_eq!(p.complete, 1);
    assert_eq!(p.total, 4);
    let q = Progress::new(3, 4);
    assert_eq!(q.complete, 4);
}

#[test]
fn blank_listing_ignores_platform_marker() {
    assert!(is_blank_listing(&vec![]));
    assert!(is_blank_listing(&vec![".DS_Store".to_string()]));
    assert!(!is_blank_listing(&vec![
        ".DS_Store".to_string(),
        "keep.txt".to_string()
    ]));
    assert!(!is_blank_listing(&vec!["photo.jpg".to_string()]));
}

#[test]
fn build_plan_reads_embedded_exif_date() {
    // a conformant JPEG flows through classification, extraction and the
    // template into its destination
    let mut tiff: Vec<u8> = Vec::new();
    tiff.extend_from_slice(b"MM\x00\x2a\x00\x00\x00\x08");
    tiff.extend_from_slice(&[0, 1]); // IFD0: one entry
    tiff.extend_from_slice(&[0x87, 0x69, 0, 4, 0, 0, 0, 1, 0, 0, 0, 26]);
    tiff.extend_from_slice(&[0, 0, 0, 0]);
    tiff.extend_from_slice(&[0, 1]); // Exif IFD: one entry
    tiff.extend_from_slice(&[0x90, 0x03, 0, 2, 0, 0, 0, 20, 0, 0, 0, 44]);
    tiff.extend_from_slice(&[0, 0, 0, 0]);
    tiff.extend_from_slice(b"2021:06:15 10:30:00\0");
    let mut jpeg = vec![0xff, 0xd8, 0xff, 0xe1];
    let seg_len = (2 + 6 + tiff.len()) as u16;
    jpeg.push((seg_len >> 8) as u8);
    jpeg.push(seg_len as u8);
    jpeg.extend_from_slice(b"Exif\0\0");
    jpeg.extend_from_slice(&tiff);
    jpeg.extend_from_slice(&[0xff, 0xd9]);
    let files = vec![FileRecord {
        path: "/photos/photo.jpg".to_string(),
        file_name: "photo.jpg".to_string(),
        extension: "jpg".to_string(),
        bytes: Some(jpeg),
        fs_created: Some(date(1999, 9, 9)),
    }];
    let plan = build_plan(&files, "/out", "{CREATED_YYYY}/{CREATED_MM}/{FILE_NAME}");
    assert_eq!(
        plan.entries[0],
        (
            "/photos/photo.jpg".to_string(),
            "/out/2021/06/photo.jpg".to_string()
        )
    );
}

#[test]
fn cross_volume_compares_three_character_prefixes() {
    assert!(is_cross_volume("C:\\photos\\a.jpg", "D:\\out\\a.jpg"));
    assert!(!is_cross_volume("C:\\photos\\a.jpg", "C:\\out\\a.jpg"));
    assert!(!is_cross_volume("ab", "ab"));
    assert!(is_cross_volume("ab", "abc"));
}

#[test]
fn config_default_is_empty_v0() {
    let Config::V0 { source, target, pattern } = Config::default();
    assert_eq!(source, "");
    assert_eq!(target, "");
    assert_eq!(pattern, "");
}
