//! The canonical-name engine, driven end to end through real metadata
//! containers built byte by byte.

use photo_tidier::metadata::extract_timestamp;
use photo_tidier::metadata::metadata_field_lines;
use photo_tidier::photo::Photo;
use photo_tidier::timestamp::parse_timestamp;
use photo_tidier::timestamp::Timestamp;

/// A minimal little-endian TIFF byte stream whose single metadata field is
/// the capture date-time, holding the given ASCII text.
fn tiff_with_datetime(text: &str) -> Vec<u8> {
    let mut b: Vec<u8> = Vec::new();
    b.extend_from_slice(b"II");
    b.extend_from_slice(&42u16.to_le_bytes());
    b.extend_from_slice(&8u32.to_le_bytes());
    b.extend_from_slice(&1u16.to_le_bytes());
    b.extend_from_slice(&0x0132u16.to_le_bytes());
    b.extend_from_slice(&2u16.to_le_bytes());
    b.extend_from_slice(&((text.len() + 1) as u32).to_le_bytes());
    b.extend_from_slice(&26u32.to_le_bytes());
    b.extend_from_slice(&0u32.to_le_bytes());
    b.extend_from_slice(text.as_bytes());
    b.push(0);
    b
}

fn photo_with(stem: &str, ext: &str) -> Photo {
    Photo {
        path: format!("{}.{}", stem, ext),
        file_name: format!("{}.{}", stem, ext),
        stem: stem.to_string(),
        extension: ext.to_string(),
        cache: None,
    }
}

fn ts(year: u32, month: u32, day: u32, hour: u32, minute: u32, second: u32) -> Timestamp {
    Timestamp { year, month, day, hour, minute, second }
}

#[test]
fn canonical_name_from_capture_metadata() {
    let bytes = tiff_with_datetime("2023:06:01 10:15:30");
    let mut photo = photo_with("IMG_0001", "JPG");
    let name = photo.get_new_file_name(&bytes);
    assert_eq!(name, "2023-06-01_10-15-30.jpg");
}

#[test]
fn canonical_name_without_metadata() {
    let bytes: Vec<u8> = Vec::new();
    let mut photo = photo_with("plain", "jpg");
    assert_eq!(photo.get_new_file_name(&bytes), "plain.jpg");

    let mut photo = photo_with("MyPhoto", "JPG");
    assert_eq!(photo.get_new_file_name(&bytes), "MyPhoto.jpg");
}

#[test]
fn canonical_name_idempotent() {
    let bytes = tiff_with_datetime("2023:06:01 10:15:30");
    let mut photo = photo_with("IMG_0001", "JPG");
    assert!(!photo.metadata_loaded());
    let first = photo.get_new_file_name(&bytes);
    assert!(photo.metadata_loaded());
    // the second computation may be handed anything: the outcome is cached
    let second = photo.get_new_file_name(&Vec::new());
    assert_eq!(first, second);
}

#[test]
fn get_timestamp_reads_metadata_once() {
    let bytes = tiff_with_datetime("2023:06:01 10:15:30");
    let mut photo = photo_with("IMG_0001", "JPG");
    assert_eq!(photo.get_timestamp(&bytes), Some(ts(2023, 6, 1, 10, 15, 30)));
    assert_eq!(photo.get_timestamp(&Vec::new()), Some(ts(2023, 6, 1, 10, 15, 30)));
}

#[test]
fn collision_canonical_names_coincide() {
    let bytes: Vec<u8> = Vec::new();
    let mut upper = photo_with("photo", "JPG");
    let mut lower = photo_with("photo", "jpg");
    let a = upper.get_new_file_name(&bytes);
    let b = lower.get_new_file_name(&bytes);
    assert_eq!(a, "photo.jpg");
    assert_eq!(a, b);
}

#[test]
fn extract_timestamp_from_real_container() {
    let bytes = tiff_with_datetime("2023:06:01 10:15:30");
    assert_eq!(extract_timestamp(&bytes), Some(ts(2023, 6, 1, 10, 15, 30)));
}

#[test]
fn extract_timestamp_absent_or_malformed() {
    assert_eq!(extract_timestamp(&Vec::new()), None);
    assert_eq!(extract_timestamp(&b"not an image at all".to_vec()), None);
    // a present field whose text is out of range degrades to absence
    assert_eq!(extract_timestamp(&tiff_with_datetime("2023:06:01 10:15:99")), None);
    assert_eq!(extract_timestamp(&tiff_with_datetime("garbage text here..")), None);
}

#[test]
fn parse_timestamp_exact() {
    assert_eq!(parse_timestamp("2023-06-01 10:15:30"), Some(ts(2023, 6, 1, 10, 15, 30)));
    assert_eq!(parse_timestamp("0001-01-01 00:00:00"), Some(ts(1, 1, 1, 0, 0, 0)));
    assert_eq!(parse_timestamp("9999-12-31 23:59:59"), Some(ts(9999, 12, 31, 23, 59, 59)));
}

#[test]
fn parse_timestamp_rejects_malformed() {
    assert_eq!(parse_timestamp(""), None);
    assert_eq!(parse_timestamp("2023-06-01T10:15:30"), None);
    assert_eq!(parse_timestamp("2023:06:01 10:15:30"), None);
    assert_eq!(parse_timestamp("2023-06-01 10:15:3"), None);
    assert_eq!(parse_timestamp("2023-06-01 10:15:301"), None);
    assert_eq!(parse_timestamp("2023-13-01 10:15:30"), None);
    assert_eq!(parse_timestamp("2023-00-01 10:15:30"), None);
    assert_eq!(parse_timestamp("2023-06-31 10:15:30"), None);
    assert_eq!(parse_timestamp("2023-06-00 10:15:30"), None);
    assert_eq!(parse_timestamp("2023-06-01 24:15:30"), None);
    assert_eq!(parse_timestamp("2023-06-01 10:60:30"), None);
    assert_eq!(parse_timestamp("2023-06-01 10:15:60"), None);
}

#[test]
fn parse_timestamp_leap_years() {
    assert_eq!(parse_timestamp("2024-02-29 00:00:00"), Some(ts(2024, 2, 29, 0, 0, 0)));
    assert_eq!(parse_timestamp("2023-02-29 00:00:00"), None);
    assert_eq!(parse_timestamp("1900-02-29 00:00:00"), None);
    assert_eq!(parse_timestamp("2000-02-29 00:00:00"), Some(ts(2000, 2, 29, 0, 0, 0)));
}

#[test]
fn format_stem_exact() {
    assert_eq!(ts(2023, 6, 1, 10, 15, 30).format_stem(), "2023-06-01_10-15-30");
    assert_eq!(ts(5, 1, 2, 3, 4, 5).format_stem(), "0005-01-02_03-04-05");
}

#[test]
fn metadata_field_lines_rendered_and_sorted() {
    let bytes = tiff_with_datetime("2023:06:01 10:15:30");
    let lines = metadata_field_lines(&bytes);
    assert_eq!(lines, vec!["DateTime (primary): 2023-06-01 10:15:30".to_string()]);
    assert_eq!(metadata_field_lines(&Vec::new()), Vec::<String>::new());
}
