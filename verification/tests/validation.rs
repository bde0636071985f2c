//! Path validation, photo construction, and the path-text helpers.

use photo_tidier::paths::file_name_str;
use photo_tidier::paths::join_path;
use photo_tidier::paths::split_name;
use photo_tidier::photo::Photo;
use photo_tidier::validate::validate_directory_exists;
use photo_tidier::validate::validate_exists;
use photo_tidier::validate::validate_file_exists;
use photo_tidier::validate::PathError;

#[test]
fn nonexistent_path_is_not_found() {
    let p = "/no/such/path/anywhere/at/all";
    assert_eq!(validate_exists(p), Err(PathError::NotFound));
    assert_eq!(validate_file_exists(p), Err(PathError::NotFound));
    assert_eq!(validate_directory_exists(p), Err(PathError::NotFound));
    assert!(matches!(Photo::new(p), Err(PathError::NotFound)));
}

#[test]
fn directory_where_a_file_is_expected_is_invalid_input() {
    assert_eq!(validate_file_exists("/"), Err(PathError::InvalidInput));
    assert!(matches!(Photo::new("/"), Err(PathError::InvalidInput)));
}

#[test]
fn file_where_a_directory_is_expected_is_invalid_input() {
    assert_eq!(validate_file_exists("/bin/sh"), Ok(()));
    assert_eq!(validate_directory_exists("/bin/sh"), Err(PathError::InvalidInput));
    assert_eq!(validate_directory_exists("/"), Ok(()));
}

#[test]
fn extensionless_existing_file_is_invalid_input() {
    assert!(matches!(Photo::new("/bin/sh"), Err(PathError::InvalidInput)));
}

#[test]
fn construction_defers_metadata_and_keeps_the_name_parts() {
    // a real file with a (compound) extension
    let photo = Photo::new("/etc/ld.so.conf");
    let mut photo = photo.expect("an existing regular file with an extension");
    assert!(!photo.metadata_loaded());
    assert_eq!(photo.get_current_path(), "/etc/ld.so.conf");
    assert_eq!(photo.get_current_file_name(), "ld.so.conf");
    assert_eq!(photo.get_current_extension(), "conf");
    // the file is no image: naming degrades to the original name
    let bytes: Vec<u8> = Vec::new();
    assert_eq!(photo.get_new_file_name(&bytes), "ld.so.conf");
}

#[test]
fn error_messages_name_the_failure() {
    assert_ne!(PathError::NotFound.message(), PathError::InvalidInput.message());
}

#[test]
fn file_name_component() {
    assert_eq!(file_name_str("a/b/c.jpg"), "c.jpg");
    assert_eq!(file_name_str("c.jpg"), "c.jpg");
    assert_eq!(file_name_str("/c.jpg"), "c.jpg");
    assert_eq!(file_name_str("a/"), "");
}

#[test]
fn stem_and_extension_split() {
    assert_eq!(split_name("photo.JPG"), ("photo".to_string(), Some("JPG".to_string())));
    assert_eq!(split_name("archive.tar.gz"), ("archive.tar".to_string(), Some("gz".to_string())));
    assert_eq!(split_name(".bashrc"), (".bashrc".to_string(), None));
    assert_eq!(split_name("noext"), ("noext".to_string(), None));
    assert_eq!(split_name("trailing."), ("trailing.".to_string(), None));
}

#[test]
fn joining_directory_and_name() {
    assert_eq!(join_path("target", "a.jpg"), "target/a.jpg");
    assert_eq!(join_path("target/", "a.jpg"), "target/a.jpg");
    assert_eq!(join_path("", "a.jpg"), "a.jpg");
}
