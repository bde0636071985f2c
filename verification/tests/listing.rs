//! The deterministic ordering of a directory listing.

use photo_tidier::sorting::sort_strings;

#[test]
fn sorts_listing_lexicographically() {
    let mut entries = vec!["b.jpg".to_string(), "a.jpg".to_string()];
    sort_strings(&mut entries);
    assert_eq!(entries, vec!["a.jpg".to_string(), "b.jpg".to_string()]);
}

#[test]
fn sort_keeps_every_entry() {
    let mut entries = vec![
        "c.jpg".to_string(),
        "a.jpg".to_string(),
        "c.jpg".to_string(),
        "b.jpg".to_string(),
    ];
    sort_strings(&mut entries);
    assert_eq!(
        entries,
        vec!["a.jpg".to_string(), "b.jpg".to_string(), "c.jpg".to_string(), "c.jpg".to_string()]
    );
}

#[test]
fn sort_of_sorted_and_empty() {
    let mut entries: Vec<String> = Vec::new();
    sort_strings(&mut entries);
    assert_eq!(entries, Vec::<String>::new());

    let mut entries = vec!["a".to_string(), "ab".to_string(), "b".to_string()];
    sort_strings(&mut entries);
    assert_eq!(entries, vec!["a".to_string(), "ab".to_string(), "b".to_string()]);
}
