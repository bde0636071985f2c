//! Reading the embedded metadata container of a photo's bytes: the capture
//! date-time field's text, and the rendered listing of all fields. The
//! container format itself is parsed by the `exif` crate; everything after
//! the trusted calls is verified.

use crate::sorting::sort_strings;
use crate::sorting::sorted_lex;
use crate::sorting::views_of;
use crate::timestamp::Timestamp;
use crate::timestamp::parse_timestamp;
use crate::timestamp::spec_parse_timestamp;
use vstd::prelude::*;

verus! {

/// The text of the capture date-time field in the primary image descriptor
/// of the metadata container embedded in these bytes; absent when no
/// container parses or the field is missing.
pub uninterp spec fn capture_field_text(bytes: Seq<u8>) -> Option<Seq<char>>;

/// The rendered lines of all metadata fields embedded in these bytes, in
/// container order, one per field as `tag (ifd): value-with-unit`; empty
/// when no container parses.
pub uninterp spec fn field_lines_of(bytes: Seq<u8>) -> Seq<Seq<char>>;

/// Relies on `exif::Reader::read_from_container`, which parses the embedded
/// metadata container of the bytes, on `exif::Exif::get_field` with
/// `Tag::DateTime` and `In::PRIMARY`, which looks up the capture date-time
/// field of the primary image, and on `exif::Field::display_value`, which
/// renders that field's value as text. The result depends on the bytes
/// alone; every failure of the parse collapses to `None`.
#[verifier::external_body]
fn read_capture_field(bytes: &Vec<u8>) -> (r: Option<String>)
    ensures
        r matches Some(t) ==> capture_field_text(bytes@) == Some(t@),
        r is None ==> capture_field_text(bytes@) is None,
{
    let mut cur = std::io::Cursor::new(bytes.as_slice());
    match exif::Reader::new().read_from_container(&mut cur) {
        Ok(e) => e.get_field(exif::Tag::DateTime, exif::In::PRIMARY).map(|f| {
            f.display_value().to_string()
        }),
        Err(_) => None,
    }
}

/// Relies on `exif::Reader::read_from_container`, which parses the embedded
/// metadata container of the bytes, on `exif::Exif::fields`, which hands the
/// parsed fields out in container order, and on the renderings of
/// `exif::Tag`, `exif::In` and `exif::Field::display_value().with_unit(..)`
/// for each field's line. The lines depend on the bytes alone; when no
/// container parses, the listing is empty.
#[verifier::external_body]
fn read_field_lines(bytes: &Vec<u8>) -> (r: Vec<String>)
    ensures
        r@.len() == field_lines_of(bytes@).len(),
        forall|i: int| 0 <= i < r@.len() ==> r@[i]@ == field_lines_of(bytes@)[i],
{
    let mut cur = std::io::Cursor::new(bytes.as_slice());
    match exif::Reader::new().read_from_container(&mut cur) {
        Ok(e) => e.fields().map(|f| {
            format!("{} ({}): {}", f.tag, f.ifd_num, f.display_value().with_unit(&e))
        }).collect(),
        Err(_) => Vec::new(),
    }
}

/// The capture timestamp the bytes yield: the capture field's text parsed
/// against the fixed pattern; absent when there is no container, the field
/// is missing, or its text is malformed.
pub open spec fn spec_timestamp_of(bytes: Seq<u8>) -> Option<Timestamp> {
    match capture_field_text(bytes) {
        Some(t) => spec_parse_timestamp(t),
        None => None,
    }
}

/// Extracts the capture timestamp from a photo's bytes. Absence of the
/// container, of the field, or of a well-formed text is a normal result,
/// never an error.
pub fn extract_timestamp(bytes: &Vec<u8>) -> (r: Option<Timestamp>)
    ensures
        r == spec_timestamp_of(bytes@),
        r matches Some(t) ==> t.valid(),
{
    match read_capture_field(bytes) {
        Some(t) => parse_timestamp(t.as_str()),
        None => None,
    }
}

/// The rendered metadata field lines of a photo's bytes, sorted into the
/// deterministic lexicographic order; each line starts with its field's
/// tag, so equal-tag lines stand together. Empty when no container parses.
pub fn metadata_field_lines(bytes: &Vec<u8>) -> (r: Vec<String>)
    ensures
        sorted_lex(views_of(r@)),
        views_of(r@).to_multiset() == field_lines_of(bytes@).to_multiset(),
{
    let mut lines = read_field_lines(bytes);
    proof {
        assert(views_of(lines@) =~= field_lines_of(bytes@));
    }
    sort_strings(&mut lines);
    lines
}

} // verus!
