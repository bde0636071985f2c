//! A photo-tidying library: derives a canonical, timestamp-based file name
//! for each photo in a directory from its embedded capture-time metadata,
//! falling back to the original name when no metadata is present.

pub mod configuration;
pub mod metadata;
pub mod paths;
pub mod photo;
pub mod sorting;
pub mod text;
pub mod timestamp;
pub mod validate;
