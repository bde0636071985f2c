//! Path validation: confirming that a path exists on disk and is of the
//! expected kind. The checks themselves ask the file system, so their
//! answers are facts about the disk at the moment of the call; the
//! validators state which error each failed check yields.

use vstd::prelude::*;

verus! {

/// Why a path was rejected: it does not exist, or it exists but is of the
/// wrong kind (or, at photo construction, lacks a file extension).
#[derive(Debug, Clone, Copy, PartialEq, Eq, Structural)]
pub enum PathError {
    NotFound,
    InvalidInput,
}

impl PathError {
    /// The human-readable description of the error.
    pub open spec fn spec_message(self) -> Seq<char> {
        match self {
            PathError::NotFound => "the path does not exist"@,
            PathError::InvalidInput => "the path is not of the expected kind"@,
        }
    }

    /// Describes the error in words.
    pub fn message(&self) -> (r: &'static str)
        ensures
            r@ == self.spec_message(),
    {
        match self {
            PathError::NotFound => "the path does not exist",
            PathError::InvalidInput => "the path is not of the expected kind",
        }
    }
}

/// Relies on `std::path::Path::exists`: whether the path points at an
/// existing entity on disk. The answer depends on the file system at the
/// moment of the call.
#[verifier::external_body]
fn path_exists(path: &str) -> bool {
    std::path::Path::new(path).exists()
}

/// Relies on `std::path::Path::is_file`: whether the path points at an
/// existing regular file (following symlinks). The answer depends on the
/// file system at the moment of the call.
#[verifier::external_body]
fn path_is_file(path: &str) -> bool {
    std::path::Path::new(path).is_file()
}

/// Relies on `std::path::Path::is_dir`: whether the path points at an
/// existing directory (following symlinks). The answer depends on the file
/// system at the moment of the call.
#[verifier::external_body]
fn path_is_dir(path: &str) -> bool {
    std::path::Path::new(path).is_dir()
}

/// Checks that a path exists; the one error it can yield is `NotFound`.
pub fn validate_exists(path: &str) -> (r: Result<(), PathError>)
    ensures
        r matches Err(e) ==> e == PathError::NotFound,
{
    if !path_exists(path) {
        return Err(PathError::NotFound);
    }
    Ok(())
}

/// Checks that a path exists and is a regular file: `NotFound` when it does
/// not exist, `InvalidInput` when it exists but is not a regular file.
pub fn validate_file_exists(path: &str) -> (r: Result<(), PathError>)
    ensures
        r matches Err(e) ==> (e == PathError::NotFound || e == PathError::InvalidInput),
{
    match validate_exists(path) {
        Err(e) => Err(e),
        Ok(()) => {
            if !path_is_file(path) {
                Err(PathError::InvalidInput)
            } else {
                Ok(())
            }
        },
    }
}

/// Checks that a path exists and is a directory: `NotFound` when it does
/// not exist, `InvalidInput` when it exists but is not a directory.
pub fn validate_directory_exists(path: &str) -> (r: Result<(), PathError>)
    ensures
        r matches Err(e) ==> (e == PathError::NotFound || e == PathError::InvalidInput),
{
    match validate_exists(path) {
        Err(e) => Err(e),
        Ok(()) => {
            if !path_is_dir(path) {
                Err(PathError::InvalidInput)
            } else {
                Ok(())
            }
        },
    }
}

} // verus!
