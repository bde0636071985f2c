//! The photo identity: one source file's path, its lazily read capture
//! metadata, and the canonical name it is copied under.

use crate::metadata::extract_timestamp;
use crate::metadata::spec_timestamp_of;
use crate::paths::canonical_name_of;
use crate::paths::ext_of;
use crate::paths::file_name_of;
use crate::paths::file_name_str;
use crate::paths::has_extension;
use crate::paths::join_of;
use crate::paths::join_path;
use crate::paths::split_name;
use crate::paths::stem_of;
use crate::text::to_ascii_lower;
use crate::timestamp::Timestamp;
use crate::validate::PathError;
use crate::validate::validate_file_exists;
use vstd::prelude::*;
use vstd::string::StringExecFns;

verus! {

/// One photo file: its source path, the name parts derived from it, and the
/// capture timestamp read from its metadata at most once.
pub struct Photo {
    /// The path the photo was constructed from.
    pub path: String,
    /// The file-name component of the path.
    pub file_name: String,
    /// The file name without its extension.
    pub stem: String,
    /// The file name's extension, in its original case, without the dot.
    pub extension: String,
    /// The capture timestamp: not yet read, or read once and kept —
    /// `Some(None)` records that the metadata yields no timestamp.
    pub cache: Option<Option<Timestamp>>,
}

impl Photo {
    /// A well-formed identity: the name parts are the path's, the extension
    /// is non-empty, and a cached timestamp is a valid one.
    pub open spec fn wf(self) -> bool {
        &&& self.file_name@ == file_name_of(self.path@)
        &&& has_extension(self.file_name@)
        &&& self.stem@ == stem_of(self.file_name@)
        &&& self.extension@ == ext_of(self.file_name@)
        &&& (self.cache matches Some(Some(t)) ==> t.valid())
    }

    /// The timestamp a metadata access yields from this state: the cached
    /// one when the metadata was already read, else the one the bytes give.
    pub open spec fn effective_timestamp(self, bytes: Seq<u8>) -> Option<Timestamp> {
        match self.cache {
            Some(c) => c,
            None => spec_timestamp_of(bytes),
        }
    }

    /// Wraps one photo file. The path must name an existing regular file
    /// with a non-empty extension; the file's bytes are not read here.
    /// `NotFound` when the path does not exist; `InvalidInput` when it is
    /// not a regular file or its name has no non-empty extension.
    pub fn new(path: &str) -> (r: Result<Photo, PathError>)
        ensures
            r matches Ok(p) ==> {
                &&& p.wf()
                &&& p.path@ == path@
                &&& p.cache is None
                &&& has_extension(file_name_of(path@))
            },
            r matches Err(e) ==> (e == PathError::NotFound || e == PathError::InvalidInput),
            !has_extension(file_name_of(path@)) ==> !(r is Ok),
    {
        match validate_file_exists(path) {
            Err(e) => Err(e),
            Ok(()) => {
                let name = file_name_str(path);
                let (stem, ext) = split_name(name.as_str());
                match ext {
                    None => Err(PathError::InvalidInput),
                    Some(extension) => Ok(
                        Photo {
                            path: path.to_owned(),
                            file_name: name,
                            stem,
                            extension,
                            cache: None,
                        },
                    ),
                }
            },
        }
    }

    /// The path the photo was constructed from.
    pub fn get_current_path(&self) -> (r: &String)
        ensures
            r@ == self.path@,
    {
        &self.path
    }

    /// The file-name component of the photo's path.
    pub fn get_current_file_name(&self) -> (r: &String)
        ensures
            r@ == self.file_name@,
    {
        &self.file_name
    }

    /// The extension of the photo's file name, in its original case.
    pub fn get_current_extension(&self) -> (r: &String)
        ensures
            r@ == self.extension@,
    {
        &self.extension
    }

    /// Whether the metadata has been read already.
    pub fn metadata_loaded(&self) -> (r: bool)
        ensures
            r == (self.cache is Some),
    {
        self.cache.is_some()
    }

    /// The capture timestamp. On the first call the given file bytes are
    /// parsed and the outcome — present or absent — is kept; every later
    /// call returns the kept outcome unchanged, whatever bytes it is given.
    pub fn get_timestamp(&mut self, bytes: &Vec<u8>) -> (r: Option<Timestamp>)
        ensures
            final(self).path == old(self).path,
            final(self).file_name == old(self).file_name,
            final(self).stem == old(self).stem,
            final(self).extension == old(self).extension,
            r == old(self).effective_timestamp(bytes@),
            final(self).cache == Some(r),
            old(self).wf() ==> final(self).wf(),
            old(self).wf() ==> (r matches Some(t) ==> t.valid()),
    {
        match &self.cache {
            Some(c) => *c,
            None => {
                let ts = extract_timestamp(bytes);
                self.cache = Some(ts);
                ts
            },
        }
    }

    /// The canonical file name: the capture timestamp formatted as
    /// `YYYY-MM-DD_HH-MM-SS` when one is available, else the original stem
    /// unchanged; then a dot and the original extension lower-cased. The
    /// metadata is read at most once: a name computed after an earlier
    /// metadata access repeats that access's outcome.
    pub fn get_new_file_name(&mut self, bytes: &Vec<u8>) -> (r: String)
        requires
            old(self).wf(),
        ensures
            final(self).path == old(self).path,
            final(self).file_name == old(self).file_name,
            final(self).stem == old(self).stem,
            final(self).extension == old(self).extension,
            final(self).cache == Some(old(self).effective_timestamp(bytes@)),
            final(self).wf(),
            r@ == canonical_name_of(
                old(self).effective_timestamp(bytes@),
                old(self).stem@,
                old(self).extension@,
            ),
    {
        let ts = self.get_timestamp(bytes);
        let mut r = match ts {
            Some(t) => t.format_stem(),
            None => self.stem.clone(),
        };
        r.append(".");
        let lowered = to_ascii_lower(self.extension.as_str());
        r.append(lowered.as_str());
        proof {
            reveal_strlit(".");
            assert("."@ =~= seq!['.']);
            assert(r@ =~= canonical_name_of(
                old(self).effective_timestamp(bytes@),
                old(self).stem@,
                old(self).extension@,
            ));
        }
        r
    }

    /// The destination path: the target directory joined with the canonical
    /// file name.
    pub fn get_new_path(&mut self, target_directory: &str, bytes: &Vec<u8>) -> (r: String)
        requires
            old(self).wf(),
        ensures
            final(self).path == old(self).path,
            final(self).file_name == old(self).file_name,
            final(self).stem == old(self).stem,
            final(self).extension == old(self).extension,
            final(self).cache == Some(old(self).effective_timestamp(bytes@)),
            final(self).wf(),
            r@ == join_of(
                target_directory@,
                canonical_name_of(
                    old(self).effective_timestamp(bytes@),
                    old(self).stem@,
                    old(self).extension@,
                ),
            ),
    {
        let name = self.get_new_file_name(bytes);
        join_path(target_directory, name.as_str())
    }
}

/// Computing the canonical name is idempotent: once the metadata outcome is
/// cached on an identity, the timestamp it names — and with it the canonical
/// name — is the same at every later access, whatever bytes that access is
/// handed, since the metadata is never read again.
pub proof fn lemma_canonical_name_idempotent(p: Photo, b1: Seq<u8>, b2: Seq<u8>)
    requires
        p.cache is Some,
    ensures
        p.effective_timestamp(b1) == p.effective_timestamp(b2),
        canonical_name_of(p.effective_timestamp(b1), p.stem@, p.extension@) == canonical_name_of(
            p.effective_timestamp(b2),
            p.stem@,
            p.extension@,
        ),
{
}

} // verus!
