//! Path texts: the file-name component of a path, the stem and extension of
//! a file name, and joining a directory with a file name.

use crate::text::lower_seq;
use crate::timestamp::Timestamp;
use crate::timestamp::spec_format_stem;
use vstd::prelude::*;
use vstd::string::StrSliceExecFns;
use vstd::string::StringExecFns;

verus! {

/// The position of the last occurrence of a character in a sequence,
/// or `-1` when the character does not occur.
pub open spec fn last_index_of(s: Seq<char>, c: char) -> int
    decreases s.len(),
{
    if s.len() == 0 {
        -1
    } else if s.last() == c {
        s.len() - 1
    } else {
        last_index_of(s.drop_last(), c)
    }
}

/// What `last_index_of` returns: a position of the character after which it
/// does not occur again, or `-1` when it occurs nowhere.
pub proof fn lemma_last_index_of(s: Seq<char>, c: char)
    ensures
        -1 <= last_index_of(s, c) < s.len(),
        last_index_of(s, c) >= 0 ==> s[last_index_of(s, c)] == c,
        forall|j: int| last_index_of(s, c) < j < s.len() ==> s[j] != c,
    decreases s.len(),
{
    if s.len() > 0 && s.last() != c {
        lemma_last_index_of(s.drop_last(), c);
        assert forall|j: int| last_index_of(s, c) < j < s.len() implies s[j] != c by {
            if j < s.len() - 1 {
                assert(s[j] == s.drop_last()[j]);
            }
        }
    }
}

/// A position with the character, after which it does not occur, is the last.
pub proof fn lemma_last_index_of_is(s: Seq<char>, c: char, k: int)
    requires
        0 <= k < s.len(),
        s[k] == c,
        forall|j: int| k < j < s.len() ==> s[j] != c,
    ensures
        last_index_of(s, c) == k,
    decreases s.len(),
{
    if k == s.len() - 1 {
    } else {
        assert(s.last() != c);
        assert(s.drop_last()[k] == c);
        lemma_last_index_of_is(s.drop_last(), c, k);
    }
}

/// When the character occurs nowhere, `last_index_of` is `-1`.
pub proof fn lemma_last_index_of_absent(s: Seq<char>, c: char)
    requires
        forall|j: int| 0 <= j < s.len() ==> s[j] != c,
    ensures
        last_index_of(s, c) == -1,
    decreases s.len(),
{
    if s.len() > 0 {
        lemma_last_index_of_absent(s.drop_last(), c);
    }
}

/// The file-name component of a path: everything after the last `/`,
/// or the whole path when it has no `/`.
pub open spec fn file_name_of(path: Seq<char>) -> Seq<char> {
    path.subrange(last_index_of(path, '/') + 1, path.len() as int)
}

/// The position of the dot that separates a file name's stem from its
/// extension: the last dot, except that a dot in the leading position
/// (a hidden file) separates nothing.
pub open spec fn ext_dot_of(name: Seq<char>) -> int {
    last_index_of(name, '.')
}

/// Whether a file name has a non-empty extension: a dot that is neither
/// the leading character nor the last one.
pub open spec fn has_extension(name: Seq<char>) -> bool {
    0 < ext_dot_of(name) < name.len() - 1
}

/// The stem of a file name: what stands before the extension's dot, or the
/// whole name when there is no extension.
pub open spec fn stem_of(name: Seq<char>) -> Seq<char> {
    if has_extension(name) {
        name.subrange(0, ext_dot_of(name))
    } else {
        name
    }
}

/// The extension of a file name, without its dot; empty when the name has
/// no extension.
pub open spec fn ext_of(name: Seq<char>) -> Seq<char> {
    if has_extension(name) {
        name.subrange(ext_dot_of(name) + 1, name.len() as int)
    } else {
        Seq::empty()
    }
}

/// A directory path joined with a relative file name, with `/` between
/// them unless the directory already ends in one or is empty.
pub open spec fn join_of(dir: Seq<char>, name: Seq<char>) -> Seq<char> {
    if dir.len() == 0 {
        name
    } else if dir.last() == '/' {
        dir + name
    } else {
        dir + seq!['/'] + name
    }
}

/// Finds the last occurrence of a character in a string.
fn find_last(s: &str, c: char) -> (r: Option<usize>)
    ensures
        match r {
            Some(k) => last_index_of(s@, c) == k,
            None => last_index_of(s@, c) == -1,
        },
{
    let n = s.unicode_len();
    let mut i: usize = n;
    while i > 0
        invariant
            i <= n,
            n == s@.len(),
            forall|j: int| i <= j < s@.len() ==> s@[j] != c,
        decreases i,
    {
        i = i - 1;
        if s.get_char(i) == c {
            proof {
                lemma_last_index_of_is(s@, c, i as int);
            }
            return Some(i);
        }
    }
    proof {
        lemma_last_index_of_absent(s@, c);
    }
    None
}

/// The file-name component of a path string.
pub fn file_name_str(path: &str) -> (r: String)
    ensures
        r@ == file_name_of(path@),
{
    let n = path.unicode_len();
    proof {
        lemma_last_index_of(path@, '/');
    }
    let start: usize = match find_last(path, '/') {
        Some(k) => k + 1,
        None => 0,
    };
    path.substring_char(start, n).to_owned()
}

/// Splits a file name into its stem and its extension; the extension is
/// `None` when the name has no non-empty extension.
pub fn split_name(name: &str) -> (r: (String, Option<String>))
    ensures
        r.0@ == stem_of(name@),
        match r.1 {
            Some(e) => has_extension(name@) && e@ == ext_of(name@),
            None => !has_extension(name@),
        },
{
    let n = name.unicode_len();
    proof {
        lemma_last_index_of(name@, '.');
    }
    match find_last(name, '.') {
        Some(k) => {
            if 0 < k && k + 1 < n {
                let stem = name.substring_char(0, k).to_owned();
                let ext = name.substring_char(k + 1, n).to_owned();
                (stem, Some(ext))
            } else {
                (name.to_owned(), None)
            }
        },
        None => (name.to_owned(), None),
    }
}

/// The canonical file name computed from an optional capture timestamp, an
/// original stem and an original extension: the formatted timestamp when one
/// is present, the original stem otherwise, then a dot and the extension
/// lower-cased.
pub open spec fn canonical_name_of(ts: Option<Timestamp>, stem: Seq<char>, ext: Seq<char>) -> Seq<
    char,
> {
    (match ts {
        Some(t) => spec_format_stem(t),
        None => stem,
    }) + seq!['.'] + lower_seq(ext)
}

/// Joins a directory path and a relative file name.
pub fn join_path(dir: &str, name: &str) -> (r: String)
    ensures
        r@ == join_of(dir@, name@),
{
    let n = dir.unicode_len();
    if n == 0 {
        return name.to_owned();
    }
    let mut r = dir.to_owned();
    if !(dir.get_char(n - 1) == '/') {
        r.append("/");
        proof {
            reveal_strlit("/");
            assert("/"@ =~= seq!['/']);
        }
    }
    r.append(name);
    proof {
        assert(r@ =~= join_of(dir@, name@));
    }
    r
}

} // verus!
