//! File-system paths as text, by the rules of `std::path`.
//!
//! What a path's parent, file stem or join is depends on the platform that
//! the crate is compiled for, and on nothing else. The library takes these
//! from `std::path` and gives each a name to speak of in contracts.

use vstd::prelude::*;

verus! {

/// What `std::path::Path::parent` returns for a path: the path without its
/// final component, or `None` where the path ends in a root or is empty.
pub uninterp spec fn path_parent(path: Seq<char>) -> Option<Seq<char>>;

/// What `std::path::Path::join` returns for a path and what is joined to it.
pub uninterp spec fn path_joined(base: Seq<char>, rest: Seq<char>) -> Seq<char>;

/// What `std::path::Path::file_stem` returns for a path: its final component
/// without the extension, or `None` where it has no file name.
pub uninterp spec fn path_file_stem(path: Seq<char>) -> Option<Seq<char>>;

/// The text of an optional string.
pub open spec fn text_of(o: Option<String>) -> Option<Seq<char>> {
    match o {
        Some(s) => Some(s@),
        None => None,
    }
}

/// Calls `std::path::Path::parent`. The parent of a path given as text is
/// text again, so `None` comes back only where the path has no parent.
#[verifier::external_body]
pub(crate) fn parent_of(path: &str) -> (parent: Option<String>)
    ensures
        text_of(parent) == path_parent(path@),
{
    match std::path::Path::new(path).parent() {
        Some(dir) => Some(dir.to_string_lossy().into_owned()),
        None => None,
    }
}

/// Calls `std::path::Path::join`. Joining text to text gives text.
#[verifier::external_body]
pub(crate) fn join(base: &str, rest: &str) -> (joined: String)
    ensures
        joined@ == path_joined(base@, rest@),
{
    std::path::Path::new(base).join(rest).to_string_lossy().into_owned()
}

/// Calls `std::path::Path::file_stem`. The stem of a path given as text is
/// text again, so `None` comes back only where the path has no file name.
#[verifier::external_body]
pub(crate) fn file_stem(path: &str) -> (stem: Option<String>)
    ensures
        text_of(stem) == path_file_stem(path@),
{
    match std::path::Path::new(path).file_stem() {
        Some(stem) => Some(stem.to_string_lossy().into_owned()),
        None => None,
    }
}

} // verus!
