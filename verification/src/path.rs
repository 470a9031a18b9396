//! Paths and text as the standard library reads them.
//!
//! A path is held as text. Its decomposition is left to `std::path`, which
//! follows the path syntax of the platform that the library is built for; the
//! spec functions of this module name what it returns, so that contracts can
//! speak of it.

use vstd::prelude::*;

verus! {

/// The final component of a path, as `Path::file_name` gives it.
pub uninterp spec fn path_file_name(path: Seq<char>) -> Option<Seq<char>>;

/// A path without its final component, as `Path::parent` gives it.
pub uninterp spec fn path_parent(path: Seq<char>) -> Option<Seq<char>>;

/// A file name adjoined to a directory, as `Path::join` gives it.
pub uninterp spec fn path_join(directory: Seq<char>, name: Seq<char>) -> Seq<char>;

/// The lowercase form of a text, as `str::to_lowercase` gives it.
pub uninterp spec fn lowercased(text: Seq<char>) -> Seq<char>;

/// The characters of an optional text.
pub open spec fn text_of(text: Option<String>) -> Option<Seq<char>> {
    match text {
        Some(t) => Some(t@),
        None => None,
    }
}

/// Calls `Path::file_name` on the path. The result is named, not described:
/// `path_file_name` stands for whatever the standard library returns. The
/// path is valid text, so its final component is too.
#[verifier::external_body]
pub(crate) fn file_name(path: &str) -> (name: Option<String>)
    ensures
        text_of(name) == path_file_name(path@),
{
    std::path::Path::new(path).file_name().map(|name| name.to_string_lossy().into_owned())
}

/// Calls `Path::parent` on the path. The result is named, not described:
/// `path_parent` stands for whatever the standard library returns.
#[verifier::external_body]
pub(crate) fn parent(path: &str) -> (directory: Option<String>)
    ensures
        text_of(directory) == path_parent(path@),
{
    std::path::Path::new(path).parent().map(|directory| directory.to_string_lossy().into_owned())
}

/// Calls `Path::join` to adjoin a file name to a directory. The result is
/// named, not described: `path_join` stands for whatever the standard library
/// returns.
#[verifier::external_body]
pub(crate) fn join(directory: &str, name: &str) -> (joined: String)
    ensures
        joined@ == path_join(directory@, name@),
{
    std::path::Path::new(directory).join(name).to_string_lossy().into_owned()
}

/// Calls `str::to_lowercase`. The result is named, not described: `lowercased`
/// stands for the lowercase form by the Unicode rules that the standard
/// library applies.
#[verifier::external_body]
pub(crate) fn lowercase(text: &str) -> (lower: String)
    ensures
        lower@ == lowercased(text@),
{
    text.to_lowercase()
}

} // verus!
