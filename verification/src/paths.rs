//! What the library reads of a filesystem path: its text for display, and
//! the text of its final segment.

use vstd::prelude::*;
use std::path::PathBuf;

verus! {

/// `std::path::PathBuf`, carried through as an opaque value.
#[verifier::external_type_specification]
#[verifier::external_body]
pub struct ExPathBuf(PathBuf);

/// The text that `Path::to_string_lossy` gives for a path: the path itself
/// where it is valid Unicode, else the path with each invalid sequence
/// replaced by U+FFFD.
pub uninterp spec fn path_text(path: PathBuf) -> Seq<char>;

/// What `Path::file_name` gives for a path: its final segment as a path of
/// its own, where it has one.
pub uninterp spec fn path_file_name(path: PathBuf) -> Option<PathBuf>;

/// What `Path::to_str` gives for a path: its text where it is valid Unicode.
pub uninterp spec fn path_unicode(path: PathBuf) -> Option<Seq<char>>;

/// The text of a path's final segment, where the path has one and it is
/// valid Unicode.
pub open spec fn file_name_text(path: PathBuf) -> Option<Seq<char>> {
    match path_file_name(path) {
        Some(segment) => path_unicode(segment),
        None => None,
    }
}

/// The view of an optional string.
pub open spec fn text_of(text: Option<String>) -> Option<Seq<char>> {
    match text {
        Some(t) => Some(t@),
        None => None,
    }
}

/// Calls `Path::to_string_lossy` and owns the result. Trusted: the text
/// depends on the path alone, and is named `path_text`.
#[verifier::external_body]
pub(crate) fn lossy_text(path: &PathBuf) -> (text: String)
    ensures
        text@ == path_text(*path),
{
    path.to_string_lossy().into_owned()
}

/// Calls `Path::file_name` and owns the segment as a path. Trusted: the
/// segment depends on the path alone, and is named `path_file_name`.
#[verifier::external_body]
fn final_segment(path: &PathBuf) -> (segment: Option<PathBuf>)
    ensures
        segment == path_file_name(*path),
{
    path.file_name().map(PathBuf::from)
}

/// Calls `Path::to_str` and owns the text. Trusted: the text depends on the
/// path alone, and is named `path_unicode`.
#[verifier::external_body]
fn unicode_text(path: &PathBuf) -> (text: Option<String>)
    ensures
        text_of(text) == path_unicode(*path),
{
    path.to_str().map(String::from)
}

/// The display text of a path; bytes that are no valid Unicode are replaced.
pub fn path_to_string(path: PathBuf) -> (text: String)
    ensures
        text@ == path_text(path),
{
    lossy_text(&path)
}

/// The final segment of a path as text, or `None` where the path has no
/// final segment or the segment is no valid Unicode.
pub fn file_name_of(path: &PathBuf) -> (name: Option<String>)
    ensures
        text_of(name) == file_name_text(*path),
{
    match final_segment(path) {
        Some(segment) => unicode_text(&segment),
        None => None,
    }
}

} // verus!
