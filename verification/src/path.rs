//! File names taken apart: the stem and the extension of a path.

use vstd::prelude::*;

verus! {

/// The extension of the file a path names, as `std::path::Path::extension`
/// finds it.
pub uninterp spec fn path_extension(path: Seq<char>) -> Option<Seq<char>>;

/// The stem of the file a path names, as `std::path::Path::file_stem`
/// finds it.
pub uninterp spec fn path_file_stem(path: Seq<char>) -> Option<Seq<char>>;

/// Calls `std::path::Path::extension` on the path and hands back the
/// extension as text. Claimed: the result is the named value
/// [`path_extension`] of the path; a path given as text has text parts, so
/// the conversion to text never fails.
#[verifier::external_body]
pub(crate) fn extension(path: &str) -> (r: Option<String>)
    ensures
        match r {
            Some(s) => path_extension(path@) == Some(s@),
            None => path_extension(path@) is None,
        },
{
    match std::path::Path::new(path).extension() {
        Some(e) => e.to_str().map(|s| s.to_string()),
        None => None,
    }
}

/// Calls `std::path::Path::file_stem` on the path and hands back the stem
/// as text. Claimed: the result is the named value [`path_file_stem`] of
/// the path; a path given as text has text parts, so the conversion to
/// text never fails.
#[verifier::external_body]
pub(crate) fn file_stem(path: &str) -> (r: Option<String>)
    ensures
        match r {
            Some(s) => path_file_stem(path@) == Some(s@),
            None => path_file_stem(path@) is None,
        },
{
    match std::path::Path::new(path).file_stem() {
        Some(e) => e.to_str().map(|s| s.to_string()),
        None => None,
    }
}

} // verus!
