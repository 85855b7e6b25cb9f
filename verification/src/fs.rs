//! File-system helpers: the parts that work on paths alone.

use vstd::prelude::*;

use crate::path::{file_stem, path_file_stem};

verus! {

/// The base name of a file: the stem of the path, without directories and
/// extension. `None` when the path names no file.
pub fn basename(path: &str) -> (r: Option<String>)
    ensures
        match r {
            Some(s) => path_file_stem(path@) == Some(s@),
            None => path_file_stem(path@) is None,
        },
{
    file_stem(path)
}

} // verus!
