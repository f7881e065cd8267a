//! Copying a file into a place that may not exist yet.

use vstd::prelude::*;
use crate::text::{parent, path_parent};

verus! {

/// A copy of one local file to another place.
#[derive(Debug)]
pub struct FileCopy {
    /// The file to copy.
    pub source: String,
    /// Where the copy goes.
    pub target: String,
    /// The directory to create, with its missing parents, before copying.
    pub target_dir: Option<String>,
}

/// The copy of `file` to `target_file`, which first creates the directory of
/// `target_file` where the path names one.
pub fn copy_file(file: &str, target_file: &str) -> (copy: FileCopy)
    ensures
        copy.source@ == file@,
        copy.target@ == target_file@,
        copy.target_dir is Some == path_parent(target_file@) is Some,
        copy.target_dir matches Some(dir) ==> path_parent(target_file@) == Some(dir@),
{
    FileCopy { source: file.to_owned(), target: target_file.to_owned(), target_dir: parent(target_file) }
}

} // verus!
