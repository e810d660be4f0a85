//! What making or unpacking a backup archive can fail with.

use vstd::prelude::*;

verus! {

/// A failure of making or unpacking an archive.
#[derive(Debug, Clone, PartialEq)]
pub enum BackupError {
    /// The file system refused; its words follow.
    IoError(String),
    /// A path is not what it has to be; what is wrong follows.
    PathError(String),
}

} // verus!
