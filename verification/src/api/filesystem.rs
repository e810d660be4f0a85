//! Browsing the host's directories.

use vstd::prelude::*;

verus! {

#[derive(Debug)]
pub struct DirectoryEntry {
    pub name: String,
    pub path: String,
    pub is_dir: bool,
}

#[derive(Debug)]
pub struct ListQuery {
    pub path: Option<String>,
}

} // verus!
