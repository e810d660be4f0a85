//! What the host offers.

use vstd::prelude::*;

verus! {

/// A Java runtime found on the host.
#[derive(Debug, Clone, PartialEq)]
pub struct JavaVersion {
    pub path: String,
    pub version: String,
}

} // verus!
