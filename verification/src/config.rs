//! The settings of the application.

use vstd::prelude::*;

verus! {

/// Where the application listens and where it keeps its data.
pub struct Settings {
    pub host: String,
    pub port: u16,
    pub database_url: String,
    pub jwt_secret: String,
    pub servers_dir: String,
    pub backups_dir: String,
}

} // verus!
