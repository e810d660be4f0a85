//! The application's settings as a client sees them.

use vstd::prelude::*;

verus! {

#[derive(Debug)]
pub struct SettingsResponse {
    pub version: String,
    pub servers_dir: String,
    pub backups_dir: String,
    pub database_path: String,
    pub webhook_url: Option<String>,
    pub is_docker: bool,
    pub login_default_color: Option<String>,
    pub login_background_url: Option<String>,
}

} // verus!
