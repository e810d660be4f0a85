//! Backups of a server's directory.

use vstd::prelude::*;

verus! {

#[derive(Debug)]
pub struct BackupResponse {
    pub id: String,
    pub server_id: String,
    pub filename: String,
    pub size_bytes: i64,
    pub created_at: String,
}

#[derive(Debug)]
pub struct CreateBackupRequest {
    pub server_id: String,
}

} // verus!
