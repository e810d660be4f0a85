//! What is said of a server, its players and its files.

use vstd::prelude::*;

verus! {

/// A player as the history knows it.
#[derive(Debug)]
pub struct Player {
    pub name: String,
    pub is_online: bool,
    pub last_seen: String,
    pub is_op: bool,
    pub is_banned: bool,
    pub is_whitelisted: bool,
}

/// A player as the player history stores it.
pub struct PlayerRow {
    pub player_name: String,
    pub is_online: i32,
    pub last_seen: String,
}

/// A console command for a server.
#[derive(Debug)]
pub struct CommandRequest {
    pub command: String,
}

/// A server as the store holds it.
#[derive(Debug)]
pub struct ServerRow {
    pub id: String,
    pub name: String,
    pub game_type: String,
    pub executable_path: String,
    pub working_dir: String,
    pub java_path: Option<String>,
    pub min_memory: Option<String>,
    pub max_memory: Option<String>,
    pub extra_args: Option<String>,
    pub config: Option<String>,
    pub auto_start: i32,
    pub created_at: String,
    pub updated_at: String,
    pub backup_enabled: i32,
    pub backup_frequency: i32,
    pub backup_max_backups: i32,
    pub backup_prefix: String,
    pub discord_username: Option<String>,
    pub discord_avatar: Option<String>,
    pub discord_webhook_url: Option<String>,
    pub discord_notifications: Option<String>,
    pub logs_retention_days: i32,
    pub watchdog_enabled: i32,
    pub auth_mode: String,
    pub bind_address: String,
    pub port: i32,
}

#[derive(Debug)]
pub struct FileEntry {
    pub name: String,
    pub path: String,
    pub is_dir: bool,
    pub size: Option<u64>,
}

#[derive(Debug)]
pub struct FilesQuery {
    pub path: Option<String>,
}

#[derive(Debug)]
pub struct ReadFileQuery {
    pub path: String,
}

#[derive(Debug)]
pub struct WriteFileRequest {
    pub path: String,
    pub content: String,
}

#[derive(Debug)]
pub struct DeleteFileRequest {
    pub path: String,
}

} // verus!
