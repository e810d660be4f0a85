//! A server as it is configured.

use vstd::prelude::*;
use vstd::string::*;
use crate::text::{ascii_lowered, lowered_equals};

verus! {

/// The settings of one server.
#[derive(Debug, Clone)]
pub struct Server {
    pub id: String,
    pub name: String,
    pub game_type: GameType,
    pub executable_path: String,
    pub working_dir: String,
    pub java_path: Option<String>,
    pub min_memory: Option<String>,
    pub max_memory: Option<String>,
    pub extra_args: Option<String>,
    pub auto_start: bool,
    pub created_at: String,
    pub updated_at: String,
    pub backup_enabled: bool,
    pub backup_frequency: u32,
    pub backup_max_backups: u32,
    pub backup_prefix: String,
    pub discord_username: Option<String>,
    pub discord_avatar: Option<String>,
    pub discord_webhook_url: Option<String>,
    /// The notification settings, as JSON.
    pub discord_notifications: Option<String>,
    pub logs_retention_days: u32,
    pub watchdog_enabled: bool,
    pub auth_mode: String,
    pub bind_address: String,
    pub port: u16,
}

/// The game that a server runs.
#[derive(Debug, Clone, PartialEq)]
pub enum GameType {
    Hytale,
}

impl GameType {
    /// The name of the game, in lower case.
    pub open spec fn name_text(&self) -> Seq<char> {
        match *self {
            GameType::Hytale => "hytale"@,
        }
    }

    /// The game that a lower-cased name stands for.
    pub open spec fn named(lower: Seq<char>) -> Option<GameType> {
        if lower == "hytale"@ {
            Some(GameType::Hytale)
        } else {
            None
        }
    }

    /// What a name that stands for no game is answered with.
    pub open spec fn unknown(text: Seq<char>) -> Seq<char> {
        "Unknown game type: "@ + text
    }

    /// The name of the game, in lower case.
    pub fn name(&self) -> (text: String)
        ensures
            text@ == self.name_text(),
    {
        match self {
            GameType::Hytale => String::from_str("hytale"),
        }
    }

    /// The game that `s` names, whatever the case of its letters.
    pub fn from_str(s: &str) -> (parsed: Result<GameType, String>)
        ensures
            match parsed {
                Ok(game) => Self::named(ascii_lowered(s@)) == Some(game),
                Err(message) => Self::named(ascii_lowered(s@)) is None && message@ == Self::unknown(s@),
            },
    {
        if lowered_equals(s, "hytale") {
            Ok(GameType::Hytale)
        } else {
            Err(String::from_str("Unknown game type: ").concat(s))
        }
    }
}

} // verus!
