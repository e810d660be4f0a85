use server_supervisor::error::{AppError, ProcessError};
use server_supervisor::models::server::GameType;
use server_supervisor::models::user::UserRole;
use server_supervisor::players::PlayerSet;
use server_supervisor::services::backup_service::BackupError;

#[test]
fn game_type_is_read_in_any_case() {
    assert_eq!(GameType::from_str("hytale"), Ok(GameType::Hytale));
    assert_eq!(GameType::from_str("Hytale"), Ok(GameType::Hytale));
    assert_eq!(GameType::from_str("HYTALE"), Ok(GameType::Hytale));
    assert_eq!(GameType::from_str("hYtAlE"), Ok(GameType::Hytale));
}

#[test]
fn unknown_game_type_is_named_in_the_error() {
    assert_eq!(GameType::from_str("Minecraft"), Err("Unknown game type: Minecraft".to_string()));
    assert_eq!(GameType::from_str(""), Err("Unknown game type: ".to_string()));
    assert_eq!(GameType::from_str(" hytale"), Err("Unknown game type:  hytale".to_string()));
}

#[test]
fn game_type_name() {
    assert_eq!(GameType::Hytale.name(), "hytale");
}

#[test]
fn role_is_read_in_any_case() {
    assert_eq!(UserRole::from_str("admin"), Ok(UserRole::Admin));
    assert_eq!(UserRole::from_str("ADMIN"), Ok(UserRole::Admin));
    assert_eq!(UserRole::from_str("User"), Ok(UserRole::User));
    assert_eq!(UserRole::from_str("uSeR"), Ok(UserRole::User));
}

#[test]
fn unknown_role_is_named_in_the_error() {
    assert_eq!(UserRole::from_str("root"), Err("Unknown role: root".to_string()));
    assert_eq!(UserRole::from_str("Admins"), Err("Unknown role: Admins".to_string()));
}

#[test]
fn role_names() {
    assert_eq!(UserRole::Admin.name(), "admin");
    assert_eq!(UserRole::User.name(), "user");
}

#[test]
fn errors_written_out() {
    assert_eq!(AppError::NotFound("x".to_string()).describe(), "Not found: x");
    assert_eq!(AppError::BadRequest("x".to_string()).describe(), "Bad request: x");
    assert_eq!(AppError::Unauthorized("x".to_string()).describe(), "Unauthorized: x");
    assert_eq!(AppError::Internal("x".to_string()).describe(), "Internal error: x");
    assert_eq!(AppError::Database("".to_string()).describe(), "Database error: ");
}

#[test]
fn process_errors_as_reported() {
    assert_eq!(
        ProcessError::AlreadyActive.into_app_error(),
        AppError::BadRequest("Server already running".to_string())
    );
    assert_eq!(ProcessError::NotRunning.into_app_error(), AppError::NotFound("Server not running".to_string()));
    assert_eq!(
        ProcessError::SpawnFailed("no java".to_string()).into_app_error(),
        AppError::Internal("Failed to start server: no java".to_string())
    );
    assert_eq!(
        ProcessError::WaitFailed("bad pid".to_string()).into_app_error(),
        AppError::Internal("bad pid".to_string())
    );
    assert_eq!(
        ProcessError::KillFailed("denied".to_string()).into_app_error(),
        AppError::Internal("Failed to kill server: denied".to_string())
    );
}

#[test]
fn player_set_holds_each_name_once() {
    let mut players = PlayerSet::new();
    assert_eq!(players.len(), 0);
    assert!(!players.contains("Alice"));
    players.insert("Alice".to_string());
    players.insert("Bob".to_string());
    players.insert("Alice".to_string());
    assert_eq!(players.len(), 2);
    assert!(players.contains("Alice"));
    assert!(players.contains("Bob"));
    assert!(!players.contains("alice"));
    assert_eq!(players.to_vec(), vec!["Alice".to_string(), "Bob".to_string()]);
}

#[test]
fn player_set_removal() {
    let mut players = PlayerSet::new();
    players.insert("Alice".to_string());
    players.insert("Bob".to_string());
    players.insert("Carol".to_string());
    players.remove("Bob");
    players.remove("Dave");
    assert_eq!(players.len(), 2);
    assert!(!players.contains("Bob"));
    assert_eq!(players.to_vec(), vec!["Alice".to_string(), "Carol".to_string()]);
    players.remove("Alice");
    players.remove("Carol");
    assert_eq!(players.len(), 0);
    players.remove("Carol");
    assert_eq!(players.len(), 0);
}

#[test]
fn names_are_read_as_the_standard_library_lowers_them() {
    let names = ["hytale", "admin", "user"];
    for code in 0..=0x10FFFFu32 {
        let Some(c) = char::from_u32(code) else {
            continue;
        };
        for name in names {
            for at in 0..name.len() {
                let mut text = String::new();
                text.push_str(&name[..at]);
                text.push(c);
                text.push_str(&name[at + 1..]);
                let lowered = text.to_lowercase();
                assert_eq!(GameType::from_str(&text).is_ok(), lowered == "hytale", "{:?}", text);
                let role = match lowered.as_str() {
                    "admin" => Some(UserRole::Admin),
                    "user" => Some(UserRole::User),
                    _ => None,
                };
                assert_eq!(UserRole::from_str(&text).ok(), role, "{:?}", text);
            }
        }
    }
}

#[test]
fn names_with_other_letters_are_unknown() {
    assert!(GameType::from_str("hytal\u{e9}").is_err());
    assert!(UserRole::from_str("adm\u{130}n").is_err());
    assert!(UserRole::from_str("u\u{17f}er").is_err());
    assert!(UserRole::from_str("\u{212a}ser").is_err());
}

#[test]
fn backup_errors_carry_their_words() {
    let io = BackupError::IoError("disk full".to_string());
    let path = BackupError::PathError("Source directory not found: /x".to_string());
    assert_eq!(io, BackupError::IoError("disk full".to_string()));
    assert_ne!(io, path);
    assert!(matches!(path, BackupError::PathError(text) if text == "Source directory not found: /x"));
}

#[test]
fn refused_registration_as_reported() {
    assert_eq!(
        ProcessError::AlreadyActive.into_registration_error(),
        AppError::BadRequest("Server already active".to_string())
    );
    assert_eq!(
        ProcessError::NotRunning.into_registration_error(),
        AppError::NotFound("Server not running".to_string())
    );
    assert_eq!(
        ProcessError::KillFailed("denied".to_string()).into_registration_error(),
        AppError::Internal("Failed to kill server: denied".to_string())
    );
}
