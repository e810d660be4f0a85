//! A user of the supervisor.

use vstd::prelude::*;
use vstd::string::*;
use crate::text::{ascii_lowered, lowered_equals};

verus! {

/// An account.
#[derive(Debug, Clone)]
pub struct User {
    pub id: String,
    pub username: String,
    pub password_hash: String,
    pub role: UserRole,
    pub discord_id: Option<String>,
    pub created_at: String,
    pub updated_at: String,
}

/// What an account may do.
#[derive(Debug, Clone, PartialEq)]
pub enum UserRole {
    Admin,
    User,
}

impl UserRole {
    /// The name of the role, in lower case.
    pub open spec fn name_text(&self) -> Seq<char> {
        match *self {
            UserRole::Admin => "admin"@,
            UserRole::User => "user"@,
        }
    }

    /// The role that a lower-cased name stands for.
    pub open spec fn named(lower: Seq<char>) -> Option<UserRole> {
        if lower == "admin"@ {
            Some(UserRole::Admin)
        } else if lower == "user"@ {
            Some(UserRole::User)
        } else {
            None
        }
    }

    /// What a name that stands for no role is answered with.
    pub open spec fn unknown(text: Seq<char>) -> Seq<char> {
        "Unknown role: "@ + text
    }

    /// The name of the role, in lower case.
    pub fn name(&self) -> (text: String)
        ensures
            text@ == self.name_text(),
    {
        match self {
            UserRole::Admin => String::from_str("admin"),
            UserRole::User => String::from_str("user"),
        }
    }

    /// The role that `s` names, whatever the case of its letters.
    pub fn from_str(s: &str) -> (parsed: Result<UserRole, String>)
        ensures
            match parsed {
                Ok(role) => Self::named(ascii_lowered(s@)) == Some(role),
                Err(message) => Self::named(ascii_lowered(s@)) is None && message@ == Self::unknown(s@),
            },
    {
        if lowered_equals(s, "admin") {
            Ok(UserRole::Admin)
        } else if lowered_equals(s, "user") {
            Ok(UserRole::User)
        } else {
            Err(String::from_str("Unknown role: ").concat(s))
        }
    }
}

} // verus!
