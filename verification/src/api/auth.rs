//! Signing in.

use vstd::prelude::*;

verus! {

#[derive(Debug)]
pub struct LoginRequest {
    pub username: String,
    pub password: String,
}

#[derive(Debug)]
pub struct RegisterRequest {
    pub username: String,
    pub password: String,
}

#[derive(Debug)]
pub struct AuthResponse {
    pub token: String,
    pub user: UserInfo,
}

#[derive(Debug)]
pub struct UserInfo {
    pub id: String,
    pub username: String,
    pub role: String,
    pub accent_color: Option<String>,
}

#[derive(Debug)]
pub struct SetupStatus {
    pub needs_setup: bool,
}

/// What a session token states of its bearer.
#[derive(Debug)]
pub struct Claims {
    /// The user's identifier.
    pub sub: String,
    pub username: String,
    pub role: String,
    pub accent_color: Option<String>,
    /// When the token expires, in seconds since the Unix epoch.
    pub exp: i64,
}

/// The user on whose behalf a request is made.
pub struct AuthUser {
    pub id: String,
    pub username: String,
    pub role: String,
    pub accent_color: Option<String>,
}

#[derive(Debug)]
pub struct ChangePasswordRequest {
    pub current_password: Option<String>,
    pub new_password: String,
}

} // verus!
