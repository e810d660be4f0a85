//! Managing accounts.

use vstd::prelude::*;

verus! {

#[derive(Debug)]
pub struct UserResponse {
    pub id: String,
    pub username: String,
    pub role: String,
    pub is_active: bool,
    pub language: String,
    pub accent_color: String,
    pub created_at: String,
    pub updated_at: String,
    pub last_login: Option<String>,
    pub last_ip: Option<String>,
    pub allocated_servers: Option<String>,
}

#[derive(Debug)]
pub struct CreateUserRequest {
    pub username: String,
    pub password: String,
    pub role: Option<String>,
    pub is_active: Option<bool>,
    pub language: Option<String>,
    pub accent_color: Option<String>,
    pub allocated_servers: Option<Vec<String>>,
}

#[derive(Debug)]
pub struct UpdateUserRequest {
    pub username: Option<String>,
    pub password: Option<String>,
    pub role: Option<String>,
    pub is_active: Option<bool>,
    pub language: Option<String>,
    pub accent_color: Option<String>,
    pub allocated_servers: Option<Vec<String>>,
}

} // verus!
