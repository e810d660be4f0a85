//! What the supervisor knows of servers and users.

pub mod server;
pub mod user;
