//! The shapes of the requests and responses that carry the supervisor's
//! operations to its clients.

pub mod auth;
pub mod backups;
pub mod filesystem;
pub mod servers;
pub mod settings;
pub mod system;
pub mod users;
pub mod webhook;
