//! Servers, their players and their files.

pub mod models;
