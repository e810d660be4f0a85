//! Supervision of long-running server processes: the process table and its
//! lifecycle rules, the console-output scanner, the bounded log channel and
//! the metrics cache, as a state machine over plain values.

pub mod api;
pub mod config;
pub mod error;
pub mod log_channel;
pub mod models;
pub mod pattern;
pub mod players;
pub mod scanner;
pub mod services;
pub mod text;
pub mod utils;
