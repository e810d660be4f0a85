//! The supervisor's services.

pub mod backup_service;
pub mod launch;
pub mod lifecycle;
pub mod process_manager;
pub mod state;
