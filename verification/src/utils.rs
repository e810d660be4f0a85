//! Small computations used across the supervisor.

pub mod memory;
