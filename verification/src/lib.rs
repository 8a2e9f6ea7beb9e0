//! Decision logic of an idle-suspend daemon: when to start the idle
//! countdown, when to suspend, and when to fall back to a power-off.

pub mod chars;
pub mod command;
pub mod config;
pub mod error;
pub mod laws;
pub mod monitor;
pub mod probe;
