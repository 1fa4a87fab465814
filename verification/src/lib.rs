//! Verified core of the Nexsock service manager: Git output parsing and
//! authentication rules, CLI text rendering, daemon routing decisions and the
//! process-state rules of the service manager.

pub mod git;
pub mod text;
pub mod display;
pub mod protocol;
pub mod error;
pub mod cli;
pub mod traits;
pub mod daemon;
pub mod models;
pub mod service_manager;
pub mod config_manager;
