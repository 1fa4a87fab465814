//! Git integration: authentication, repository information and the rules of
//! the system `git` backend.

pub mod auth;
pub mod types;
pub mod system_git;
