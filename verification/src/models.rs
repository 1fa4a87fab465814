//! The stored records of services, their configurations and their
//! dependencies, and how they are built from client requests.

use crate::protocol::{
    AddServicePayload, ConfigFormat, ServiceConfigPayload, ServiceRef, ServiceState,
};
use crate::text::{chars_of, string_of};
use vstd::prelude::*;

verus! {

broadcast use vstd::string::group_string_axioms;

/// A stored service configuration.
#[derive(Debug, Clone)]
pub struct ServiceConfig {
    /// The row id, once stored.
    pub id: Option<i64>,
    pub filename: String,
    pub format: ConfigFormat,
    pub run_command: Option<String>,
}

impl ServiceConfig {
    /// A configuration that is not stored yet.
    pub fn new(filename: String, format: ConfigFormat, run_command: Option<String>) -> (r: Self)
        ensures
            r.id is None,
            r.filename == filename,
            r.format == format,
            r.run_command == run_command,
    {
        ServiceConfig { id: None, filename, format, run_command }
    }

    /// The configuration as sent to a client about `service`; a missing run
    /// command is sent empty.
    pub fn to_payload(&self, service: ServiceRef) -> (r: ServiceConfigPayload)
        ensures
            r.service == service,
            r.filename@ == self.filename@,
            r.format == self.format,
            r.run_command@ == (match self.run_command {
                Some(c) => c@,
                None => Seq::<char>::empty(),
            }),
    {
        let run_command = match &self.run_command {
            Some(c) => copy(c.as_str()),
            None => String::new(),
        };
        ServiceConfigPayload {
            service,
            filename: copy(self.filename.as_str()),
            format: self.format,
            run_command,
        }
    }
}

/// A stored service.
#[derive(Debug, Clone)]
pub struct ServiceRecord {
    /// The row id, once stored.
    pub id: Option<i64>,
    pub config_id: Option<i64>,
    pub name: String,
    pub repo_url: String,
    pub port: i64,
    pub repo_path: String,
    pub status: ServiceState,
    pub git_branch: Option<String>,
    pub git_commit_hash: Option<String>,
    pub git_auth_type: Option<String>,
}

impl ServiceRecord {
    /// A service that is not stored yet, stopped, with its Git settings.
    pub fn new_with_git(
        name: String,
        repo_url: String,
        port: i64,
        repo_path: String,
        config_id: Option<i64>,
        git_branch: Option<String>,
        git_commit_hash: Option<String>,
        git_auth_type: Option<String>,
    ) -> (r: Self)
        ensures
            r.id is None,
            r.config_id == config_id,
            r.name == name,
            r.repo_url == repo_url,
            r.port == port,
            r.repo_path == repo_path,
            r.status == ServiceState::Stopped,
            r.git_branch == git_branch,
            r.git_commit_hash == git_commit_hash,
            r.git_auth_type == git_auth_type,
    {
        ServiceRecord {
            id: None,
            config_id,
            name,
            repo_url,
            port,
            repo_path,
            status: ServiceState::Stopped,
            git_branch,
            git_commit_hash,
            git_auth_type,
        }
    }
}

/// A stored dependency: `service_id` depends on `dependent_service_id`.
#[derive(Debug, Clone, Copy, PartialEq, Eq)]
pub struct ServiceDependency {
    pub id: i64,
    pub service_id: i64,
    pub dependent_service_id: i64,
    pub tunnel_enabled: bool,
}

fn copy(s: &str) -> (r: String)
    ensures
        r@ == s@,
{
    string_of(chars_of(s).as_slice())
}

/// The configuration record stored for a new service: its file name and
/// format, and its run command unless that is empty.
pub fn config_record_of(config: &ServiceConfigPayload) -> (r: ServiceConfig)
    ensures
        r.id is None,
        r.filename@ == config.filename@,
        r.format == config.format,
        if config.run_command@.len() == 0 {
            r.run_command is None
        } else {
            r.run_command matches Some(c) && c@ == config.run_command@
        },
{
    let c = chars_of(config.run_command.as_str());
    let run_command = if c.len() == 0 {
        None
    } else {
        Some(string_of(c.as_slice()))
    };
    ServiceConfig::new(copy(config.filename.as_str()), config.format, run_command)
}

/// The service record stored for a new service, linked to its stored
/// configuration, with no commit known until the repository is cloned.
pub fn service_record_of(payload: &AddServicePayload, config_id: Option<i64>) -> (r: ServiceRecord)
    ensures
        r.id is None,
        r.config_id == config_id,
        r.name@ == payload.name@,
        r.repo_url@ == payload.repo_url@,
        r.port == payload.port,
        r.repo_path@ == payload.repo_path@,
        r.status == ServiceState::Stopped,
        crate::git::types::opt_view(r.git_branch) == crate::git::types::opt_view(payload.git_branch),
        r.git_commit_hash is None,
        crate::git::types::opt_view(r.git_auth_type) == crate::git::types::opt_view(
            payload.git_auth_type,
        ),
{
    ServiceRecord::new_with_git(
        copy(payload.name.as_str()),
        copy(payload.repo_url.as_str()),
        payload.port,
        copy(payload.repo_path.as_str()),
        config_id,
        copy_opt(&payload.git_branch),
        None,
        copy_opt(&payload.git_auth_type),
    )
}

fn copy_opt(s: &Option<String>) -> (r: Option<String>)
    ensures
        crate::git::types::opt_view(r) == crate::git::types::opt_view(*s),
{
    match s {
        Some(v) => Some(copy(v.as_str())),
        None => None,
    }
}

} // verus!
