//! The messages exchanged between the command-line client and the daemon.

use crate::text::{i64_to_chars, int_decimal, string_of};
use vstd::prelude::*;

verus! {

/// A service, named by its database id or by its name.
#[derive(Debug, Clone, PartialEq, Eq)]
pub enum ServiceRef {
    Id(i64),
    Name(String),
}

/// How a service reference prints: the id in decimal, or the name.
pub open spec fn service_ref_text(r: ServiceRef) -> Seq<char> {
    match r {
        ServiceRef::Id(n) => int_decimal(n as int),
        ServiceRef::Name(s) => s@,
    }
}

impl ServiceRef {
    /// The printed form of the reference: the id in decimal, or the name.
    pub fn text(&self) -> (r: String)
        ensures
            r@ == service_ref_text(*self),
    {
        match self {
            ServiceRef::Id(n) => string_of(i64_to_chars(*n).as_slice()),
            ServiceRef::Name(s) => string_of(crate::text::chars_of(s.as_str()).as_slice()),
        }
    }
}

/// The lifecycle state of a service.
#[derive(Debug, Clone, Copy, PartialEq, Eq, Structural)]
pub enum ServiceState {
    Starting,
    Running,
    Stopping,
    Stopped,
    Failed,
}

/// The name of a state as its `Debug` form prints it.
pub open spec fn state_name(s: ServiceState) -> Seq<char> {
    match s {
        ServiceState::Starting => "Starting"@,
        ServiceState::Running => "Running"@,
        ServiceState::Stopping => "Stopping"@,
        ServiceState::Stopped => "Stopped"@,
        ServiceState::Failed => "Failed"@,
    }
}

impl ServiceState {
    /// The name of the state as its `Debug` form prints it.
    pub fn name(&self) -> (r: &'static str)
        ensures
            r@ == state_name(*self),
    {
        match self {
            ServiceState::Starting => "Starting",
            ServiceState::Running => "Running",
            ServiceState::Stopping => "Stopping",
            ServiceState::Stopped => "Stopped",
            ServiceState::Failed => "Failed",
        }
    }
}

/// The format of a service configuration file.
#[derive(Debug, Clone, Copy, PartialEq, Eq, Structural)]
pub enum ConfigFormat {
    Env,
    Properties,
}

/// The name of a configuration format as its `Debug` form prints it.
pub open spec fn format_name(f: ConfigFormat) -> Seq<char> {
    match f {
        ConfigFormat::Env => "Env"@,
        ConfigFormat::Properties => "Properties"@,
    }
}

impl ConfigFormat {
    /// The name of the format as its `Debug` form prints it.
    pub fn name(&self) -> (r: &'static str)
        ensures
            r@ == format_name(*self),
    {
        match self {
            ConfigFormat::Env => "Env",
            ConfigFormat::Properties => "Properties",
        }
    }
}

/// The configuration part of a service status.
#[derive(Debug, Clone)]
pub struct ServiceConfigInfo {
    pub filename: Option<String>,
    pub format: Option<ConfigFormat>,
    pub run_command: Option<String>,
}

/// A dependency of a service.
#[derive(Debug, Clone)]
pub struct DependencyInfo {
    pub id: i64,
    pub name: String,
    pub tunnel_enabled: bool,
    pub state: ServiceState,
}

/// The status of one service.
#[derive(Debug, Clone)]
pub struct ServiceStatus {
    pub id: i64,
    pub name: String,
    pub state: ServiceState,
    pub config_id: Option<i64>,
    pub port: i64,
    pub repo_url: String,
    pub repo_path: String,
    pub git_branch: Option<String>,
    pub git_commit_hash: Option<String>,
    pub config: Option<ServiceConfigInfo>,
    pub dependencies: Vec<DependencyInfo>,
}

/// One service in a service listing.
#[derive(Debug, Clone)]
pub struct ServiceInfo {
    pub id: i64,
    pub name: String,
    pub state: ServiceState,
    pub port: i64,
    pub has_dependencies: bool,
}

/// The list of all services.
#[derive(Debug, Clone)]
pub struct ListServicesResponse {
    pub services: Vec<ServiceInfo>,
}

/// The configuration of a service.
#[derive(Debug, Clone)]
pub struct ServiceConfigPayload {
    pub service: ServiceRef,
    pub filename: String,
    pub format: ConfigFormat,
    pub run_command: String,
}

/// The dependencies of a service.
#[derive(Debug, Clone)]
pub struct ListDependenciesResponse {
    pub service_name: String,
    pub dependencies: Vec<DependencyInfo>,
}

/// A commit in a log response.
#[derive(Debug, Clone)]
pub struct GitCommitInfo {
    pub hash: String,
    pub short_hash: String,
    pub author_name: String,
    pub author_email: String,
    pub timestamp: String,
    pub message: String,
    pub full_message: String,
}

/// The commit history of a service repository.
#[derive(Debug, Clone)]
pub struct GitLogResponse {
    pub commits: Vec<GitCommitInfo>,
}

/// The branches of a service repository.
#[derive(Debug, Clone)]
pub struct GitListBranchesResponse {
    pub branches: Vec<String>,
}

/// The state of a service repository.
#[derive(Debug, Clone)]
pub struct RepoStatus {
    pub current_branch: Option<String>,
    pub current_commit: String,
    pub remote_url: String,
    pub is_dirty: bool,
    pub branches: Vec<String>,
    pub ahead_count: Option<usize>,
    pub behind_count: Option<usize>,
}

/// An error reported by the daemon.
#[derive(Debug, Clone)]
pub struct ErrorPayload {
    pub code: u32,
    pub message: String,
    pub details: Option<String>,
}

/// A response of the daemon.
#[derive(Debug, Clone)]
pub enum CommandPayload {
    Status(ServiceStatus),
    ListServices(ListServicesResponse),
    ServiceConfig(ServiceConfigPayload),
    Dependencies(ListDependenciesResponse),
    GitLog(GitLogResponse),
    GitBranches(GitListBranchesResponse),
    GitStatus(RepoStatus),
    Stdout(String),
    Error(ErrorPayload),
    Empty,
}

impl CommandPayload {
    /// Whether the response carries nothing.
    pub fn is_empty(&self) -> (r: bool)
        ensures
            r == (*self is Empty),
    {
        match self {
            CommandPayload::Empty => true,
            _ => false,
        }
    }
}

/// The command word of a protocol message.
#[derive(Debug, Clone, Copy, PartialEq, Eq, Structural)]
pub enum Command {
    Success,
    Error,
    StartService,
    StopService,
    RestartService,
    GetServiceStatus,
    AddService,
    RemoveService,
    ListServices,
    UpdateConfig,
    GetConfig,
    AddDependency,
    RemoveDependency,
    ListDependencies,
    GetServiceStdout,
    CheckoutBranch,
    GitCheckoutCommit,
    GitPull,
    GetRepoStatus,
    GitLog,
    GitListBranches,
    Shutdown,
    GetSystemStatus,
    Ping,
    Extra,
}

/// An environment variable and its value.
pub type EnvPair = (String, String);

/// A new service, as the client describes it.
#[derive(Debug, Clone)]
pub struct AddServicePayload {
    pub name: String,
    pub repo_url: String,
    pub port: i64,
    pub repo_path: String,
    pub config: Option<ServiceConfigPayload>,
    pub git_branch: Option<String>,
    pub git_auth_type: Option<String>,
}

/// A request to check out a branch of a service repository, creating the
/// branch when asked and it does not exist.
#[derive(Debug, Clone)]
pub struct CheckoutPayload {
    pub service: ServiceRef,
    pub branch: String,
    pub create_if_missing: bool,
}

/// A request of the client to the daemon, with its payload.
#[derive(Debug, Clone)]
pub enum ServiceCommand {
    Stdout(ServiceRef),
    Start { service: ServiceRef, env_vars: Vec<EnvPair> },
    Stop(ServiceRef),
    Restart { service: ServiceRef, env_vars: Vec<EnvPair> },
    List,
    Status(ServiceRef),
    Add(AddServicePayload),
    Remove(ServiceRef),
    ConfigGet(ServiceRef),
    ConfigUpdate(ServiceConfigPayload),
    DependencyAdd { service: ServiceRef, dependent: ServiceRef, tunnel_enabled: bool },
    DependencyRemove { service: ServiceRef, dependent: ServiceRef },
    DependencyList(ServiceRef),
    GitCheckout { service: ServiceRef, branch: String, create_if_missing: bool },
    GitCheckoutCommit { service: ServiceRef, commit_hash: String },
    GitPull(ServiceRef),
    GitStatus(ServiceRef),
    GitLog { service: ServiceRef, max_count: Option<usize>, branch: Option<String> },
    GitListBranches { service: ServiceRef, include_remote: bool },
}

/// The command word that carries a request.
pub open spec fn command_of(c: ServiceCommand) -> Command {
    match c {
        ServiceCommand::Stdout(_) => Command::GetServiceStdout,
        ServiceCommand::Start { .. } => Command::StartService,
        ServiceCommand::Stop(_) => Command::StopService,
        ServiceCommand::Restart { .. } => Command::RestartService,
        ServiceCommand::List => Command::ListServices,
        ServiceCommand::Status(_) => Command::GetServiceStatus,
        ServiceCommand::Add(_) => Command::AddService,
        ServiceCommand::Remove(_) => Command::RemoveService,
        ServiceCommand::ConfigGet(_) => Command::GetConfig,
        ServiceCommand::ConfigUpdate(_) => Command::UpdateConfig,
        ServiceCommand::DependencyAdd { .. } => Command::AddDependency,
        ServiceCommand::DependencyRemove { .. } => Command::RemoveDependency,
        ServiceCommand::DependencyList(_) => Command::ListDependencies,
        ServiceCommand::GitCheckout { .. } => Command::CheckoutBranch,
        ServiceCommand::GitCheckoutCommit { .. } => Command::GitCheckoutCommit,
        ServiceCommand::GitPull(_) => Command::GitPull,
        ServiceCommand::GitStatus(_) => Command::GetRepoStatus,
        ServiceCommand::GitLog { .. } => Command::GitLog,
        ServiceCommand::GitListBranches { .. } => Command::GitListBranches,
    }
}

impl ServiceCommand {
    /// The payload a branch checkout request sends to the daemon: its service,
    /// its branch and whether the branch is created when missing; none for
    /// the other requests.
    pub fn checkout_payload(self) -> (r: Option<CheckoutPayload>)
        ensures
            match self {
                ServiceCommand::GitCheckout { service, branch, create_if_missing } => r == Some(
                    CheckoutPayload { service, branch, create_if_missing },
                ),
                _ => r is None,
            },
    {
        match self {
            ServiceCommand::GitCheckout { service, branch, create_if_missing } => Some(
                CheckoutPayload { service, branch, create_if_missing },
            ),
            _ => None,
        }
    }

    /// The command word that carries the request.
    pub fn command(&self) -> (r: Command)
        ensures
            r == command_of(*self),
    {
        match self {
            ServiceCommand::Stdout(_) => Command::GetServiceStdout,
            ServiceCommand::Start { .. } => Command::StartService,
            ServiceCommand::Stop(_) => Command::StopService,
            ServiceCommand::Restart { .. } => Command::RestartService,
            ServiceCommand::List => Command::ListServices,
            ServiceCommand::Status(_) => Command::GetServiceStatus,
            ServiceCommand::Add(_) => Command::AddService,
            ServiceCommand::Remove(_) => Command::RemoveService,
            ServiceCommand::ConfigGet(_) => Command::GetConfig,
            ServiceCommand::ConfigUpdate(_) => Command::UpdateConfig,
            ServiceCommand::DependencyAdd { .. } => Command::AddDependency,
            ServiceCommand::DependencyRemove { .. } => Command::RemoveDependency,
            ServiceCommand::DependencyList(_) => Command::ListDependencies,
            ServiceCommand::GitCheckout { .. } => Command::CheckoutBranch,
            ServiceCommand::GitCheckoutCommit { .. } => Command::GitCheckoutCommit,
            ServiceCommand::GitPull(_) => Command::GitPull,
            ServiceCommand::GitStatus(_) => Command::GetRepoStatus,
            ServiceCommand::GitLog { .. } => Command::GitLog,
            ServiceCommand::GitListBranches { .. } => Command::GitListBranches,
        }
    }
}

/// Printing a service id and reading the text back gives the same id, and a
/// name is read back as that name when it does not read as a number: the
/// command line accepts what the daemon prints.
pub proof fn law_service_ref_reads_back(r: ServiceRef)
    requires
        r matches ServiceRef::Name(s) ==> crate::text::parse_i64(s@) is None,
    ensures
        match r {
            ServiceRef::Id(n) => crate::text::parse_i64(service_ref_text(r)) == Some(n),
            ServiceRef::Name(s) => crate::text::parse_i64(service_ref_text(r)) is None
                && service_ref_text(r) == s@,
        },
{
    if let ServiceRef::Id(n) = r {
        crate::text::lemma_i64_decimal_reads_back(n);
    }
}

} // verus!
