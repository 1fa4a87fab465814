//! The rules of the service, configuration and dependency managers: the
//! state of a process, when it is cleaned up, how long the daemon waits for
//! a port, the checks before a start, the environment of a restart, the
//! captured output, and what each Git operation needs.
//!
//! Processes, the database and Git are driven by the caller, which hands
//! their answers to the functions here.

use crate::daemon::{Outcome};
use crate::error::{Error, error_text};
use crate::git::auth::GitAuth;
use crate::git::system_git::{envs_view, EnvVar};
use crate::git::types::{opt_view, GitRepoInfo};
use crate::models::{ServiceConfig, ServiceDependency, ServiceRecord};
use crate::protocol::{
    service_ref_text, CheckoutPayload, ConfigFormat, ListServicesResponse, ServiceInfo, ServiceRef, ServiceState,
};
use crate::text::{chars_of, push_str, string_of};
use std::collections::{HashMap, VecDeque};
use vstd::prelude::*;
use vstd::utf8::*;

verus! {

broadcast use vstd::string::group_string_axioms;

fn text_of(s: &str) -> (r: String)
    ensures
        r@ == s@,
{
    string_of(chars_of(s).as_slice())
}

fn generic_error(s: &str) -> (r: Error)
    ensures
        r matches Error::Generic(m) && m@ == s@,
{
    Error::Generic(text_of(s))
}

// ---------------------------------------------------------------------------
// Process state
// ---------------------------------------------------------------------------

/// The state of a tracked process after asking whether it exited: stopped
/// after a successful exit, failed after an unsuccessful one, and unchanged
/// while it runs.
pub fn exit_state(current: ServiceState, exited: Option<bool>) -> (r: ServiceState)
    ensures
        r == (match exited {
            Some(true) => ServiceState::Stopped,
            Some(false) => ServiceState::Failed,
            None => current,
        }),
{
    match exited {
        Some(true) => ServiceState::Stopped,
        Some(false) => ServiceState::Failed,
        None => current,
    }
}

/// What asking the process table about a service gave.
#[derive(Debug, Clone, Copy, PartialEq, Eq)]
pub enum ProcessProbe {
    /// No process is tracked for the service.
    NotTracked,
    /// The process exited, successfully or not.
    Exited(bool),
    /// The process is still running.
    StillRunning,
    /// Asking the process failed.
    Unknown,
}

/// The state reported for a service: stopped when no process is tracked or
/// it exited successfully, failed when it exited unsuccessfully or could
/// not be asked, running while it runs.
pub fn observed_state(probe: ProcessProbe) -> (r: ServiceState)
    ensures
        r == (match probe {
            ProcessProbe::NotTracked => ServiceState::Stopped,
            ProcessProbe::Exited(true) => ServiceState::Stopped,
            ProcessProbe::Exited(false) => ServiceState::Failed,
            ProcessProbe::StillRunning => ServiceState::Running,
            ProcessProbe::Unknown => ServiceState::Failed,
        }),
{
    match probe {
        ProcessProbe::NotTracked => ServiceState::Stopped,
        ProcessProbe::Exited(success) => if success {
            ServiceState::Stopped
        } else {
            ServiceState::Failed
        },
        ProcessProbe::StillRunning => ServiceState::Running,
        ProcessProbe::Unknown => ServiceState::Failed,
    }
}

/// Whether the periodic cleanup removes a process, given the state its
/// status check gave (none when the check failed) and whether a second look
/// finds it exited: failed processes and failed checks go, running and
/// starting ones stay, and the others go when they have exited.
pub fn should_remove(checked: Option<ServiceState>, exited: bool) -> (r: bool)
    ensures
        r == (match checked {
            None => true,
            Some(ServiceState::Failed) => true,
            Some(ServiceState::Starting) => false,
            Some(ServiceState::Running) => false,
            Some(_) => exited,
        }),
{
    match checked {
        None => true,
        Some(ServiceState::Failed) => true,
        Some(ServiceState::Starting) => false,
        Some(ServiceState::Running) => false,
        Some(_) => exited,
    }
}

/// Whether a service is stopped before it is removed: when it is running
/// or starting.
pub fn stop_before_remove(state: ServiceState) -> (r: bool)
    ensures
        r == (state == ServiceState::Running || state == ServiceState::Starting),
{
    match state {
        ServiceState::Running | ServiceState::Starting => true,
        _ => false,
    }
}

/// Sets the state of each listed service to the observed one.
pub fn apply_states(list: &mut ListServicesResponse, states: &Vec<ServiceState>)
    requires
        states@.len() == old(list).services@.len(),
    ensures
        final(list).services@.len() == old(list).services@.len(),
        forall|i: int|
            0 <= i < states@.len() ==> {
                let (a, b) = (#[trigger] final(list).services@[i], old(list).services@[i]);
                &&& a.state == states@[i]
                &&& a.id == b.id
                &&& a.name == b.name
                &&& a.port == b.port
                &&& a.has_dependencies == b.has_dependencies
            },
{
    let ghost before = list.services@;
    let mut services: Vec<ServiceInfo> = Vec::new();
    std::mem::swap(&mut services, &mut list.services);
    let mut out: Vec<ServiceInfo> = Vec::new();
    let n = services.len();
    let mut i: usize = 0;
    while services.len() > 0
        invariant
            before.len() == n,
            states@.len() == n,
            i + services@.len() == n,
            services@ == before.skip(i as int),
            out@.len() == i,
            forall|k: int|
                0 <= k < i ==> {
                    let (a, b) = (#[trigger] out@[k], before[k]);
                    &&& a.state == states@[k]
                    &&& a.id == b.id
                    &&& a.name == b.name
                    &&& a.port == b.port
                    &&& a.has_dependencies == b.has_dependencies
                },
        decreases services@.len(),
    {
        let s = services.remove(0);
        assert(s == before[i as int]);
        out.push(
            ServiceInfo {
                id: s.id,
                name: s.name,
                state: states[i],
                port: s.port,
                has_dependencies: s.has_dependencies,
            },
        );
        assert(services@ =~= before.skip(i + 1));
        i = i + 1;
    }
    list.services = out;
}

// ---------------------------------------------------------------------------
// Terminating a process
// ---------------------------------------------------------------------------

/// How waiting, at most five seconds, for a process to end came out.
#[derive(Debug, Clone, Copy, PartialEq, Eq)]
pub enum WaitOutcome {
    /// The process ended.
    Exited,
    /// Waiting for the process failed.
    Failed,
    /// The process was still running after five seconds.
    TimedOut,
}

/// The phase of terminating a process.
#[derive(Debug, Clone, Copy, PartialEq, Eq)]
pub enum Termination {
    /// Asked to end (SIGTERM); waiting for it.
    Graceful,
    /// Killed (SIGKILL); waiting for it.
    Forced,
}

/// What follows a wait while terminating a process.
#[derive(Debug)]
pub enum TerminationStep {
    /// Terminating is over with this result.
    Done(Result<(), Error>),
    /// Kill the process and wait again, in the forced phase.
    ForceKill,
}

impl Termination {
    /// The step after a wait: a process that ended is done with; one that
    /// did not end after the polite request is killed; after the kill, a
    /// failed wait or a timeout is an error.
    pub fn next(self, waited: WaitOutcome) -> (r: TerminationStep)
        ensures
            waited == WaitOutcome::Exited ==> r matches TerminationStep::Done(Ok(())),
            self == Termination::Graceful && waited != WaitOutcome::Exited ==> r is ForceKill,
            self == Termination::Forced && waited == WaitOutcome::Failed ==> (r matches
                TerminationStep::Done(Err(Error::Generic(m))) && m@
                == "Failed to terminate process"@),
            self == Termination::Forced && waited == WaitOutcome::TimedOut ==> (r matches
                TerminationStep::Done(Err(Error::Generic(m))) && m@
                == "Process termination timeout"@),
    {
        match waited {
            WaitOutcome::Exited => TerminationStep::Done(Ok(())),
            WaitOutcome::Failed => match self {
                Termination::Graceful => TerminationStep::ForceKill,
                Termination::Forced => TerminationStep::Done(
                    Err(generic_error("Failed to terminate process")),
                ),
            },
            WaitOutcome::TimedOut => match self {
                Termination::Graceful => TerminationStep::ForceKill,
                Termination::Forced => TerminationStep::Done(
                    Err(generic_error("Process termination timeout")),
                ),
            },
        }
    }
}

/// The error when a process could not be cleaned up; it is put back in the
/// process table.
pub fn cleanup_failed(service_id: i64) -> (r: Error)
    ensures
        r matches Error::Generic(m) && m@ == "Failed to cleanup process "@
            + crate::text::int_decimal(service_id as int),
{
    let mut v = chars_of("Failed to cleanup process ");
    crate::text::push_all(&mut v, crate::text::i64_to_chars(service_id).as_slice());
    Error::Generic(string_of(v.as_slice()))
}

// ---------------------------------------------------------------------------
// Waiting for a port
// ---------------------------------------------------------------------------

/// How many times the daemon checks that a port was freed after stopping a
/// service.
pub const PORT_CHECKS: u32 = 10;

/// The next step of waiting for a port to be freed.
#[derive(Debug, Clone, Copy, PartialEq, Eq)]
pub enum PortWait {
    /// The port is free: the stop succeeded.
    Freed,
    /// Sleep half a second, then check again; this many checks are done.
    Retry(u32),
    /// Sleep half a second, then give up: the port is still in use.
    GiveUp,
}

/// The step after the check number `done + 1` of a port: done when the port
/// is free, else another check after a pause, up to ten checks in all, and
/// after the last pause a failure.
pub fn port_wait_step(done: u32, port_free: bool) -> (r: PortWait)
    requires
        done < PORT_CHECKS,
    ensures
        port_free ==> r == PortWait::Freed,
        !port_free && done + 1 < PORT_CHECKS ==> r == PortWait::Retry((done + 1) as u32),
        !port_free && done + 1 == PORT_CHECKS ==> r == PortWait::GiveUp,
{
    if port_free {
        PortWait::Freed
    } else if done + 1 < PORT_CHECKS {
        PortWait::Retry(done + 1)
    } else {
        PortWait::GiveUp
    }
}

/// Whether a TCP port is free on this machine (`port_selector::is_free_tcp`);
/// nothing is stated of the answer, which depends on the machine.
#[verifier::external_body]
fn port_is_free(port: u16) -> (r: bool) {
    port_selector::is_free_tcp(port)
}

/// Checks a port once more while waiting for it to be freed: the step of
/// [`port_wait_step`] for what the check found.
pub fn check_port(done: u32, port: u16) -> (r: PortWait)
    requires
        done < PORT_CHECKS,
    ensures
        r == PortWait::Freed || r == PortWait::Retry((done + 1) as u32) || r == PortWait::GiveUp,
        done + 1 < PORT_CHECKS ==> r != PortWait::GiveUp,
        done + 1 == PORT_CHECKS ==> r is Freed || r is GiveUp,
{
    let free = port_is_free(port);
    port_wait_step(done, free)
}

/// The error when the port is still in use after the last check.
pub fn port_not_freed() -> (r: Error)
    ensures
        r matches Error::Generic(m) && m@ == "Failed to free port after service termination"@,
{
    generic_error("Failed to free port after service termination")
}

// ---------------------------------------------------------------------------
// Starting and restarting
// ---------------------------------------------------------------------------

/// The service that a reference names, or the error that none does.
pub fn found_service(service: Option<ServiceRecord>, reference: &ServiceRef) -> (r: Result<
    ServiceRecord,
    Error,
>)
    ensures
        match service {
            Some(s) => r matches Ok(t) && t == s,
            None => r matches Err(Error::Generic(m)) && m@ == "No Service found with reference "@
                + service_ref_text(*reference),
        },
{
    match service {
        Some(s) => Ok(s),
        None => {
            let mut v = chars_of("No Service found with reference ");
            let t = reference.text();
            push_str(&mut v, t.as_str());
            Err(Error::Generic(string_of(v.as_slice())))
        },
    }
}

/// The checks before a start, given whether the port of the service is free
/// and its current state: the port must be free, then the service must not
/// be running.
pub fn start_checks_with(port_free: bool, state: ServiceState) -> (r: Result<(), Error>)
    ensures
        !port_free ==> (r matches Err(Error::Generic(m)) && m@ == "Port is already in use"@),
        port_free && state == ServiceState::Running ==> (r matches Err(Error::Generic(m)) && m@
            == "Service is already running"@),
        port_free && state != ServiceState::Running ==> r is Ok,
{
    if !port_free {
        return Err(generic_error("Port is already in use"));
    }
    if state == ServiceState::Running {
        return Err(generic_error("Service is already running"));
    }
    Ok(())
}

/// The checks before a start: asks whether the port of the service is free
/// (its low 16 bits, as the port is stored as an `i64`), then applies
/// [`start_checks_with`]. Whether the port is free is the machine's answer;
/// a running service is refused either way.
pub fn start_checks(port: i64, state: ServiceState) -> (r: Result<(), Error>)
    ensures
        state == ServiceState::Running ==> r is Err,
        r matches Err(Error::Generic(m)) ==> m@ == "Port is already in use"@ || m@
            == "Service is already running"@,
        r is Err ==> r matches Err(Error::Generic(_)),
{
    let p = tcp_port(port);
    let free = port_is_free(p);
    start_checks_with(free, state)
}

/// The TCP port of a stored port number: its low 16 bits, that is the number
/// modulo 65536.
pub fn tcp_port(port: i64) -> (r: u16)
    ensures
        r as int == port % 65536,
{
    #[verifier::truncate]
    let p = port as u16;
    assert(p as int == port % 65536) by (bit_vector)
        requires
            p == port as u16,
    ;
    p
}

/// The command that a service runs with: the run command of its
/// configuration, or the error that it has no configuration or no run
/// command.
pub fn run_command_of(config: Option<ServiceConfig>) -> (r: Result<String, Error>)
    ensures
        match config {
            None => r matches Err(Error::Generic(m)) && m@ == "Service has no configuration"@,
            Some(c) => match c.run_command {
                None => r matches Err(Error::Generic(m)) && m@ == "Service has no run command"@,
                Some(rc) => r matches Ok(s) && s == rc,
            },
        },
{
    match config {
        None => Err(generic_error("Service has no configuration")),
        Some(c) => match c.run_command {
            None => Err(generic_error("Service has no run command")),
            Some(rc) => Ok(rc),
        },
    }
}

/// The program and arguments that run a service command: `sh -c <command>`.
pub fn spawn_command(run_command: &str) -> (r: (String, Vec<String>))
    ensures
        r.0@ == "sh"@,
        r.1@.len() == 2,
        r.1@[0]@ == "-c"@,
        r.1@[1]@ == run_command@,
{
    let mut args: Vec<String> = Vec::new();
    args.push(text_of("-c"));
    args.push(text_of(run_command));
    (text_of("sh"), args)
}

/// What looking a service up in the process table gave.
#[derive(Debug)]
pub enum Lookup<T> {
    /// The service has a process, with this data.
    Present(T),
    /// The service has no process.
    Absent,
    /// The entry is locked by another task.
    Locked,
}

/// The environment a restart starts the service with, or none when the
/// service is not running (nothing is restarted then): the requested
/// variables, unless none were requested and the running process had some,
/// which are then kept. A locked entry is a lock error.
pub fn restart_env(requested: Vec<EnvVar>, running: Lookup<Vec<EnvVar>>) -> (r: Result<
    Option<Vec<EnvVar>>,
    Error,
>)
    ensures
        match running {
            Lookup::Absent => r matches Ok(None),
            Lookup::Locked => r matches Err(Error::LockError),
            Lookup::Present(current) => r matches Ok(Some(env)) && env == (if requested@.len()
                == 0 && current@.len() > 0 {
                current
            } else {
                requested
            }),
        },
{
    match running {
        Lookup::Absent => Ok(None),
        Lookup::Locked => Err(Error::LockError),
        Lookup::Present(current) => {
            if requested.len() == 0 && current.len() > 0 {
                Ok(Some(current))
            } else {
                Ok(Some(requested))
            }
        },
    }
}

// ---------------------------------------------------------------------------
// Captured output
// ---------------------------------------------------------------------------

/// How many output chunks a service keeps.
pub const LOG_CAPACITY: usize = 10_000;

/// A chunk of the output of a service, with the time it was read in
/// milliseconds since the Unix epoch.
#[derive(Debug, Clone)]
pub struct LogEntry {
    pub timestamp_millis: i64,
    pub content: String,
}

/// The last `LOG_CAPACITY` entries of a sequence.
pub open spec fn window(s: Seq<LogEntry>) -> Seq<LogEntry> {
    if s.len() > LOG_CAPACITY {
        s.skip(s.len() - LOG_CAPACITY)
    } else {
        s
    }
}

/// The output of a service: the most recent chunks, at most `LOG_CAPACITY`.
pub struct LogBuffer {
    entries: VecDeque<LogEntry>,
}

impl LogBuffer {
    #[verifier::type_invariant]
    spec fn bounded(&self) -> bool {
        self.entries@.len() <= LOG_CAPACITY
    }

    /// The chunks held, oldest first.
    pub closed spec fn contents(&self) -> Seq<LogEntry> {
        self.entries@
    }

    /// An empty buffer.
    pub fn new() -> (r: Self)
        ensures
            r.contents() == Seq::<LogEntry>::empty(),
    {
        LogBuffer { entries: VecDeque::new() }
    }

    /// The number of chunks held.
    pub fn len(&self) -> (r: usize)
        ensures
            r == self.contents().len(),
            r <= LOG_CAPACITY,
    {
        proof {
            use_type_invariant(self);
        }
        self.entries.len()
    }

    /// Appends a chunk, dropping the oldest ones beyond `LOG_CAPACITY`.
    pub fn push(&mut self, entry: LogEntry)
        ensures
            final(self).contents() == window(old(self).contents().push(entry)),
    {
        proof {
            use_type_invariant(&*self);
        }
        let mut entries = VecDeque::new();
        std::mem::swap(&mut entries, &mut self.entries);
        let ghost all = entries@.push(entry);
        entries.push_back(entry);
        while entries.len() > LOG_CAPACITY
            invariant
                all.len() <= LOG_CAPACITY + 1,
                entries@ == window_from(all, (all.len() - entries@.len()) as int),
                all.len() >= entries@.len(),
                entries@.len() == all.len() || entries@.len() >= LOG_CAPACITY,
            decreases entries@.len(),
        {
            let ghost before = entries@;
            entries.pop_front();
            assert(entries@ =~= window_from(all, (all.len() - entries@.len()) as int));
        }
        assert(entries@ =~= window(all));
        self.entries = entries;
    }

    /// The captured output: the chunks joined in order.
    pub fn text(&self) -> (r: String)
        ensures
            r@ == joined(self.contents()),
    {
        let mut v: Vec<char> = Vec::new();
        let ghost es = self.entries@;
        let n = self.entries.len();
        let mut i: usize = 0;
        while i < n
            invariant
                n == es.len(),
                es == self.entries@,
                i <= n,
                v@ == joined(es.take(i as int)),
            decreases n - i,
        {
            push_str(&mut v, self.entries[i].content.as_str());
            assert(es.take(i + 1).drop_last() =~= es.take(i as int));
            i = i + 1;
        }
        assert(es.take(n as int) =~= es);
        string_of(v.as_slice())
    }
}

/// The entries of `s` from index `k` on.
pub open spec fn window_from(s: Seq<LogEntry>, k: int) -> Seq<LogEntry> {
    s.skip(k)
}

/// The contents of the chunks joined in order.
pub open spec fn joined(s: Seq<LogEntry>) -> Seq<char>
    decreases s.len(),
{
    if s.len() == 0 {
        Seq::empty()
    } else {
        joined(s.drop_last()) + s.last().content@
    }
}

/// Pushing one chunk at a time keeps exactly the last `LOG_CAPACITY` chunks
/// of everything pushed.
pub proof fn law_log_keeps_last_chunks(s: Seq<LogEntry>, e: LogEntry)
    ensures
        window(window(s).push(e)) == window(s.push(e)),
{
    if s.len() > LOG_CAPACITY {
        assert(window(s).push(e).skip(1) =~= s.push(e).skip(s.push(e).len() - LOG_CAPACITY));
    } else {
        assert(window(s) =~= s);
    }
}

/// Reads a chunk of output as UTF-8 text (`String::from_utf8`): the text when
/// the bytes are valid UTF-8, nothing otherwise.
#[verifier::external_body]
fn utf8_text(bytes: Vec<u8>) -> (r: Option<String>)
    ensures
        match r {
            Some(s) => valid_utf8(bytes@) && s@ == decode_utf8(bytes@),
            None => !valid_utf8(bytes@),
        },
{
    String::from_utf8(bytes).ok()
}

/// The text of a chunk read from a service: kept when it is valid UTF-8,
/// dropped otherwise.
pub fn chunk_text(bytes: &[u8]) -> (r: Option<String>)
    ensures
        match r {
            Some(s) => valid_utf8(bytes@) && s@ == decode_utf8(bytes@),
            None => !valid_utf8(bytes@),
        },
{
    let mut v: Vec<u8> = Vec::new();
    let mut i: usize = 0;
    while i < bytes.len()
        invariant
            i <= bytes@.len(),
            v@ == bytes@.take(i as int),
        decreases bytes@.len() - i,
    {
        v.push(bytes[i]);
        i = i + 1;
        assert(v@ =~= bytes@.take(i as int));
    }
    assert(bytes@.take(bytes@.len() as int) =~= bytes@);
    utf8_text(v)
}

/// The captured output of a service, or why there is none: a service
/// without a process is not running, and a locked entry cannot be read.
pub fn stdout_of(logs: Lookup<&LogBuffer>) -> (r: Result<String, Error>)
    ensures
        match logs {
            Lookup::Present(b) => r matches Ok(s) && s@ == joined(b.contents()),
            Lookup::Absent => r matches Err(Error::Generic(m)) && m@ == "Service is not running"@,
            Lookup::Locked => r matches Err(Error::Generic(m)) && m@
                == "Service was locked, unable to get stdout"@,
        },
{
    match logs {
        Lookup::Present(b) => Ok(b.text()),
        Lookup::Absent => Err(generic_error("Service is not running")),
        Lookup::Locked => Err(generic_error("Service was locked, unable to get stdout")),
    }
}

// ---------------------------------------------------------------------------
// Git operations on a service repository
// ---------------------------------------------------------------------------

/// The authentication used for the Git operations of a service: the SSH
/// agent as user `git`, whatever type is stored.
pub fn git_auth_for(auth_type: &Option<String>) -> (r: GitAuth)
    ensures
        r matches GitAuth::SshAgent { username } && username@ == "git"@,
{
    GitAuth::ssh_agent(text_of("git"))
}

/// A Git operation on the repository of a service.
#[derive(Debug, Clone, Copy, PartialEq, Eq, Structural)]
pub enum GitOp {
    CheckoutBranch,
    CheckoutCommit,
    Pull,
    Status,
    Log,
    ListBranches,
    EnsureRepo,
}

/// The Git arguments that carry out a checkout request: `checkout -B
/// <branch>` when the branch is to be created if it is missing (or reset),
/// `checkout <branch>` otherwise.
pub fn checkout_request_args(request: &CheckoutPayload) -> (r: Vec<String>)
    ensures
        crate::git::system_git::args_view(r@) == (if request.create_if_missing {
            seq!["checkout"@, "-B"@, request.branch@]
        } else {
            seq!["checkout"@, request.branch@]
        }),
{
    crate::git::system_git::checkout_branch_args(request.branch.as_str(), request.create_if_missing)
}

/// What to do before a Git operation, given the repository on disk.
#[derive(Debug)]
pub enum RepoPrep {
    /// The repository is there: perform the operation.
    Proceed,
    /// Clone the repository first, at this branch or the default one; for
    /// [`GitOp::EnsureRepo`] the clone is the whole operation.
    CloneFirst(Option<String>),
    /// The repository is already there: nothing to do.
    NothingToDo,
}

/// What to do before a Git operation: checkouts clone a missing repository
/// at its default branch first; pull, status, log and branch listing need
/// the repository directory and fail without it; ensuring the repository
/// does nothing when the directory and its `.git` exist and clones at the
/// configured branch otherwise.
pub fn repo_prep(
    op: GitOp,
    path_exists: bool,
    git_dir_exists: bool,
    repo_path: &str,
    git_branch: &Option<String>,
) -> (r: Result<RepoPrep, Error>)
    ensures
        match op {
            GitOp::CheckoutBranch | GitOp::CheckoutCommit => if path_exists {
                r matches Ok(RepoPrep::Proceed)
            } else {
                r matches Ok(RepoPrep::CloneFirst(None))
            },
            GitOp::EnsureRepo => if path_exists && git_dir_exists {
                r matches Ok(RepoPrep::NothingToDo)
            } else {
                r matches Ok(RepoPrep::CloneFirst(b)) && opt_view(b) == opt_view(*git_branch)
            },
            _ => if path_exists {
                r matches Ok(RepoPrep::Proceed)
            } else {
                r matches Err(Error::Generic(m)) && m@ == "Repository does not exist: "@
                    + repo_path@
            },
        },
{
    match op {
        GitOp::CheckoutBranch | GitOp::CheckoutCommit => {
            if path_exists {
                Ok(RepoPrep::Proceed)
            } else {
                Ok(RepoPrep::CloneFirst(None))
            }
        },
        GitOp::EnsureRepo => {
            if path_exists && git_dir_exists {
                Ok(RepoPrep::NothingToDo)
            } else {
                let b = match git_branch {
                    Some(b) => Some(text_of(b.as_str())),
                    None => None,
                };
                Ok(RepoPrep::CloneFirst(b))
            }
        },
        _ => {
            if path_exists {
                Ok(RepoPrep::Proceed)
            } else {
                let mut v = chars_of("Repository does not exist: ");
                push_str(&mut v, repo_path);
                Err(Error::Generic(string_of(v.as_slice())))
            }
        },
    }
}

/// The Git information stored for a service after an operation.
#[derive(Debug, Clone)]
pub struct GitInfoUpdate {
    pub branch: Option<String>,
    pub commit: Option<String>,
    pub auth_type: Option<String>,
}

/// The Git information stored after an operation: the branch and commit the
/// repository is at (no branch after checking out a commit) with the stored
/// authentication type; nothing for the operations that only read.
pub fn git_info_after(op: GitOp, info: &GitRepoInfo, auth_type: &Option<String>) -> (r: Option<
    GitInfoUpdate,
>)
    ensures
        match op {
            GitOp::Status | GitOp::Log | GitOp::ListBranches => r is None,
            _ => r matches Some(u) && (if op == GitOp::CheckoutCommit {
                u.branch is None
            } else {
                opt_view(u.branch) == opt_view(info.current_branch)
            }) && opt_view(u.commit) == Some(info.current_commit@) && opt_view(u.auth_type)
                == opt_view(*auth_type),
        },
{
    match op {
        GitOp::Status | GitOp::Log | GitOp::ListBranches => None,
        _ => {
            let branch = if op == GitOp::CheckoutCommit {
                None
            } else {
                copy_opt(&info.current_branch)
            };
            Some(
                GitInfoUpdate {
                    branch,
                    commit: Some(text_of(info.current_commit.as_str())),
                    auth_type: copy_opt(auth_type),
                },
            )
        },
    }
}

fn copy_opt(s: &Option<String>) -> (r: Option<String>)
    ensures
        opt_view(r) == opt_view(*s),
{
    match s {
        Some(v) => Some(text_of(v.as_str())),
        None => None,
    }
}

/// A service whose code lives in a Git repository.
pub trait GitService {
    /// The directory of the repository.
    fn repository_path(&self) -> String;

    /// The URL the repository is cloned from.
    fn repository_url(&self) -> String;
}

impl GitService for ServiceRecord {
    fn repository_path(&self) -> (r: String)
        ensures
            r@ == self.repo_path@,
    {
        text_of(self.repo_path.as_str())
    }

    fn repository_url(&self) -> (r: String)
        ensures
            r@ == self.repo_url@,
    {
        text_of(self.repo_url.as_str())
    }
}

/// How a service repository is cloned when it is missing: from its URL into
/// its directory, through the SSH agent as user `git`, at the default
/// branch; nothing when the directory and its `.git` exist.
pub fn ensure_repo_clone(
    service: &ServiceRecord,
    path_exists: bool,
    is_git_repo: bool,
) -> (r: Option<(String, String, GitAuth)>)
    ensures
        path_exists && is_git_repo <==> r is None,
        r matches Some(c) ==> c.0@ == service.repo_url@ && c.1@ == service.repo_path@ && (
        c.2 matches GitAuth::SshAgent { username } && username@ == "git"@),
{
    if path_exists && is_git_repo {
        None
    } else {
        Some((service.repository_url(), service.repository_path(), GitAuth::ssh_agent(text_of("git"))))
    }
}

// ---------------------------------------------------------------------------
// The process table
// ---------------------------------------------------------------------------

/// The processes of the running services, by service id.
pub struct ProcessTable<P> {
    entries: HashMap<i64, P>,
    order: Vec<i64>,
}

impl<P> ProcessTable<P> {
    #[verifier::type_invariant]
    spec fn consistent(&self) -> bool {
        &&& self.order@.no_duplicates()
        &&& forall|id: i64| self.entries@.contains_key(id) <==> self.order@.contains(id)
    }

    /// The tracked processes, by service id.
    pub closed spec fn processes(&self) -> Map<i64, P> {
        self.entries@
    }

    /// An empty table.
    pub fn new() -> (r: Self)
        ensures
            r.processes() == Map::<i64, P>::empty(),
    {
        let r = ProcessTable { entries: HashMap::new(), order: Vec::new() };
        assert(r.entries@ =~= Map::<i64, P>::empty());
        r
    }

    /// Whether a process is tracked for the service.
    pub fn contains(&self, id: i64) -> (r: bool)
        ensures
            r == self.processes().contains_key(id),
    {
        broadcast use vstd::std_specs::hash::group_hash_axioms;

        self.entries.contains_key(&id)
    }

    /// The ids of the services with a tracked process, each once.
    pub fn ids(&self) -> (r: Vec<i64>)
        ensures
            r@.no_duplicates(),
            forall|id: i64| r@.contains(id) <==> self.processes().contains_key(id),
    {
        proof {
            use_type_invariant(self);
        }
        let mut r: Vec<i64> = Vec::new();
        let mut i: usize = 0;
        while i < self.order.len()
            invariant
                i <= self.order@.len(),
                r@ == self.order@.take(i as int),
            decreases self.order@.len() - i,
        {
            r.push(self.order[i]);
            assert(r@ =~= self.order@.take(i + 1));
            i = i + 1;
        }
        assert(r@ =~= self.order@);
        r
    }

    /// Tracks the process of a service that was started, or put back after
    /// a failed cleanup; a process already tracked for it is replaced.
    pub fn register(&mut self, id: i64, process: P)
        ensures
            final(self).processes() == old(self).processes().insert(id, process),
    {
        broadcast use vstd::std_specs::hash::group_hash_axioms;

        proof {
            use_type_invariant(&*self);
        }
        let known = self.entries.contains_key(&id);
        let mut table = ProcessTable::new();
        std::mem::swap(&mut table, self);
        let ProcessTable { mut entries, mut order } = table;
        let ghost o = order@;
        entries.insert(id, process);
        if !known {
            order.push(id);
            proof {
                assert forall|a: int, b: int| 0 <= a < b < order@.len() implies order@[a] != order@[b] by {
                    if b == order@.len() - 1 {
                        assert(o.contains(order@[a]));
                    } else {
                        assert(o[a] != o[b]);
                    }
                }
                assert forall|k: i64| entries@.contains_key(k) <==> order@.contains(k) by {
                    if order@.contains(k) && k != id {
                        let q = choose|q: int| 0 <= q < order@.len() && order@[q] == k;
                        assert(o[q] == k);
                    }
                    if o.contains(k) {
                        let q = choose|q: int| 0 <= q < o.len() && o[q] == k;
                        assert(order@[q] == k);
                    }
                    if k == id {
                        assert(order@[o.len() as int] == k);
                    }
                }
            }
        }
        *self = ProcessTable { entries, order };
    }

    /// Takes the process of a service out of the table, to stop it.
    pub fn take(&mut self, id: i64) -> (r: Option<P>)
        ensures
            match r {
                Some(p) => old(self).processes().contains_key(id) && p == old(self).processes()[id]
                    && final(self).processes() == old(self).processes().remove(id),
                None => !old(self).processes().contains_key(id) && final(self).processes() == old(
                    self,
                ).processes(),
            },
    {
        broadcast use vstd::std_specs::hash::group_hash_axioms;

        proof {
            use_type_invariant(&*self);
        }
        let mut table = ProcessTable::new();
        std::mem::swap(&mut table, self);
        let ProcessTable { mut entries, mut order } = table;
        let ghost o = order@;
        let r = entries.remove(&id);
        let mut kept: Vec<i64> = Vec::new();
        let mut i: usize = 0;
        while i < order.len()
            invariant
                order@ == o,
                o.no_duplicates(),
                i <= o.len(),
                kept@.no_duplicates(),
                forall|k: i64|
                    #[trigger] kept@.contains(k) <==> (k != id && exists|q: int|
                        0 <= q < i && o[q] == k),
            decreases o.len() - i,
        {
            let x = order[i];
            let ghost before = kept@;
            if x != id {
                kept.push(x);
                proof {
                    assert(!before.contains(x)) by {
                        if before.contains(x) {
                            let q = choose|q: int| 0 <= q < i && o[q] == x;
                            assert(o[q] == o[i as int]);
                        }
                    }
                    assert forall|a: int, b: int| 0 <= a < b < kept@.len() implies kept@[a] != kept@[b] by {
                        if b == kept@.len() - 1 {
                            assert(before.contains(kept@[a]));
                        } else {
                            assert(before[a] != before[b]);
                        }
                    }
                }
            }
            proof {
                assert forall|k: i64|
                    #[trigger] kept@.contains(k) <==> (k != id && exists|q: int|
                        0 <= q < i + 1 && o[q] == k) by {
                    if kept@.contains(k) && !before.contains(k) {
                        assert(k == x);
                        assert(o[i as int] == k);
                    }
                    if before.contains(k) {
                        let r = choose|r: int| 0 <= r < before.len() && before[r] == k;
                        assert(kept@[r] == k);
                    }
                    if k != id && exists|q: int| 0 <= q < i + 1 && o[q] == k {
                        let q = choose|q: int| 0 <= q < i + 1 && o[q] == k;
                        if q == i {
                            assert(kept@[kept@.len() - 1] == k);
                        } else {
                            assert(before.contains(k));
                        }
                    }
                }
            }
            i = i + 1;
        }
        proof {
            assert forall|k: i64| entries@.contains_key(k) <==> kept@.contains(k) by {
                if o.contains(k) {
                    let q = choose|q: int| 0 <= q < o.len() && o[q] == k;
                    assert(o[q] == k);
                }
                if exists|q: int| 0 <= q < o.len() && o[q] == k {
                    let q = choose|q: int| 0 <= q < o.len() && o[q] == k;
                    assert(o.contains(k));
                }
            }
        }
        *self = ProcessTable { entries, order: kept };
        r
    }
}

impl<P> ProcessTable<P> {
    /// Takes the processes of the given services out of the table, as the
    /// periodic cleanup does with the ones it found exited or failed: the
    /// table keeps exactly the other processes, and each process taken is
    /// returned once with its service id.
    pub fn take_all(&mut self, ids: &Vec<i64>) -> (r: Vec<(i64, P)>)
        ensures
            forall|k: i64|
                #[trigger] final(self).processes().contains_key(k) <==> (old(
                    self,
                ).processes().contains_key(k) && !ids@.contains(k)),
            forall|k: i64|
                #[trigger] final(self).processes().contains_key(k) ==> final(self).processes()[k]
                    == old(self).processes()[k],
            forall|j: int|
                0 <= j < r@.len() ==> ids@.contains((#[trigger] r@[j]).0) && old(
                    self,
                ).processes().contains_key(r@[j].0) && r@[j].1 == old(self).processes()[r@[j].0],
            forall|k: i64|
                old(self).processes().contains_key(k) && ids@.contains(k) ==> exists|j: int|
                    0 <= j < r@.len() && (#[trigger] r@[j]).0 == k,
    {
        let ghost m0 = self.processes();
        let mut r: Vec<(i64, P)> = Vec::new();
        let mut i: usize = 0;
        while i < ids.len()
            invariant
                i <= ids@.len(),
                forall|k: i64|
                    #[trigger] self.processes().contains_key(k) <==> (m0.contains_key(k) && !(exists|
                        q: int,
                    | 0 <= q < i && ids@[q] == k)),
                forall|k: i64| #[trigger]
                    self.processes().contains_key(k) ==> self.processes()[k] == m0[k],
                forall|j: int|
                    0 <= j < r@.len() ==> (exists|q: int| 0 <= q < i && ids@[q] == (#[trigger] r@[j]).0)
                        && m0.contains_key(r@[j].0) && r@[j].1 == m0[r@[j].0],
                forall|k: i64|
                    m0.contains_key(k) && (exists|q: int| 0 <= q < i && ids@[q] == k) ==> exists|j: int|
                        0 <= j < r@.len() && (#[trigger] r@[j]).0 == k,
            decreases ids@.len() - i,
        {
            let id = ids[i];
            let ghost before = self.processes();
            let ghost r0 = r@;
            match self.take(id) {
                Some(p) => {
                    r.push((id, p));
                    proof {
                        assert(r@[r0.len() as int].0 == id);
                    }
                },
                None => {},
            }
            proof {
                assert forall|k: i64|
                    #[trigger] self.processes().contains_key(k) <==> (m0.contains_key(k) && !(exists|
                        q: int,
                    | 0 <= q < i + 1 && ids@[q] == k)) by {
                    if exists|q: int| 0 <= q < i + 1 && ids@[q] == k {
                        let q = choose|q: int| 0 <= q < i + 1 && ids@[q] == k;
                        if q < i {
                            assert(!before.contains_key(k));
                        }
                    }
                    if k != id && (exists|q: int| 0 <= q < i && ids@[q] == k) {
                        let q = choose|q: int| 0 <= q < i && ids@[q] == k;
                        assert(0 <= q < i + 1 && ids@[q] == k);
                    }
                    if k == id {
                        assert(0 <= i < i + 1 && ids@[i as int] == k);
                    }
                }
                assert forall|j: int|
                    0 <= j < r@.len() implies (exists|q: int| 0 <= q < i + 1 && ids@[q] == (#[trigger] r@[j]).0)
                        && m0.contains_key(r@[j].0) && r@[j].1 == m0[r@[j].0] by {
                    if j < r0.len() {
                        assert(r@[j] == r0[j]);
                        let q = choose|q: int| 0 <= q < i && ids@[q] == r0[j].0;
                        assert(0 <= q < i + 1 && ids@[q] == r@[j].0);
                    } else {
                        assert(0 <= i < i + 1 && ids@[i as int] == r@[j].0);
                    }
                }
                assert forall|k: i64|
                    m0.contains_key(k) && (exists|q: int| 0 <= q < i + 1 && ids@[q] == k) implies exists|j: int|
                        0 <= j < r@.len() && (#[trigger] r@[j]).0 == k by {
                    let q = choose|q: int| 0 <= q < i + 1 && ids@[q] == k;
                    if q < i {
                        let j = choose|j: int| 0 <= j < r0.len() && (#[trigger] r0[j]).0 == k;
                        assert(r@[j] == r0[j]);
                    } else if before.contains_key(k) {
                        assert(r@[r0.len() as int].0 == k);
                    } else {
                        let q2 = choose|q2: int| 0 <= q2 < i && ids@[q2] == k;
                        let j = choose|j: int| 0 <= j < r0.len() && (#[trigger] r0[j]).0 == k;
                        assert(r@[j] == r0[j]);
                    }
                }
            }
            i = i + 1;
        }
        proof {
            assert forall|k: i64|
                #[trigger] self.processes().contains_key(k) <==> (m0.contains_key(k) && !ids@.contains(k)) by {
                if ids@.contains(k) {
                    let q = choose|q: int| 0 <= q < ids@.len() && ids@[q] == k;
                    assert(0 <= q < i && ids@[q] == k);
                }
                if exists|q: int| 0 <= q < i && ids@[q] == k {
                    let q = choose|q: int| 0 <= q < i && ids@[q] == k;
                    assert(ids@.contains(k));
                }
            }
            assert forall|j: int| 0 <= j < r@.len() implies ids@.contains((#[trigger] r@[j]).0) by {
                let q = choose|q: int| 0 <= q < i && ids@[q] == r@[j].0;
                assert(ids@[q] == r@[j].0);
            }
            assert forall|k: i64| m0.contains_key(k) && ids@.contains(k) implies exists|j: int|
                0 <= j < r@.len() && (#[trigger] r@[j]).0 == k by {
                let q = choose|q: int| 0 <= q < ids@.len() && ids@[q] == k;
                assert(0 <= q < i && ids@[q] == k);
            }
        }
        r
    }
}

/// Taking a process out for cleanup and putting it back after the cleanup
/// failed leaves the table as it was.
pub proof fn law_failed_cleanup_restores<P>(table: Map<i64, P>, id: i64)
    requires
        table.contains_key(id),
    ensures
        table.remove(id).insert(id, table[id]) == table,
{
    assert(table.remove(id).insert(id, table[id]) =~= table);
}

} // verus!
