//! The decisions of the daemon: which operation a command asks for and
//! whether its payload is there, how an operation's outcome becomes a
//! response, how a response or an error is answered, which socket file is
//! cleared at start, and which finished connections are swept away.
//!
//! The caller performs the operations, the I/O and the payload decoding, and
//! hands the results back to the functions here.

use crate::error::{error_code, error_text, Error};
use crate::git::types::{GitCommit, GitRepoInfo};
use crate::protocol::{
    Command, CommandPayload, ErrorPayload, GitCommitInfo, GitListBranchesResponse, GitLogResponse,
    ListDependenciesResponse, ListServicesResponse, RepoStatus, ServiceConfigPayload,
    ServiceStatus,
};
use crate::text::{chars_of, decimal, push_str, string_of, u64_to_chars};
use vstd::multiset::Multiset;
use vstd::prelude::*;

verus! {

broadcast use vstd::string::group_string_axioms;

// ---------------------------------------------------------------------------
// Commands
// ---------------------------------------------------------------------------

/// The work that a command asks of the service, configuration, dependency
/// or plugin managers.
#[derive(Debug, Clone, Copy, PartialEq, Eq)]
pub enum Operation {
    GetStdout,
    Start,
    Stop,
    Restart,
    GetStatus,
    AddService,
    RemoveService,
    ListServices,
    UpdateConfig,
    GetConfig,
    AddDependency,
    RemoveDependency,
    ListDependencies,
    CheckoutBranch,
    CheckoutCommit,
    Pull,
    RepoStatus,
    Log,
    ListBranches,
    RunPlugins,
}

/// The operation of a command; none for the commands that are answered at
/// once with an empty success (shutdown, system status, ping, success and
/// error).
pub open spec fn operation_of(c: Command) -> Option<Operation> {
    match c {
        Command::GetServiceStdout => Some(Operation::GetStdout),
        Command::StartService => Some(Operation::Start),
        Command::StopService => Some(Operation::Stop),
        Command::RestartService => Some(Operation::Restart),
        Command::GetServiceStatus => Some(Operation::GetStatus),
        Command::AddService => Some(Operation::AddService),
        Command::RemoveService => Some(Operation::RemoveService),
        Command::ListServices => Some(Operation::ListServices),
        Command::UpdateConfig => Some(Operation::UpdateConfig),
        Command::GetConfig => Some(Operation::GetConfig),
        Command::AddDependency => Some(Operation::AddDependency),
        Command::RemoveDependency => Some(Operation::RemoveDependency),
        Command::ListDependencies => Some(Operation::ListDependencies),
        Command::CheckoutBranch => Some(Operation::CheckoutBranch),
        Command::GitCheckoutCommit => Some(Operation::CheckoutCommit),
        Command::GitPull => Some(Operation::Pull),
        Command::GetRepoStatus => Some(Operation::RepoStatus),
        Command::GitLog => Some(Operation::Log),
        Command::GitListBranches => Some(Operation::ListBranches),
        Command::Extra => Some(Operation::RunPlugins),
        Command::Shutdown => None,
        Command::GetSystemStatus => None,
        Command::Ping => None,
        Command::Success => None,
        Command::Error => None,
    }
}

/// Whether an operation reads a payload: all but listing the services.
pub open spec fn needs_payload(op: Operation) -> bool {
    op != Operation::ListServices
}

/// What the daemon does with a command.
#[derive(Debug)]
pub enum Step {
    /// Answer at once with this response.
    Reply(CommandPayload),
    /// Perform the operation, decoding its payload when it has one.
    Perform(Operation, Option<Vec<u8>>),
}

/// Decides what the daemon does with a command: commands without an
/// operation are answered with an empty success; an operation that reads a
/// payload fails with [`Error::ExpectedPayload`] when none came, and is
/// performed with it otherwise; listing the services ignores any payload.
pub fn handle_command(command: Command, payload: Option<Vec<u8>>) -> (r: Result<Step, Error>)
    ensures
        match operation_of(command) {
            None => r matches Ok(Step::Reply(CommandPayload::Empty)),
            Some(op) => if !needs_payload(op) {
                r matches Ok(Step::Perform(o, None)) && o == op
            } else {
                match payload {
                    None => r matches Err(Error::ExpectedPayload),
                    Some(p) => r matches Ok(Step::Perform(o, Some(q))) && o == op && q@ == p@,
                }
            },
        },
{
    let op = match command {
        Command::GetServiceStdout => Operation::GetStdout,
        Command::StartService => Operation::Start,
        Command::StopService => Operation::Stop,
        Command::RestartService => Operation::Restart,
        Command::GetServiceStatus => Operation::GetStatus,
        Command::AddService => Operation::AddService,
        Command::RemoveService => Operation::RemoveService,
        Command::ListServices => {
            return Ok(Step::Perform(Operation::ListServices, None));
        },
        Command::UpdateConfig => Operation::UpdateConfig,
        Command::GetConfig => Operation::GetConfig,
        Command::AddDependency => Operation::AddDependency,
        Command::RemoveDependency => Operation::RemoveDependency,
        Command::ListDependencies => Operation::ListDependencies,
        Command::CheckoutBranch => Operation::CheckoutBranch,
        Command::GitCheckoutCommit => Operation::CheckoutCommit,
        Command::GitPull => Operation::Pull,
        Command::GetRepoStatus => Operation::RepoStatus,
        Command::GitLog => Operation::Log,
        Command::GitListBranches => Operation::ListBranches,
        Command::Extra => Operation::RunPlugins,
        Command::Shutdown => {
            return Ok(Step::Reply(CommandPayload::Empty));
        },
        Command::GetSystemStatus => {
            return Ok(Step::Reply(CommandPayload::Empty));
        },
        Command::Ping => {
            return Ok(Step::Reply(CommandPayload::Empty));
        },
        Command::Success => {
            return Ok(Step::Reply(CommandPayload::Empty));
        },
        Command::Error => {
            return Ok(Step::Reply(CommandPayload::Empty));
        },
    };
    match payload {
        None => Err(Error::ExpectedPayload),
        Some(p) => Ok(Step::Perform(op, Some(p))),
    }
}

/// The payload of a request, once decoded: a decoding error is passed on,
/// and a payload that decodes to nothing is [`Error::FailedToGetPayload`].
pub fn read_req_payload<T>(decoded: Result<Option<T>, Error>) -> (r: Result<T, Error>)
    ensures
        match decoded {
            Err(e) => r matches Err(f) && f == e,
            Ok(None) => r matches Err(Error::FailedToGetPayload),
            Ok(Some(v)) => r matches Ok(w) && w == v,
        },
{
    match decoded {
        Err(e) => Err(e),
        Ok(None) => Err(Error::FailedToGetPayload),
        Ok(Some(v)) => Ok(v),
    }
}

// ---------------------------------------------------------------------------
// Outcomes and replies
// ---------------------------------------------------------------------------

/// What an operation produced.
#[derive(Debug)]
pub enum Outcome {
    /// Nothing to report.
    Done,
    /// The captured output of a service.
    Stdout(String),
    /// The status of a service.
    Status(ServiceStatus),
    /// All services.
    Services(ListServicesResponse),
    /// A service configuration.
    Config(ServiceConfigPayload),
    /// The dependencies of a service.
    Dependencies(ListDependenciesResponse),
    /// The state of a repository.
    Repo(GitRepoInfo),
    /// Commits of a repository.
    Commits(Vec<GitCommit>),
    /// Branches of a repository.
    Branches(Vec<String>),
}

/// The repository status reported for repository information: the same fields.
pub open spec fn is_repo_status_of(s: RepoStatus, info: GitRepoInfo) -> bool {
    &&& s.current_branch == info.current_branch
    &&& s.current_commit == info.current_commit
    &&& s.remote_url == info.remote_url
    &&& s.is_dirty == info.is_dirty
    &&& s.branches == info.branches
    &&& s.ahead_count == info.ahead_count
    &&& s.behind_count == info.behind_count
}

/// The commit reported for a commit: the same fields.
pub open spec fn is_commit_info_of(i: GitCommitInfo, c: GitCommit) -> bool {
    &&& i.hash == c.hash
    &&& i.short_hash == c.short_hash
    &&& i.author_name == c.author_name
    &&& i.author_email == c.author_email
    &&& i.timestamp == c.timestamp
    &&& i.message == c.message
    &&& i.full_message == c.full_message
}

/// Reports repository information as a repository status.
pub fn repo_status_of(info: GitRepoInfo) -> (r: RepoStatus)
    ensures
        is_repo_status_of(r, info),
{
    RepoStatus {
        current_branch: info.current_branch,
        current_commit: info.current_commit,
        remote_url: info.remote_url,
        is_dirty: info.is_dirty,
        branches: info.branches,
        ahead_count: info.ahead_count,
        behind_count: info.behind_count,
    }
}

/// Reports commits as a log response, in the same order.
pub fn log_response_of(commits: Vec<GitCommit>) -> (r: GitLogResponse)
    ensures
        r.commits@.len() == commits@.len(),
        forall|i: int| 0 <= i < commits@.len() ==> is_commit_info_of(#[trigger] r.commits@[i], commits@[i]),
{
    let mut infos: Vec<GitCommitInfo> = Vec::new();
    let mut rest = commits;
    let ghost all = rest@;
    let n = rest.len();
    let mut i: usize = 0;
    while rest.len() > 0
        invariant
            all.len() == n,
            i + rest@.len() == all.len(),
            rest@ == all.skip(i as int),
            infos@.len() == i,
            forall|k: int| 0 <= k < i ==> is_commit_info_of(#[trigger] infos@[k], all[k]),
        decreases rest@.len(),
    {
        let c = rest.remove(0);
        assert(c == all[i as int]);
        infos.push(
            GitCommitInfo {
                hash: c.hash,
                short_hash: c.short_hash,
                author_name: c.author_name,
                author_email: c.author_email,
                timestamp: c.timestamp,
                message: c.message,
                full_message: c.full_message,
            },
        );
        assert(rest@ =~= all.skip(i + 1));
        i = i + 1;
    }
    GitLogResponse { commits: infos }
}

/// Turns the outcome of an operation into the response sent to the client.
pub fn finish(outcome: Outcome) -> (r: CommandPayload)
    ensures
        match outcome {
            Outcome::Done => r is Empty,
            Outcome::Stdout(s) => r == CommandPayload::Stdout(s),
            Outcome::Status(s) => r == CommandPayload::Status(s),
            Outcome::Services(l) => r == CommandPayload::ListServices(l),
            Outcome::Config(c) => r == CommandPayload::ServiceConfig(c),
            Outcome::Dependencies(d) => r == CommandPayload::Dependencies(d),
            Outcome::Repo(info) => r matches CommandPayload::GitStatus(s) && is_repo_status_of(
                s,
                info,
            ),
            Outcome::Commits(cs) => r matches CommandPayload::GitLog(l) && l.commits@.len()
                == cs@.len() && forall|i: int|
                0 <= i < cs@.len() ==> is_commit_info_of(#[trigger] l.commits@[i], cs@[i]),
            Outcome::Branches(bs) => r == CommandPayload::GitBranches(
                GitListBranchesResponse { branches: bs },
            ),
        },
{
    match outcome {
        Outcome::Done => CommandPayload::Empty,
        Outcome::Stdout(s) => CommandPayload::Stdout(s),
        Outcome::Status(s) => CommandPayload::Status(s),
        Outcome::Services(l) => CommandPayload::ListServices(l),
        Outcome::Config(c) => CommandPayload::ServiceConfig(c),
        Outcome::Dependencies(d) => CommandPayload::Dependencies(d),
        Outcome::Repo(info) => CommandPayload::GitStatus(repo_status_of(info)),
        Outcome::Commits(cs) => CommandPayload::GitLog(log_response_of(cs)),
        Outcome::Branches(bs) => CommandPayload::GitBranches(
            GitListBranchesResponse { branches: bs },
        ),
    }
}

/// The message sent back for a handled command.
#[derive(Debug)]
pub enum Reply {
    /// A success with nothing attached.
    Success,
    /// A success carrying a response.
    SuccessWithPayload(CommandPayload),
    /// An error, with its code and message.
    Failure(ErrorPayload),
}

/// How the result of a command is answered: an empty response is a plain
/// success, any other a success with the response attached, and an error a
/// failure with the error's code and message and no details.
pub fn reply_for(result: Result<CommandPayload, Error>) -> (r: Reply)
    ensures
        match result {
            Ok(p) => if p is Empty {
                r is Success
            } else {
                r matches Reply::SuccessWithPayload(q) && q == p
            },
            Err(e) => r matches Reply::Failure(ep) && ep.code == error_code(e) && ep.message@
                == error_text(e) && ep.details is None,
        },
{
    match result {
        Ok(p) => {
            if p.is_empty() {
                Reply::Success
            } else {
                Reply::SuccessWithPayload(p)
            }
        },
        Err(e) => Reply::Failure(e.to_payload()),
    }
}

/// How handling one message of a connection ended.
#[derive(Debug, Clone)]
pub enum MessageOutcome {
    /// The message was answered.
    Handled,
    /// The client closed the connection (an unexpected end of file).
    Disconnected,
    /// Reading or answering failed with this I/O error text.
    Failed(String),
}

/// What a connection does after a message: it goes on after an answered
/// message, ends cleanly when the client has gone, and ends with an I/O
/// error otherwise.
pub fn connection_step(outcome: MessageOutcome) -> (r: Option<Result<(), Error>>)
    ensures
        match outcome {
            MessageOutcome::Handled => r is None,
            MessageOutcome::Disconnected => r matches Some(Ok(())),
            MessageOutcome::Failed(m) => r matches Some(Err(Error::Io(t))) && t == m,
        },
{
    match outcome {
        MessageOutcome::Handled => None,
        MessageOutcome::Disconnected => Some(Ok(())),
        MessageOutcome::Failed(m) => Some(Err(Error::Io(m))),
    }
}

// ---------------------------------------------------------------------------
// Sockets
// ---------------------------------------------------------------------------

/// Where the daemon listens: a Unix socket file or a TCP port.
#[derive(Debug, Clone, PartialEq, Eq)]
pub enum SocketRef {
    Path(String),
    Port(u16),
}

/// How a socket reference prints: the path, or the port number.
pub open spec fn socket_text(s: SocketRef) -> Seq<char> {
    match s {
        SocketRef::Path(p) => p@,
        SocketRef::Port(n) => decimal(n as nat),
    }
}

impl SocketRef {
    /// The printed form of the socket reference.
    pub fn text(&self) -> (r: String)
        ensures
            r@ == socket_text(*self),
    {
        match self {
            SocketRef::Path(p) => string_of(chars_of(p.as_str()).as_slice()),
            SocketRef::Port(n) => string_of(u64_to_chars(*n as u64).as_slice()),
        }
    }
}

/// The configuration of the daemon.
#[derive(Debug, Clone)]
pub struct DaemonConfig {
    pub socket: SocketRef,
}

impl DaemonConfig {
    /// The default configuration: the socket file `/tmp/nexsockd.sock` on
    /// Unix, TCP port 50505 elsewhere.
    pub fn for_platform(unix: bool) -> (r: DaemonConfig)
        ensures
            if unix {
                r.socket matches SocketRef::Path(p) && p@ == "/tmp/nexsockd.sock"@
            } else {
                r.socket == SocketRef::Port(50505)
            },
    {
        if unix {
            DaemonConfig {
                socket: SocketRef::Path(string_of(chars_of("/tmp/nexsockd.sock").as_slice())),
            }
        } else {
            DaemonConfig { socket: SocketRef::Port(50505) }
        }
    }
}

/// The socket file to remove before listening on Unix: the path of a file
/// socket; a port is refused with an invalid-socket error that names it.
pub fn socket_file_to_clear(socket: &SocketRef) -> (r: Result<&String, Error>)
    ensures
        match *socket {
            SocketRef::Path(p) => r matches Ok(q) && *q == p,
            SocketRef::Port(_) => r matches Err(Error::InvalidSocket { message, got, expected })
                && message@ == "Unable to clear the UNIX socket"@ && got@ == socket_text(*socket)
                && expected@ == "<PATH>"@,
        },
{
    match socket {
        SocketRef::Path(p) => Ok(p),
        SocketRef::Port(_) => Err(
            Error::InvalidSocket {
                message: string_of(chars_of("Unable to clear the UNIX socket").as_slice()),
                got: socket.text(),
                expected: string_of(chars_of("<PATH>").as_slice()),
            },
        ),
    }
}

// ---------------------------------------------------------------------------
// Connections
// ---------------------------------------------------------------------------

#[verifier::external_type_specification]
#[verifier::external_body]
#[verifier::reject_recursive_types(T)]
pub struct ExJoinHandle<T>(tokio::task::JoinHandle<T>);

/// `JoinHandle`'s `Future` output names `JoinError`, so Verus needs this
/// type declared before it accepts `JoinHandle` at all.
#[verifier::external_type_specification]
#[verifier::external_body]
pub struct ExJoinError(tokio::task::JoinError);

/// Whether the task of a connection has finished
/// (`tokio::task::JoinHandle::is_finished`); nothing is stated of the answer,
/// which depends on when it is asked.
#[verifier::external_body]
fn connection_finished(handle: &tokio::task::JoinHandle<()>) -> (r: bool) {
    handle.is_finished()
}

/// The elements of `s` whose flag in `f` is `b`, in order.
pub open spec fn flagged<T>(s: Seq<T>, f: Seq<bool>, b: bool) -> Seq<T>
    decreases s.len(),
{
    if s.len() == 0 || f.len() == 0 {
        Seq::empty()
    } else {
        let p = flagged(s.drop_last(), f.drop_last(), b);
        if f.last() == b {
            p.push(s.last())
        } else {
            p
        }
    }
}

/// Every element goes to exactly one side of a split by flags.
pub proof fn lemma_flagged_partition<T>(s: Seq<T>, f: Seq<bool>)
    requires
        f.len() == s.len(),
    ensures
        flagged(s, f, true).to_multiset().add(flagged(s, f, false).to_multiset())
            == s.to_multiset(),
    decreases s.len(),
{
    broadcast use vstd::seq_lib::group_to_multiset_ensures;
    broadcast use vstd::multiset::group_multiset_axioms;

    if s.len() == 0 {
        assert(s.to_multiset() =~= Multiset::<T>::empty());
        assert(Seq::<T>::empty().to_multiset() =~= Multiset::<T>::empty());
        assert(flagged(s, f, true).to_multiset().add(flagged(s, f, false).to_multiset())
            =~= s.to_multiset());
    } else {
        lemma_flagged_partition(s.drop_last(), f.drop_last());
        let t = flagged(s.drop_last(), f.drop_last(), true);
        let u = flagged(s.drop_last(), f.drop_last(), false);
        vstd::seq_lib::to_multiset_build(t, s.last());
        vstd::seq_lib::to_multiset_build(u, s.last());
        vstd::seq_lib::to_multiset_build(s.drop_last(), s.last());
        assert(s.drop_last().push(s.last()) =~= s);
        assert(flagged(s, f, true).to_multiset().add(flagged(s, f, false).to_multiset())
            =~= s.to_multiset());
    }
}

/// Splits a list by flags, one per element: the elements flagged `true` are
/// taken out and returned, those flagged `false` stay in the list (the order
/// of either side may change).
pub fn split_finished<T>(connections: &mut Vec<T>, finished: &Vec<bool>) -> (done: Vec<T>)
    requires
        finished@.len() == old(connections)@.len(),
    ensures
        final(connections)@.to_multiset() == flagged(old(connections)@, finished@, false).to_multiset(),
        done@.to_multiset() == flagged(old(connections)@, finished@, true).to_multiset(),
{
    broadcast use vstd::seq_lib::group_to_multiset_ensures;
    broadcast use vstd::multiset::group_multiset_axioms;

    let ghost s = connections@;
    let ghost f = finished@;
    let mut rest: Vec<T> = Vec::new();
    std::mem::swap(&mut rest, connections);
    let mut done: Vec<T> = Vec::new();
    assert(s.take(s.len() as int) =~= s);
    assert(f.take(f.len() as int) =~= f);
    assert(connections@.to_multiset() =~= Multiset::<T>::empty());
    assert(done@.to_multiset() =~= Multiset::<T>::empty());
    while rest.len() > 0
        invariant
            f == finished@,
            f.len() == s.len(),
            rest@.len() <= s.len(),
            rest@ == s.take(rest@.len() as int),
            connections@.to_multiset().add(
                flagged(s.take(rest@.len() as int), f.take(rest@.len() as int), false).to_multiset(),
            ) == flagged(s, f, false).to_multiset(),
            done@.to_multiset().add(
                flagged(s.take(rest@.len() as int), f.take(rest@.len() as int), true).to_multiset(),
            ) == flagged(s, f, true).to_multiset(),
        decreases rest@.len(),
    {
        let n = rest.len();
        let ghost sn = s.take(n as int);
        let ghost fn_ = f.take(n as int);
        assert(sn.drop_last() =~= s.take(n - 1));
        assert(fn_.drop_last() =~= f.take(n - 1));
        let h = rest.pop().unwrap();
        assert(rest@ =~= s.take(n - 1));
        let ghost hv = h;
        assert(hv == sn.last());
        let ghost c0 = connections@;
        let ghost d0 = done@;
        if finished[n - 1] {
            done.push(h);
            proof {
                vstd::seq_lib::to_multiset_build(d0, hv);
                vstd::seq_lib::to_multiset_build(flagged(s.take(n - 1), f.take(n - 1), true), hv);
                assert(done@ =~= d0.push(hv));
                assert(done@.to_multiset().add(
                    flagged(s.take(n - 1), f.take(n - 1), true).to_multiset(),
                ) =~= d0.to_multiset().add(flagged(sn, fn_, true).to_multiset()));
                assert(flagged(sn, fn_, false) == flagged(s.take(n - 1), f.take(n - 1), false));
            }
        } else {
            connections.push(h);
            proof {
                vstd::seq_lib::to_multiset_build(c0, hv);
                vstd::seq_lib::to_multiset_build(flagged(s.take(n - 1), f.take(n - 1), false), hv);
                assert(connections@ =~= c0.push(hv));
                assert(connections@.to_multiset().add(
                    flagged(s.take(n - 1), f.take(n - 1), false).to_multiset(),
                ) =~= c0.to_multiset().add(flagged(sn, fn_, false).to_multiset()));
                assert(flagged(sn, fn_, true) == flagged(s.take(n - 1), f.take(n - 1), true));
            }
        }
    }
    assert(s.take(0) =~= Seq::<T>::empty());
    assert(connections@.to_multiset() =~= connections@.to_multiset().add(
        flagged(s.take(0), f.take(0), false).to_multiset(),
    ));
    assert(done@.to_multiset() =~= done@.to_multiset().add(
        flagged(s.take(0), f.take(0), true).to_multiset(),
    ));
    done
}

/// Takes the handles of the finished connections out of the list, asking
/// each handle once whether its task has finished: the handles found
/// finished are returned and the others stay; no handle is lost or
/// duplicated.
pub fn take_finished(connections: &mut Vec<tokio::task::JoinHandle<()>>) -> (done: Vec<
    tokio::task::JoinHandle<()>,
>)
    ensures
        exists|f: Seq<bool>|
            f.len() == old(connections)@.len() && final(connections)@.to_multiset() == flagged(
                old(connections)@,
                f,
                false,
            ).to_multiset() && done@.to_multiset() == flagged(old(connections)@, f, true).to_multiset(),
        final(connections)@.to_multiset().add(done@.to_multiset()) == old(
            connections,
        )@.to_multiset(),
        final(connections)@.len() + done@.len() == old(connections)@.len(),
{
    broadcast use vstd::seq_lib::group_to_multiset_ensures;
    broadcast use vstd::multiset::group_multiset_axioms;

    let ghost s = connections@;
    let mut finished: Vec<bool> = Vec::new();
    let mut i: usize = 0;
    while i < connections.len()
        invariant
            connections@ == s,
            i <= s.len(),
            finished@.len() == i,
        decreases s.len() - i,
    {
        finished.push(connection_finished(&connections[i]));
        i = i + 1;
    }
    let done = split_finished(connections, &finished);
    proof {
        lemma_flagged_partition(s, finished@);
        assert(connections@.to_multiset().add(done@.to_multiset()) =~= s.to_multiset());
        assert(connections@.to_multiset().len() + done@.to_multiset().len() == s.to_multiset().len());
    }
    done
}

/// The operation each client request asks of the daemon, by the kind of the
/// request: a restart restarts, a stop stops, and so on.
pub open spec fn requested_operation(c: crate::protocol::ServiceCommand) -> Operation {
    match c {
        crate::protocol::ServiceCommand::Stdout(_) => Operation::GetStdout,
        crate::protocol::ServiceCommand::Start { .. } => Operation::Start,
        crate::protocol::ServiceCommand::Stop(_) => Operation::Stop,
        crate::protocol::ServiceCommand::Restart { .. } => Operation::Restart,
        crate::protocol::ServiceCommand::List => Operation::ListServices,
        crate::protocol::ServiceCommand::Status(_) => Operation::GetStatus,
        crate::protocol::ServiceCommand::Add(_) => Operation::AddService,
        crate::protocol::ServiceCommand::Remove(_) => Operation::RemoveService,
        crate::protocol::ServiceCommand::ConfigGet(_) => Operation::GetConfig,
        crate::protocol::ServiceCommand::ConfigUpdate(_) => Operation::UpdateConfig,
        crate::protocol::ServiceCommand::DependencyAdd { .. } => Operation::AddDependency,
        crate::protocol::ServiceCommand::DependencyRemove { .. } => Operation::RemoveDependency,
        crate::protocol::ServiceCommand::DependencyList(_) => Operation::ListDependencies,
        crate::protocol::ServiceCommand::GitCheckout { .. } => Operation::CheckoutBranch,
        crate::protocol::ServiceCommand::GitCheckoutCommit { .. } => Operation::CheckoutCommit,
        crate::protocol::ServiceCommand::GitPull(_) => Operation::Pull,
        crate::protocol::ServiceCommand::GitStatus(_) => Operation::RepoStatus,
        crate::protocol::ServiceCommand::GitLog { .. } => Operation::Log,
        crate::protocol::ServiceCommand::GitListBranches { .. } => Operation::ListBranches,
    }
}

/// Whatever the client asks, the daemon performs that very operation: the
/// command word the request travels under is routed to the operation of the
/// request's kind (a restart request is restarted, not merely stopped).
pub proof fn law_requests_get_their_own_operation(c: crate::protocol::ServiceCommand)
    ensures
        operation_of(crate::protocol::command_of(c)) == Some(requested_operation(c)),
{
}

/// No two command words are routed to the same operation: each operation is
/// reached by one command only.
pub proof fn law_operations_are_distinct(a: Command, b: Command)
    ensures
        operation_of(a) is Some && operation_of(a) == operation_of(b) ==> a == b,
{
}

} // verus!
