//! The command-line interface of the client: its commands, the parsing of
//! their arguments, and the request that each command sends to the daemon.

use crate::git::system_git::{env_view, envs_view, keys_distinct};
use crate::git::types::{opt_view, strings_view};
use crate::protocol::{
    AddServicePayload, ConfigFormat, EnvPair, ServiceCommand, ServiceConfigPayload, ServiceRef,
};
use crate::text::{
    chars_of, find_char, occurs_at, find_from, lowercase, parse_i64, parse_i64_chars, slice_to_vec, str_eq,
    string_of, to_lowercase,
};
use vstd::prelude::*;

verus! {

broadcast use vstd::string::group_string_axioms;

// ---------------------------------------------------------------------------
// Service references
// ---------------------------------------------------------------------------

impl ServiceRef {
    /// Reads a service reference from the command line: an id when the text
    /// parses as an `i64`, else a name.
    pub fn parse(s: &str) -> (r: ServiceRef)
        ensures
            match parse_i64(s@) {
                Some(n) => r == ServiceRef::Id(n),
                None => r matches ServiceRef::Name(name) && name@ == s@,
            },
    {
        let c = chars_of(s);
        match parse_i64_chars(c.as_slice()) {
            Some(n) => ServiceRef::Id(n),
            None => ServiceRef::Name(string_of(c.as_slice())),
        }
    }
}

impl Default for ServiceRef {
    /// The placeholder reference: id 0.
    fn default() -> (r: Self)
        ensures
            r == ServiceRef::Id(0),
    {
        ServiceRef::Id(0)
    }
}

impl ConfigFormat {
    /// The configuration format named on the command line: `env` for
    /// environment files, anything else for properties files.
    pub fn from_name(s: &str) -> (r: ConfigFormat)
        ensures
            r == (if s@ == "env"@ {
                ConfigFormat::Env
            } else {
                ConfigFormat::Properties
            }),
    {
        if str_eq(s, "env") {
            ConfigFormat::Env
        } else {
            ConfigFormat::Properties
        }
    }
}

// ---------------------------------------------------------------------------
// Tools
// ---------------------------------------------------------------------------

/// A tool of the Nexsock suite.
#[derive(Debug, Clone, Copy, PartialEq, Eq)]
pub enum ToolType {
    /// The daemon.
    Daemon,
    /// The web interface.
    Web,
}

/// The message for a tool name that is not known.
pub open spec fn tool_type_error(s: Seq<char>) -> Seq<char> {
    "Unknown tool type: `"@ + s
        + "`. Supported values are `nexsockd`, `daemon`, `nexsock-web` and `web`"@
}

impl ToolType {
    /// The tool named by `lowered`, the lower-case form of the name `s`:
    /// `nexsockd` or `daemon` for the daemon, `nexsock-web` or `web` for the
    /// web interface; any other name is refused with a message quoting `s`.
    pub fn from_lowercase(lowered: &str, s: &str) -> (r: Result<ToolType, String>)
        ensures
            match r {
                Ok(ToolType::Daemon) => lowered@ == "nexsockd"@ || lowered@ == "daemon"@,
                Ok(ToolType::Web) => lowered@ == "nexsock-web"@ || lowered@ == "web"@,
                Err(e) => e@ == tool_type_error(s@) && lowered@ != "nexsockd"@ && lowered@
                    != "daemon"@ && lowered@ != "nexsock-web"@ && lowered@ != "web"@,
            },
    {
        if str_eq(lowered, "nexsockd") || str_eq(lowered, "daemon") {
            Ok(ToolType::Daemon)
        } else if str_eq(lowered, "nexsock-web") || str_eq(lowered, "web") {
            Ok(ToolType::Web)
        } else {
            let mut v = chars_of("Unknown tool type: `");
            crate::text::push_str(&mut v, s);
            crate::text::push_str(
                &mut v,
                "`. Supported values are `nexsockd`, `daemon`, `nexsock-web` and `web`",
            );
            Err(string_of(v.as_slice()))
        }
    }

    /// Reads a tool name, in any case: `nexsockd` or `daemon` for the daemon,
    /// `nexsock-web` or `web` for the web interface.
    pub fn parse(s: &str) -> (r: Result<ToolType, String>)
        ensures
            match r {
                Ok(ToolType::Daemon) => lowercase(s@) == "nexsockd"@ || lowercase(s@) == "daemon"@,
                Ok(ToolType::Web) => lowercase(s@) == "nexsock-web"@ || lowercase(s@) == "web"@,
                Err(e) => e@ == tool_type_error(s@) && lowercase(s@) != "nexsockd"@ && lowercase(
                    s@,
                ) != "daemon"@ && lowercase(s@) != "nexsock-web"@ && lowercase(s@) != "web"@,
            },
    {
        let l = to_lowercase(s);
        ToolType::from_lowercase(l.as_str(), s)
    }
}

/// The tool management subcommands.
#[derive(Debug, Clone)]
pub enum ToolCommands {
    /// Update tools, all of them unless one is named.
    Update { tool: Option<ToolType>, force: bool, download_only: bool, skip_verify: bool },
    /// Install a tool, at the latest version unless one is given.
    Install { tool: ToolType, version: Option<String>, skip_verify: bool },
    /// List the installed tools.
    List { show_available: bool, check_updates: bool },
    /// Uninstall a tool.
    Uninstall { tool: ToolType, keep_config: bool },
}

/// The answer to every tool management command.
pub open spec fn tools_unsupported() -> Seq<char> {
    "Downloading and managing nexsock tools is currently unsupported"@
}

/// Handles a tool management command: tool management is not supported, so
/// every such command fails with a message saying so.
pub fn handle_tool_commands(command: ToolCommands) -> (r: Result<(), String>)
    ensures
        r matches Err(e) && e@ == tools_unsupported(),
{
    let m = string_of(chars_of("Downloading and managing nexsock tools is currently unsupported").as_slice());
    match command {
        ToolCommands::Update { .. } => Err(m),
        ToolCommands::Install { .. } => Err(m),
        ToolCommands::List { .. } => Err(m),
        ToolCommands::Uninstall { .. } => Err(m),
    }
}

// ---------------------------------------------------------------------------
// Program arguments
// ---------------------------------------------------------------------------

/// The arguments of the load tester.
#[derive(Debug, Clone, Copy)]
pub struct ConcurrentArgs {
    /// Number of concurrent clients in the pool.
    pub pool_size: usize,
    /// Total number of requests to send.
    pub total_requests: usize,
    /// How many requests run at the same time.
    pub concurrency: usize,
    /// Size of each request in bytes.
    pub request_size: usize,
    /// Test duration in seconds; 0 runs until all requests are sent.
    pub duration: u64,
}

/// The arguments of the daemon.
#[derive(Debug, Clone, Copy)]
pub struct App {
    /// Run for `timeout` seconds only.
    pub dry_run: bool,
    /// How many seconds a dry run lasts.
    pub timeout: u64,
}

// ---------------------------------------------------------------------------
// Client commands
// ---------------------------------------------------------------------------

/// The commands of the client.
#[derive(Debug, Clone)]
pub enum Commands {
    /// Start a service, with `KEY=VALUE` environment variables.
    Start { service: ServiceRef, env: Vec<String> },
    /// Stop a service.
    Stop { service: ServiceRef },
    /// Restart a service, with `KEY=VALUE` environment variables.
    Restart { service: ServiceRef, env: Vec<String> },
    /// List all services.
    List,
    /// Show the status of a service.
    Status { service: ServiceRef },
    /// Show the captured output of a service.
    Stdout { service: ServiceRef },
    /// Add a service.
    Add {
        name: String,
        repo_url: String,
        repo_path: String,
        port: i64,
        config: Option<String>,
        run_command: Option<String>,
        git_branch: Option<String>,
        git_auth: String,
    },
    /// Remove a service.
    Remove { service: ServiceRef },
    /// Configuration commands.
    Config { command: ConfigCommands },
    /// Dependency commands.
    Dependency { command: DependencyCommands },
    /// Git commands.
    Git { command: GitCommands },
    /// Tool management commands.
    Tools { command: ToolCommands },
}

/// The configuration commands.
#[derive(Debug, Clone)]
pub enum ConfigCommands {
    /// Show the configuration of a service.
    Get { service: ServiceRef },
    /// Replace the configuration of a service.
    Update { service: ServiceRef, filename: String, format: String, run_command: String },
}

/// The dependency commands.
#[derive(Debug, Clone)]
pub enum DependencyCommands {
    /// Make `service` depend on `dependent`.
    Add { service: ServiceRef, dependent: ServiceRef, tunnel: bool },
    /// Remove a dependency.
    Remove { service: ServiceRef, dependent: ServiceRef },
    /// List the dependencies of a service.
    List { service: ServiceRef },
}

/// The Git commands.
#[derive(Debug, Clone)]
pub enum GitCommands {
    /// Check out a branch.
    Checkout { service: ServiceRef, branch: String, create: bool },
    /// Check out a commit.
    CheckoutCommit { service: ServiceRef, commit: String },
    /// Pull from the remote.
    Pull { service: ServiceRef },
    /// Show the repository status.
    Status { service: ServiceRef },
    /// Show the commit history.
    Log { service: ServiceRef, max_count: Option<usize>, branch: Option<String> },
    /// List the branches.
    Branches { service: ServiceRef, remote: bool },
}

/// The arguments of the client.
#[derive(Debug, Clone)]
pub struct Cli {
    /// The socket of the daemon, when not the configured one.
    pub socket: Option<String>,
    /// The command to run.
    pub command: Commands,
}

// ---------------------------------------------------------------------------
// Environment variables
// ---------------------------------------------------------------------------

/// A `KEY=VALUE` argument split at its first `'='`; nothing without one.
pub open spec fn env_pair(p: Seq<char>) -> Option<(Seq<char>, Seq<char>)> {
    match find_from(p, seq!['='], 0) {
        Some(i) => Some((p.take(i), p.skip(i + 1))),
        None => None,
    }
}

/// The variables set by `KEY=VALUE` arguments, a later one overriding an
/// earlier one with the same key; arguments without `'='` are ignored.
pub open spec fn env_map(args: Seq<Seq<char>>) -> Map<Seq<char>, Seq<char>>
    decreases args.len(),
{
    if args.len() == 0 {
        Map::empty()
    } else {
        let m = env_map(args.drop_last());
        match env_pair(args.last()) {
            Some((k, v)) => m.insert(k, v),
            None => m,
        }
    }
}

/// The map that a list of assignments describes, a later one winning.
pub open spec fn pairs_map(v: Seq<(Seq<char>, Seq<char>)>) -> Map<Seq<char>, Seq<char>>
    decreases v.len(),
{
    if v.len() == 0 {
        Map::empty()
    } else {
        pairs_map(v.drop_last()).insert(v.last().0, v.last().1)
    }
}

proof fn lemma_pairs_map_dom(v: Seq<(Seq<char>, Seq<char>)>, k: Seq<char>)
    ensures
        pairs_map(v).dom().contains(k) <==> exists|i: int| 0 <= i < v.len() && #[trigger] v[i].0 == k,
    decreases v.len(),
{
    if v.len() > 0 {
        lemma_pairs_map_dom(v.drop_last(), k);
        if pairs_map(v.drop_last()).dom().contains(k) {
            let i = choose|i: int| 0 <= i < v.drop_last().len() && #[trigger] v.drop_last()[i].0 == k;
            assert(v[i].0 == k);
        }
        if exists|i: int| 0 <= i < v.len() && #[trigger] v[i].0 == k {
            let i = choose|i: int| 0 <= i < v.len() && #[trigger] v[i].0 == k;
            if i < v.len() - 1 {
                assert(v.drop_last()[i].0 == k);
            }
        }
    }
}

proof fn lemma_pairs_map_update(v: Seq<(Seq<char>, Seq<char>)>, j: int, val: Seq<char>)
    requires
        0 <= j < v.len(),
        keys_distinct(v),
    ensures
        pairs_map(v.update(j, (v[j].0, val))) == pairs_map(v).insert(v[j].0, val),
    decreases v.len(),
{
    let w = v.update(j, (v[j].0, val));
    if j == v.len() - 1 {
        assert(w.drop_last() =~= v.drop_last());
        assert(pairs_map(w) =~= pairs_map(v).insert(v[j].0, val));
    } else {
        assert(w.drop_last() =~= v.drop_last().update(j, (v[j].0, val)));
        lemma_pairs_map_update(v.drop_last(), j, val);
        assert(v.last().0 != v[j].0);
        assert(pairs_map(w) =~= pairs_map(v).insert(v[j].0, val));
    }
}

fn find_key(vars: &Vec<EnvPair>, key: &str) -> (r: Option<usize>)
    ensures
        match r {
            Some(j) => j < vars@.len() && vars@[j as int].0@ == key@,
            None => forall|i: int| 0 <= i < vars@.len() ==> (#[trigger] vars@[i]).0@ != key@,
        },
{
    let mut i: usize = 0;
    while i < vars.len()
        invariant
            i <= vars@.len(),
            forall|k: int| 0 <= k < i ==> (#[trigger] vars@[k]).0@ != key@,
        decreases vars@.len() - i,
    {
        if str_eq(vars[i].0.as_str(), key) {
            return Some(i);
        }
        i = i + 1;
    }
    None
}

impl Cli {
    /// Reads `KEY=VALUE` arguments into environment variables: each argument
    /// is split at its first `'='`, arguments without one are skipped, and a
    /// later value for a key replaces an earlier one.
    pub fn parse_env_vars(env_vars: Vec<String>) -> (r: Vec<EnvPair>)
        ensures
            keys_distinct(envs_view(r@)),
            pairs_map(envs_view(r@)) == env_map(strings_view(env_vars@)),
    {
        let ghost args = strings_view(env_vars@);
        let mut out: Vec<EnvPair> = Vec::new();
        let mut i: usize = 0;
        while i < env_vars.len()
            invariant
                i <= env_vars@.len(),
                args == strings_view(env_vars@),
                keys_distinct(envs_view(out@)),
                pairs_map(envs_view(out@)) == env_map(args.take(i as int)),
            decreases env_vars@.len() - i,
        {
            let ghost before = envs_view(out@);
            let c = chars_of(env_vars[i].as_str());
            assert(args.take(i + 1).drop_last() =~= args.take(i as int));
            assert(args.take(i + 1).last() == c@);
            match find_char(c.as_slice(), '=') {
                Some(eq) => {
                    proof {
                        crate::text::lemma_find_from_range(c@, seq!['='], 0);
                        assert(occurs_at(c@, seq!['='], eq as int));
                        assert(eq < c@.len());
                    }
                    let n = c.len();
                    let key = string_of(slice_to_vec(c.as_slice(), 0, eq).as_slice());
                    let value = string_of(slice_to_vec(c.as_slice(), eq + 1, n).as_slice());
                    proof {
                        assert(key@ =~= c@.take(eq as int));
                        assert(value@ =~= c@.skip(eq + 1));
                    }
                    match find_key(&out, key.as_str()) {
                        Some(j) => {
                            let ghost kj = out@[j as int].0@;
                            let ghost vv = value@;
                            out.set(j, (out[j].0.clone(), value));
                            proof {
                                assert(envs_view(out@) =~= before.update(j as int, (kj, vv)));
                                lemma_pairs_map_update(before, j as int, vv);
                                assert(keys_distinct(envs_view(out@)));
                            }
                        },
                        None => {
                            let ghost kv = key@;
                            let ghost vv = value@;
                            out.push((key, value));
                            proof {
                                assert(envs_view(out@) =~= before.push((kv, vv)));
                                assert(envs_view(out@).drop_last() =~= before);
                                assert(keys_distinct(envs_view(out@)));
                            }
                        },
                    }
                },
                None => {},
            }
            i = i + 1;
        }
        assert(args.take(env_vars@.len() as int) =~= args);
        out
    }
}

// ---------------------------------------------------------------------------
// Requests
// ---------------------------------------------------------------------------

/// The index of the last occurrence of `c` in `s`.
pub open spec fn last_index_of(s: Seq<char>, c: char) -> Option<int>
    decreases s.len(),
{
    if s.len() == 0 {
        None
    } else if s.last() == c {
        Some(s.len() - 1)
    } else {
        last_index_of(s.drop_last(), c)
    }
}

/// The text after the last `'/'` of a path, or the whole path without one.
pub open spec fn last_segment(p: Seq<char>) -> Seq<char> {
    match last_index_of(p, '/') {
        Some(i) => p.skip(i + 1),
        None => p,
    }
}

/// Whether a path splits into components the same way on every platform:
/// it has no `'\\'` and no `':'` (so no drive or device prefix) and does not
/// begin with two `'/'` (so no network share).
pub open spec fn plain_path(p: Seq<char>) -> bool {
    !p.contains('\\') && !p.contains(':') && !(p.len() >= 2 && p[0] == '/' && p[1] == '/')
}

/// Whether a plain path ends in a file name: its last segment is neither
/// empty (a trailing `'/'`) nor `.` nor `..`.
pub open spec fn names_a_file(p: Seq<char>) -> bool {
    plain_path(p) && last_segment(p).len() > 0 && last_segment(p) != seq!['.'] && last_segment(p)
        != seq!['.', '.']
}

/// The extension of a file name: the text after its last `'.'`, unless
/// there is none or it is the first character.
pub open spec fn name_extension(n: Seq<char>) -> Option<Seq<char>> {
    match last_index_of(n, '.') {
        Some(i) => if i > 0 {
            Some(n.skip(i + 1))
        } else {
            None
        },
        None => None,
    }
}

/// The extension of a configuration path (`Path::extension`): for a path
/// that ends in a file name and splits the same way on every platform, the
/// text after the last `'.'` of that name unless the dot begins it. How
/// other paths split depends on the platform and is not stated.
#[verifier::external_body]
fn extension_of(path: &str) -> (r: Option<String>)
    ensures
        names_a_file(path@) ==> opt_view(r) == name_extension(last_segment(path@)),
{
    std::path::Path::new(path).extension().and_then(|e| e.to_str()).map(|e| e.to_string())
}

/// The last component of a configuration path (`Path::file_name`): for a
/// path that ends in a file name and splits the same way on every platform,
/// the text after its last `'/'`. How other paths split depends on the
/// platform and is not stated.
#[verifier::external_body]
fn file_name_of(path: &str) -> (r: Option<String>)
    ensures
        names_a_file(path@) ==> opt_view(r) == Some(last_segment(path@)),
{
    std::path::Path::new(path).file_name().and_then(|e| e.to_str()).map(|e| e.to_string())
}

/// The configuration sent with a new service, from the extension and the
/// file name of its configuration path: environment format for the `env`
/// extension and properties otherwise, the file name or `config`, and the
/// run command or an empty one.
pub fn config_payload(
    extension: &Option<String>,
    file_name: &Option<String>,
    run_command: Option<String>,
) -> (r: ServiceConfigPayload)
    ensures
        r.service == ServiceRef::Id(0),
        r.format == (if opt_view(*extension) == Some("env"@) {
            ConfigFormat::Env
        } else {
            ConfigFormat::Properties
        }),
        r.filename@ == (match file_name {
            Some(f) => f@,
            None => "config"@,
        }),
        r.run_command@ == (match run_command {
            Some(c) => c@,
            None => Seq::<char>::empty(),
        }),
{
    let format = match extension {
        Some(e) => if str_eq(e.as_str(), "env") {
            ConfigFormat::Env
        } else {
            ConfigFormat::Properties
        },
        None => ConfigFormat::Properties,
    };
    let filename = match file_name {
        Some(f) => string_of(chars_of(f.as_str()).as_slice()),
        None => string_of(chars_of("config").as_slice()),
    };
    let run_command = match run_command {
        Some(c) => c,
        None => String::new(),
    };
    ServiceConfigPayload { service: ServiceRef::default(), filename, format, run_command }
}

/// The authentication type sent with a new service: none for `none`, else
/// the given name.
pub fn git_auth_type(git_auth: String) -> (r: Option<String>)
    ensures
        if git_auth@ == "none"@ {
            r is None
        } else {
            r == Some(git_auth)
        },
{
    if str_eq(git_auth.as_str(), "none") {
        None
    } else {
        Some(git_auth)
    }
}

/// Whether `vars` are the variables that `KEY=VALUE` arguments set.
pub open spec fn env_of_args(vars: Seq<EnvPair>, args: Seq<String>) -> bool {
    keys_distinct(envs_view(vars)) && pairs_map(envs_view(vars)) == env_map(strings_view(args))
}

/// Turns a command of the client into the request sent to the daemon; tool
/// commands are not requests and are refused with `invalid command`.
pub fn create_command(cli: Commands) -> (r: Result<ServiceCommand, String>)
    ensures
        match cli {
            Commands::Stdout { service } => r matches Ok(ServiceCommand::Stdout(s)) && s == service,
            Commands::Start { service, env } => r matches Ok(
                ServiceCommand::Start { service: s, env_vars },
            ) && s == service && env_of_args(env_vars@, env@),
            Commands::Stop { service } => r matches Ok(ServiceCommand::Stop(s)) && s == service,
            Commands::Restart { service, env } => r matches Ok(
                ServiceCommand::Restart { service: s, env_vars },
            ) && s == service && env_of_args(env_vars@, env@),
            Commands::List => r matches Ok(ServiceCommand::List),
            Commands::Status { service } => r matches Ok(ServiceCommand::Status(s)) && s == service,
            Commands::Add {
                name,
                repo_url,
                repo_path,
                port,
                config,
                run_command,
                git_branch,
                git_auth,
            } => r matches Ok(ServiceCommand::Add(p)) && p.name == name && p.repo_url == repo_url
                && p.repo_path == repo_path && p.port == port && p.git_branch == git_branch && (
            if git_auth@ == "none"@ {
                p.git_auth_type is None
            } else {
                p.git_auth_type == Some(git_auth)
            }) && (config is None <==> p.config is None) && (p.config matches Some(c) ==> (
            c.service == ServiceRef::Id(0) && c.run_command@ == (match run_command {
                Some(rc) => rc@,
                None => Seq::<char>::empty(),
            }))) && (config matches Some(path) ==> (names_a_file(path@) ==> (p.config matches Some(
                c,
            ) && c.filename@ == last_segment(path@) && c.format == (if name_extension(
                last_segment(path@),
            ) == Some("env"@) {
                ConfigFormat::Env
            } else {
                ConfigFormat::Properties
            })))),
            Commands::Remove { service } => r matches Ok(ServiceCommand::Remove(s)) && s == service,
            Commands::Config { command } => match command {
                ConfigCommands::Get { service } => r matches Ok(ServiceCommand::ConfigGet(s)) && s
                    == service,
                ConfigCommands::Update { service, filename, format, run_command } => r matches Ok(
                    ServiceCommand::ConfigUpdate(c),
                ) && c.service == service && c.filename == filename && c.run_command
                    == run_command && c.format == (if format@ == "env"@ {
                    ConfigFormat::Env
                } else {
                    ConfigFormat::Properties
                }),
            },
            Commands::Dependency { command } => match command {
                DependencyCommands::Add { service, dependent, tunnel } => r matches Ok(
                    ServiceCommand::DependencyAdd { service: s, dependent: d, tunnel_enabled: t },
                ) && s == service && d == dependent && t == tunnel,
                DependencyCommands::Remove { service, dependent } => r matches Ok(
                    ServiceCommand::DependencyRemove { service: s, dependent: d },
                ) && s == service && d == dependent,
                DependencyCommands::List { service } => r matches Ok(
                    ServiceCommand::DependencyList(s),
                ) && s == service,
            },
            Commands::Git { command } => match command {
                GitCommands::Checkout { service, branch, create } => r matches Ok(
                    ServiceCommand::GitCheckout { service: s, branch: b, create_if_missing: c },
                ) && s == service && b == branch && c == create,
                GitCommands::CheckoutCommit { service, commit } => r matches Ok(
                    ServiceCommand::GitCheckoutCommit { service: s, commit_hash: c },
                ) && s == service && c == commit,
                GitCommands::Pull { service } => r matches Ok(ServiceCommand::GitPull(s)) && s
                    == service,
                GitCommands::Status { service } => r matches Ok(ServiceCommand::GitStatus(s)) && s
                    == service,
                GitCommands::Log { service, max_count, branch } => r matches Ok(
                    ServiceCommand::GitLog { service: s, max_count: m, branch: b },
                ) && s == service && m == max_count && b == branch,
                GitCommands::Branches { service, remote } => r matches Ok(
                    ServiceCommand::GitListBranches { service: s, include_remote: i },
                ) && s == service && i == remote,
            },
            Commands::Tools { .. } => r matches Err(e) && e@ == "invalid command"@,
        },
{
    match cli {
        Commands::Stdout { service } => Ok(ServiceCommand::Stdout(service)),
        Commands::Start { service, env } => {
            let env_vars = Cli::parse_env_vars(env);
            Ok(ServiceCommand::Start { service, env_vars })
        },
        Commands::Stop { service } => Ok(ServiceCommand::Stop(service)),
        Commands::Restart { service, env } => {
            let env_vars = Cli::parse_env_vars(env);
            Ok(ServiceCommand::Restart { service, env_vars })
        },
        Commands::List => Ok(ServiceCommand::List),
        Commands::Status { service } => Ok(ServiceCommand::Status(service)),
        Commands::Add {
            name,
            repo_url,
            repo_path,
            port,
            config,
            run_command,
            git_branch,
            git_auth,
        } => {
            let config = match config {
                Some(path) => {
                    let extension = extension_of(path.as_str());
                    let file_name = file_name_of(path.as_str());
                    Some(config_payload(&extension, &file_name, run_command))
                },
                None => None,
            };
            let git_auth_type = git_auth_type(git_auth);
            Ok(
                ServiceCommand::Add(
                    AddServicePayload {
                        name,
                        repo_url,
                        port,
                        repo_path,
                        config,
                        git_branch,
                        git_auth_type,
                    },
                ),
            )
        },
        Commands::Remove { service } => Ok(ServiceCommand::Remove(service)),
        Commands::Config { command } => match command {
            ConfigCommands::Get { service } => Ok(ServiceCommand::ConfigGet(service)),
            ConfigCommands::Update { service, filename, format, run_command } => {
                let format = ConfigFormat::from_name(format.as_str());
                Ok(
                    ServiceCommand::ConfigUpdate(
                        ServiceConfigPayload { service, filename, format, run_command },
                    ),
                )
            },
        },
        Commands::Dependency { command } => match command {
            DependencyCommands::Add { service, dependent, tunnel } => Ok(
                ServiceCommand::DependencyAdd { service, dependent, tunnel_enabled: tunnel },
            ),
            DependencyCommands::Remove { service, dependent } => Ok(
                ServiceCommand::DependencyRemove { service, dependent },
            ),
            DependencyCommands::List { service } => Ok(ServiceCommand::DependencyList(service)),
        },
        Commands::Git { command } => match command {
            GitCommands::Checkout { service, branch, create } => Ok(
                ServiceCommand::GitCheckout { service, branch, create_if_missing: create },
            ),
            GitCommands::CheckoutCommit { service, commit } => Ok(
                ServiceCommand::GitCheckoutCommit { service, commit_hash: commit },
            ),
            GitCommands::Pull { service } => Ok(ServiceCommand::GitPull(service)),
            GitCommands::Status { service } => Ok(ServiceCommand::GitStatus(service)),
            GitCommands::Log { service, max_count, branch } => Ok(
                ServiceCommand::GitLog { service, max_count, branch },
            ),
            GitCommands::Branches { service, remote } => Ok(
                ServiceCommand::GitListBranches { service, include_remote: remote },
            ),
        },
        Commands::Tools { .. } => Err(string_of(chars_of("invalid command").as_slice())),
    }
}

} // verus!
