use nexsock::display::colors;
use nexsock::display::utils::{
    colorize, format_commit_hash, format_timestamp, status_color, truncate_string,
    write_table_row, write_table_separator,
};
use nexsock::display::{DisplayOptions, OutputFormat};
use nexsock::protocol::{
    CommandPayload, ConfigFormat, DependencyInfo, ErrorPayload, GitCommitInfo,
    GitListBranchesResponse, GitLogResponse, ListDependenciesResponse, ListServicesResponse,
    RepoStatus, ServiceConfigInfo, ServiceConfigPayload, ServiceInfo, ServiceRef, ServiceState,
    ServiceStatus,
};

fn opts(color: bool, no_headers: bool, verbose: bool) -> DisplayOptions {
    DisplayOptions { format: OutputFormat::Table, verbose, no_headers, color }
}

fn s(v: &str) -> String {
    v.to_string()
}

#[test]
fn colorize_wraps_only_with_color() {
    assert_eq!(colorize("x", colors::RED, &opts(true, false, false)), "\x1b[31mx\x1b[0m");
    assert_eq!(colorize("x", colors::RED, &opts(false, false, false)), "x");
}

#[test]
fn status_colors_ignore_case() {
    assert_eq!(status_color("RUNNING"), colors::BRIGHT_GREEN);
    assert_eq!(status_color("Starting"), colors::YELLOW);
    assert_eq!(status_color("stopping"), colors::YELLOW);
    assert_eq!(status_color("Stopped"), colors::DIM);
    assert_eq!(status_color("failed"), colors::BRIGHT_RED);
    assert_eq!(status_color("unknown"), colors::WHITE);
}

#[test]
fn table_rows_pad_each_column() {
    let row = write_table_row(&vec![s("ID"), s("NAME")], &vec![3, 5], &opts(false, false, false));
    assert_eq!(row, "ID   NAME \n");
    let wide = write_table_row(&vec![s("longer"), s("x")], &vec![2, 1], &opts(false, false, false));
    assert_eq!(wide, "longer  x\n");
}

#[test]
fn separators_only_with_color() {
    assert_eq!(write_table_separator(&vec![2, 3], &opts(true, false, false)), "──  ───\n");
    assert_eq!(write_table_separator(&vec![2, 3], &opts(false, false, false)), "");
}

#[test]
fn truncation() {
    assert_eq!(truncate_string("hello world", 8), "hello...");
    assert_eq!(truncate_string("hi", 8), "hi");
    assert_eq!(truncate_string("hello", 2), "...");
    assert_eq!(truncate_string("hello", 3), "...");
}

#[test]
fn timestamps_and_hashes() {
    assert_eq!(format_timestamp("2024-06-01T12:34:56Z"), "2024-06-01");
    assert_eq!(format_timestamp("plain"), "plain");
    assert_eq!(format_commit_hash("abcdef1234", true), "abcdef1");
    assert_eq!(format_commit_hash("abcdef1234", false), "abcdef1234");
    assert_eq!(format_commit_hash("abc", true), "abc");
}

#[test]
fn default_options() {
    let o = DisplayOptions::default();
    assert_eq!(o.format, OutputFormat::Table);
    assert!(!o.verbose);
    assert!(!o.no_headers);
    assert_eq!(OutputFormat::default(), OutputFormat::Table);
}

fn status() -> ServiceStatus {
    ServiceStatus {
        id: 1,
        name: s("api"),
        state: ServiceState::Running,
        config_id: Some(4),
        port: 8080,
        repo_url: s("u"),
        repo_path: s("/p"),
        git_branch: Some(s("main")),
        git_commit_hash: Some(s("abcdef1234")),
        config: Some(ServiceConfigInfo {
            filename: Some(s(".env")),
            format: Some(ConfigFormat::Env),
            run_command: Some(s("cargo run")),
        }),
        dependencies: vec![DependencyInfo {
            id: 2,
            name: s("db"),
            tunnel_enabled: true,
            state: ServiceState::Stopped,
        }],
    }
}

#[test]
fn service_status_table_and_plain() {
    let o = opts(false, false, false);
    assert_eq!(
        status().display_table(&o),
        "Service Details\nID: 1\nName: api\nStatus: Running\nPort: 8080\nRepository URL: u\nRepository Path: /p\nGit Branch: main\nGit Commit: abcdef1\n\nConfiguration\nConfig File: .env\nConfig Format: Env\nRun Command: cargo run\n\nDependencies\n  db (tunneled) - Stopped\n"
    );
    assert_eq!(status().display_plain(&o), "api (Running) - Port 8080\n");
}

#[test]
fn service_list_table_and_plain() {
    let list = ListServicesResponse {
        services: vec![
            ServiceInfo { id: 1, name: s("api"), state: ServiceState::Running, port: 8080, has_dependencies: true },
            ServiceInfo { id: 12, name: s("worker"), state: ServiceState::Stopped, port: 9000, has_dependencies: false },
        ],
    };
    let o = opts(false, false, false);
    assert_eq!(
        list.display_table(&o),
        "ID  NAME    STATUS    PORT   DEPS\n1   api     Running   8080   Yes \n12  worker  Stopped   9000   No  \n"
    );
    assert_eq!(list.display_plain(&o), "api\nworker\n");
    let empty = ListServicesResponse { services: vec![] };
    assert_eq!(empty.display_table(&o), "No services found\n");
}

#[test]
fn config_table_and_plain() {
    let c = ServiceConfigPayload {
        service: ServiceRef::Name(s("api")),
        filename: s(".env"),
        format: ConfigFormat::Env,
        run_command: s("run"),
    };
    let o = opts(false, false, false);
    assert_eq!(
        c.display_table(&o),
        "Service Configuration\nService: api\nConfig File: .env\nFormat: Env\nRun Command: run\n"
    );
    assert_eq!(c.display_plain(&o), "api: run (.env)\n");
    let by_id = ServiceConfigPayload { service: ServiceRef::Id(3), ..c };
    assert_eq!(by_id.display_plain(&o), "3: run (.env)\n");
}

#[test]
fn dependency_table_and_plain() {
    let deps = ListDependenciesResponse {
        service_name: s("api"),
        dependencies: vec![
            DependencyInfo { id: 2, name: s("db"), tunnel_enabled: true, state: ServiceState::Running },
            DependencyInfo { id: 3, name: s("cache"), tunnel_enabled: false, state: ServiceState::Failed },
        ],
    };
    let o = opts(false, false, false);
    assert_eq!(
        deps.display_table(&o),
        "Service Dependencies for 'api'\nNAME   STATUS    TUNNEL \ndb     Running   Yes    \ncache  Failed    No     \n"
    );
    assert_eq!(deps.display_plain(&o), "db\ncache\n");
    let none = ListDependenciesResponse { service_name: s("api"), dependencies: vec![] };
    assert_eq!(none.display_table(&o), "No dependencies found for service 'api'\n");
}

fn commit(hash: &str, short: &str, message: &str, full: &str) -> GitCommitInfo {
    GitCommitInfo {
        hash: s(hash),
        short_hash: s(short),
        author_name: s("Alice"),
        author_email: s("a@x"),
        timestamp: s("2024-06-01T12:00:00Z"),
        message: s(message),
        full_message: s(full),
    }
}

#[test]
fn log_table_and_plain() {
    let log = GitLogResponse {
        commits: vec![commit("abcdef1234", "abcdef1", "Init", "Init\n\nBody"), commit("1234567890", "1234567", "Next", "Next")],
    };
    assert_eq!(
        log.display_table(&opts(false, false, false)),
        "abcdef1 Alice 2024-06-01\n  Init\n\n1234567 Alice 2024-06-01\n  Next\n"
    );
    assert_eq!(
        log.display_table(&opts(false, false, true)),
        "abcdef1 Alice 2024-06-01\n  Email: a@x\n  Full hash: abcdef1234\n  Init\n  \n  Body\n\n1234567 Alice 2024-06-01\n  Email: a@x\n  Full hash: 1234567890\n  Next\n"
    );
    assert_eq!(log.display_plain(&opts(false, false, false)), "abcdef1 Init\n1234567 Next\n");
    assert_eq!(GitLogResponse { commits: vec![] }.display_table(&opts(false, false, false)), "No commits found\n");
}

#[test]
fn branches_table_and_plain() {
    let b = GitListBranchesResponse { branches: vec![s("main"), s("dev")] };
    assert_eq!(b.display_table(&opts(false, false, false)), "Branches\nmain\ndev\n");
    assert_eq!(b.display_table(&opts(false, true, false)), "main\ndev\n");
    assert_eq!(b.display_plain(&opts(false, false, false)), "main\ndev\n");
    let none = GitListBranchesResponse { branches: vec![] };
    assert_eq!(none.display_table(&opts(false, false, false)), "No branches found\n");
}

fn repo(ahead: Option<usize>, behind: Option<usize>, dirty: bool, branch: Option<&str>) -> RepoStatus {
    RepoStatus {
        current_branch: branch.map(s),
        current_commit: s("abcdef1234"),
        remote_url: s("u"),
        is_dirty: dirty,
        branches: vec![s("main"), s("dev")],
        ahead_count: ahead,
        behind_count: behind,
    }
}

#[test]
fn repo_status_table_and_plain() {
    let o = opts(false, true, false);
    assert_eq!(
        repo(Some(1), Some(0), true, Some("main")).display_table(&o),
        "Remote URL: u\nCurrent Commit: abcdef1\nCurrent Branch: main\nWorking Directory: Modified\nSync Status: 1 ahead, 0 behind\n"
    );
    assert_eq!(
        repo(Some(0), Some(0), false, None).display_table(&o),
        "Remote URL: u\nCurrent Commit: abcdef1\nWorking Directory: Clean\nSync Status: Up to date\n"
    );
    assert_eq!(
        repo(None, None, false, None).display_table(&opts(false, true, true)),
        "Remote URL: u\nCurrent Commit: abcdef1\nWorking Directory: Clean\n\nAvailable Branches\n  main\n  dev\n"
    );
    assert_eq!(repo(None, None, true, Some("main")).display_plain(&o), "main (modified)\n");
    assert_eq!(repo(None, None, false, None).display_plain(&o), "detached (clean)\n");
}

#[test]
fn error_table_and_plain() {
    let e = ErrorPayload { code: 8, message: s("boom"), details: Some(s("more")) };
    assert_eq!(e.display_table(&opts(false, false, false)), "Error: boom\n");
    assert_eq!(e.display_table(&opts(false, false, true)), "Error: boom\nDetails: more\nError Code: 8\n");
    assert_eq!(
        e.display_table(&opts(true, false, false)),
        "\x1b[91mError\x1b[0m: boom\n"
    );
    assert_eq!(e.display_plain(&opts(false, false, false)), "Error: boom\n");
}

#[test]
fn payload_rendering_by_format() {
    let out = CommandPayload::Stdout(s("line\n"));
    assert_eq!(out.display_table(&opts(false, false, false)), "line\n");
    assert_eq!(out.display_plain(&opts(false, false, false)), "line\n");
    assert_eq!(CommandPayload::Empty.display_table(&opts(false, false, false)), "");
    let mut json = opts(false, false, false);
    json.format = OutputFormat::Json;
    assert_eq!(out.display(&json), None);
    let mut plain = opts(false, false, false);
    plain.format = OutputFormat::Plain;
    let b = CommandPayload::GitBranches(GitListBranchesResponse { branches: vec![s("main")] });
    assert_eq!(b.display(&plain), Some(s("main\n")));
    assert_eq!(b.display(&opts(false, false, false)), Some(s("Branches\nmain\n")));
}

#[test]
fn truncated_strings_fit_their_limit() {
    for (text, max) in [("hello world", 8), ("héllo wörld", 9), ("abc", 3), ("abcdef", 3), ("", 4)] {
        assert!(truncate_string(text, max).len() <= max);
    }
    assert_eq!(truncate_string("héllo wörld", 9), "héllo...");
}

#[test]
fn payloads_know_whether_they_can_be_tabled() {
    assert!(CommandPayload::Empty.displayable());
    assert!(CommandPayload::GitStatus(repo(None, None, false, None)).displayable());
    let mut bad = repo(None, None, false, None);
    bad.current_commit = s("abcdefé");
    assert!(!CommandPayload::GitStatus(bad).displayable());
    let mut st = status();
    st.git_commit_hash = Some(s("abcdefé"));
    assert!(!CommandPayload::Status(st).displayable());
}
