use nexsock::git::auth::GitAuth;
use nexsock::git::system_git::{
    checkout_branch_args, checkout_commit_args, clone_args, command_outcome, fetch_args,
    list_branches_args, log_args, pull_args, upstream_counts, GitError, StatusAction,
    StatusProbe, StatusStep, SystemGitBackend,
};
use nexsock::git::types::{first_line_of, short_hash, GitCommit, GitRepoInfo};

fn s(v: &str) -> String {
    v.to_string()
}

#[test]
fn auth_types_and_storage() {
    assert_eq!(GitAuth::none(), GitAuth::NoAuth);
    assert_eq!(GitAuth::none().auth_type(), "none");
    assert!(!GitAuth::none().requires_storage());
    let agent = GitAuth::ssh_agent(s("git"));
    assert_eq!(agent, GitAuth::SshAgent { username: s("git") });
    assert_eq!(agent.auth_type(), "ssh_agent");
    assert!(!agent.requires_storage());
    let token = GitAuth::token(s("me"), s("secret"));
    assert_eq!(token.auth_type(), "token");
    assert!(token.requires_storage());
    let key = GitAuth::SshKey { username: s("me"), private_key_path: s("/k"), passphrase: None };
    assert_eq!(key.auth_type(), "ssh_key");
    assert!(key.requires_storage());
    let up = GitAuth::UserPass { username: s("me"), password: s("pw") };
    assert_eq!(up.auth_type(), "user_pass");
    assert!(up.requires_storage());
}

#[test]
fn repo_info_new_has_no_branches_or_counts() {
    let repo_info = GitRepoInfo::new(Some(s("main")), s("abc123"), s("https://example.com/repo.git"), false);
    assert_eq!(repo_info.current_branch, Some(s("main")));
    assert_eq!(repo_info.is_dirty, false);
    assert!(repo_info.branches.is_empty());
    assert!(!repo_info.has_remote_tracking());
    assert!(!repo_info.is_ahead());
    assert!(!repo_info.is_behind());
}

#[test]
fn repo_info_tracking_and_counts() {
    let repo = GitRepoInfo {
        current_branch: Some(s("main")),
        current_commit: s("abc123"),
        remote_url: s("https://example.com/repo.git"),
        is_dirty: false,
        branches: vec![s("main")],
        ahead_count: Some(2),
        behind_count: None,
    };
    assert!(repo.has_remote_tracking());
    assert!(repo.is_ahead());
    assert!(!repo.is_behind());
    let mut behind = GitRepoInfo::new(Some(s("main")), s("abc123"), s("https://example.com/repo.git"), false);
    behind.behind_count = Some(3);
    assert!(behind.is_behind());
    behind.ahead_count = Some(0);
    assert!(!behind.is_ahead());
}

#[test]
fn commit_new_keeps_first_line_and_short_hash() {
    let commit = GitCommit::new(
        s("abcdef1234567890"),
        s("Alice"),
        s("alice@example.com"),
        s("2024-06-01T12:34:56Z"),
        s("Initial commit\n\nMore details"),
    );
    assert_eq!(commit.short_hash, "abcdef1");
    assert_eq!(commit.message, "Initial commit");
    assert_eq!(commit.full_message, "Initial commit\n\nMore details");
    assert_eq!(short_hash("abc"), "abc");
    assert_eq!(first_line_of(""), "");
}

#[test]
fn backend_environment() {
    let backend = SystemGitBackend::new();
    assert_eq!(
        backend.env_vars(),
        &vec![(s("GIT_CONFIG_GLOBAL"), s("/dev/null")), (s("GIT_CONFIG_SYSTEM"), s("/dev/null"))]
    );
    assert_eq!(SystemGitBackend::default().env_vars(), backend.env_vars());
    let traced = SystemGitBackend::with_env_vars(vec![(s("GIT_TRACE"), s("1"))]);
    assert_eq!(traced.env_vars(), &vec![(s("GIT_TRACE"), s("1"))]);
}

#[test]
fn auth_environment() {
    let b = SystemGitBackend::new();
    assert!(b.configure_auth(&GitAuth::NoAuth).is_empty());
    assert_eq!(
        b.configure_auth(&GitAuth::ssh_agent(s("git"))),
        vec![(s("GIT_SSH_COMMAND"), s("ssh -o BatchMode=yes"))]
    );
    let key = GitAuth::SshKey { username: s("u"), private_key_path: s("/id"), passphrase: Some(s("p")) };
    assert_eq!(
        b.configure_auth(&key),
        vec![(s("GIT_SSH_COMMAND"), s("ssh -i /id -o BatchMode=yes"))]
    );
    assert_eq!(
        b.configure_auth(&GitAuth::token(s("u"), s("t"))),
        vec![(s("GIT_ASKPASS"), s("echo")), (s("GIT_USERNAME"), s("u")), (s("GIT_PASSWORD"), s("t"))]
    );
}

#[test]
fn dirty_status() {
    let backend = SystemGitBackend::new();
    assert!(backend.is_repo_dirty(" M src/main.rs\n"));
    assert!(!backend.is_repo_dirty(""));
    assert!(!backend.is_repo_dirty("  \n"));
}

#[test]
fn branch_parsing() {
    let backend = SystemGitBackend::new();
    let output = "* main\n  dev\n  remotes/origin/main\n  remotes/origin/dev\n";
    assert_eq!(
        backend.parse_branches(output),
        vec!["main", "dev", "remotes/origin/main", "remotes/origin/dev"]
    );
    let odd = "* (HEAD detached at abc)\n  remotes/origin/HEAD -> origin/main\n\n  x\n";
    assert_eq!(backend.parse_branches(odd), vec!["x"]);
}

#[test]
fn commit_parsing() {
    let backend = SystemGitBackend::new();
    let log_output = "abc123\nAlice\nalice@example.com\n1710000000\nInitial commit\n\n---COMMIT---\ndef456\nBob\nbob@example.com\n1710001000\nAdded feature\n";
    let commits = backend.parse_commits(log_output);
    assert_eq!(commits.len(), 2);
    assert_eq!(commits[0].author_name, "Alice");
    assert_eq!(commits[0].message, "Initial commit");
    assert_eq!(commits[1].message, "Added feature");
    assert_eq!(commits[1].short_hash, "def456");
    assert!(backend.parse_commits("too\nshort\n").is_empty());
}

#[test]
fn command_arguments() {
    assert_eq!(clone_args("u", "p", Some("dev")), vec!["clone", "--branch", "dev", "u", "p"]);
    assert_eq!(clone_args("u", "p", None), vec!["clone", "u", "p"]);
    assert_eq!(checkout_branch_args("b", true), vec!["checkout", "-B", "b"]);
    assert_eq!(checkout_branch_args("b", false), vec!["checkout", "b"]);
    assert_eq!(checkout_commit_args("abc"), vec!["checkout", "abc"]);
    assert_eq!(pull_args(), vec!["pull"]);
    assert_eq!(fetch_args(), vec!["fetch"]);
    assert_eq!(
        log_args(Some(5), Some("main")),
        vec!["log", "--format=%H%n%an%n%ae%n%aI%n%s%n%b%n---COMMIT---", "-n", "5", "main"]
    );
    assert_eq!(log_args(None, None), vec!["log", "--format=%H%n%an%n%ae%n%aI%n%s%n%b%n---COMMIT---"]);
    assert_eq!(list_branches_args(true), vec!["branch", "-a"]);
    assert_eq!(list_branches_args(false), vec!["branch"]);
}

#[test]
fn command_outcomes() {
    let args = vec![s("pull"), s("--rebase")];
    assert_eq!(command_outcome(&args, true, "  done \n", ""), Ok(s("done")));
    assert_eq!(
        command_outcome(&args, false, "out", "err"),
        Err(GitError { message: s("Git command failed: git pull --rebase\nStderr: err\nStdout: out") })
    );
}

#[test]
fn upstream_count_parsing() {
    assert_eq!(upstream_counts("2\t3"), (Some(2), Some(3)));
    assert_eq!(upstream_counts("x 1"), (Some(0), Some(1)));
    assert_eq!(upstream_counts("1"), (None, None));
}

fn run_status(outcomes: Vec<Result<String, GitError>>) -> (Vec<Vec<String>>, Result<GitRepoInfo, GitError>) {
    let (mut probe, first) = StatusProbe::start();
    let mut commands = vec![first];
    let mut outcomes = outcomes.into_iter();
    loop {
        match probe.advance(outcomes.next().expect("an outcome per command")) {
            StatusAction::Run(next, args) => {
                commands.push(args);
                probe = next;
            }
            StatusAction::Finished(result) => return (commands, result),
        }
    }
}

#[test]
fn status_query_on_a_tracking_branch() {
    let (commands, result) = run_status(vec![
        Ok(s("main")),
        Ok(s("abc123")),
        Ok(s("git@example.com:r.git")),
        Ok(s(" M a.rs")),
        Ok(s("* main\n  dev")),
        Ok(s("1\t2")),
    ]);
    assert_eq!(commands.len(), 6);
    assert_eq!(commands[0], vec!["rev-parse", "--abbrev-ref", "HEAD"]);
    assert_eq!(commands[5], vec!["rev-list", "--left-right", "--count", "HEAD...@{upstream}"]);
    let info = result.unwrap();
    assert_eq!(info.current_branch, Some(s("main")));
    assert_eq!(info.current_commit, "abc123");
    assert_eq!(info.remote_url, "git@example.com:r.git");
    assert!(info.is_dirty);
    assert_eq!(info.branches, vec!["main", "dev"]);
    assert_eq!((info.ahead_count, info.behind_count), (Some(1), Some(2)));
}

#[test]
fn status_query_on_a_detached_head() {
    let (commands, result) = run_status(vec![
        Ok(s("HEAD")),
        Ok(s("abc123")),
        Ok(s("u")),
        Ok(s("")),
        Ok(s("  main")),
    ]);
    assert_eq!(commands.len(), 5);
    let info = result.unwrap();
    assert_eq!(info.current_branch, None);
    assert!(!info.is_dirty);
    assert_eq!((info.ahead_count, info.behind_count), (None, None));
}

#[test]
fn status_query_stops_at_a_failed_command() {
    let err = GitError { message: s("boom") };
    let (commands, result) = run_status(vec![Ok(s("main")), Err(err.clone())]);
    assert_eq!(commands.len(), 2);
    assert_eq!(result, Err(err));
}

#[test]
fn status_probe_starts_at_the_branch() {
    let (probe, _) = StatusProbe::start();
    assert_eq!(probe.step, StatusStep::CurrentBranch);
}

#[test]
fn hash_cut_checks() {
    use_hash_checks();
}

fn use_hash_checks() {
    assert!(nexsock::git::types::hash_cut_ok("abcdef1234"));
    assert!(nexsock::git::types::hash_cut_ok("abc"));
    assert!(!nexsock::git::types::hash_cut_ok("abcdefé"));
    assert!(nexsock::git::system_git::log_hashes_valid("abc\nA\nB\nC\nD\n"));
    assert!(!nexsock::git::system_git::log_hashes_valid("abcdefé\nA\nB\nC\nD\n"));
    assert!(nexsock::git::system_git::log_hashes_valid("abcdefé\nonly two lines"));
}

#[test]
fn outcome_from_raw_bytes() {
    let args = vec![s("status")];
    assert_eq!(
        nexsock::git::system_git::command_outcome_bytes(&args, true, b" ok \n", b""),
        Ok(s("ok"))
    );
    assert_eq!(
        nexsock::git::system_git::command_outcome_bytes(&args, false, b"", &[0x66, 0xff]),
        Err(GitError { message: s("Git command failed: git status\nStderr: f\u{fffd}\nStdout: ") })
    );
    assert_eq!(nexsock::text::lossy_text(b"h\xc3\xa9"), "hé");
}
