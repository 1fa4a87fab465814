//! The rules of the system `git` backend: which commands it runs, which
//! environment it sets, and how it reads their output.
//!
//! Running the commands is left to the caller; every decision between them
//! is taken here.

use crate::git::auth::GitAuth;
use crate::git::types::{
    commit_of, opt_view, short_hash_cut_ok, strings_view, GitCommit, GitCommitView, GitRepoInfo,
    GitRepoInfoView,
};
use crate::text::{
    chars_of, contains, contains_seq, has_prefix, is_blank, is_ws, join_from, lines, lines_of, occurs_at,
    parse_usize, parse_usize_chars, split, split_by, starts_with, string_of, trim, trim_chars,
    views, words, words_of,
};
use vstd::prelude::*;

verus! {

broadcast use vstd::string::group_string_axioms;

/// An environment variable assignment.
pub type EnvVar = (String, String);

/// The characters of an environment variable assignment.
pub open spec fn env_view(e: EnvVar) -> (Seq<char>, Seq<char>) {
    (e.0@, e.1@)
}

/// The characters of a list of environment variable assignments.
pub open spec fn envs_view(v: Seq<EnvVar>) -> Seq<(Seq<char>, Seq<char>)> {
    v.map_values(|e: EnvVar| env_view(e))
}

/// Whether no variable name occurs twice.
pub open spec fn keys_distinct(v: Seq<(Seq<char>, Seq<char>)>) -> bool {
    forall|i: int, j: int| 0 <= i < j < v.len() ==> #[trigger] v[i].0 != #[trigger] v[j].0
}

/// Copies a string slice into a new string.
pub fn owned(s: &str) -> (r: String)
    ensures
        r@ == s@,
{
    s.to_owned()
}

/// System Git backend: runs the system `git` command with a fixed set of
/// environment variables.
#[derive(Debug, Clone)]
pub struct SystemGitBackend {
    env_vars: Vec<EnvVar>,
}

impl SystemGitBackend {
    /// The environment variables set for every Git command.
    pub closed spec fn env(&self) -> Seq<(Seq<char>, Seq<char>)> {
        envs_view(self.env_vars@)
    }

    /// Creates a backend that disables the global and system Git configuration files.
    pub fn new() -> (r: Self)
        ensures
            r.env() == seq![
                ("GIT_CONFIG_GLOBAL"@, "/dev/null"@),
                ("GIT_CONFIG_SYSTEM"@, "/dev/null"@),
            ],
    {
        let mut env_vars: Vec<EnvVar> = Vec::new();
        env_vars.push((owned("GIT_CONFIG_GLOBAL"), owned("/dev/null")));
        env_vars.push((owned("GIT_CONFIG_SYSTEM"), owned("/dev/null")));
        let r = SystemGitBackend { env_vars };
        assert(r.env() =~= seq![
            ("GIT_CONFIG_GLOBAL"@, "/dev/null"@),
            ("GIT_CONFIG_SYSTEM"@, "/dev/null"@),
        ]);
        r
    }

    /// Creates a backend that sets the given environment variables for every Git command.
    pub fn with_env_vars(env_vars: Vec<EnvVar>) -> (r: Self)
        requires
            keys_distinct(envs_view(env_vars@)),
        ensures
            r.env() == envs_view(env_vars@),
    {
        SystemGitBackend { env_vars }
    }

    /// The environment variables set for every Git command.
    pub fn env_vars(&self) -> (r: &Vec<EnvVar>)
        ensures
            envs_view(r@) == self.env(),
    {
        &self.env_vars
    }

    /// The environment variables that an authentication method adds to a Git command.
    pub fn configure_auth(&self, auth: &GitAuth) -> (r: Vec<EnvVar>)
        ensures
            envs_view(r@) == auth_env(*auth),
    {
        auth_env_vars(auth)
    }

    /// Whether `git status --porcelain` output shows uncommitted changes.
    pub fn is_repo_dirty(&self, status_output: &str) -> (r: bool)
        ensures
            r == (trim(status_output@).len() > 0),
    {
        let c = chars_of(status_output);
        !is_blank(c.as_slice())
    }

    /// Extracts branch names from `git branch` or `git branch -a` output.
    pub fn parse_branches(&self, branch_output: &str) -> (r: Vec<String>)
        ensures
            strings_view(r@) == branches_of(branch_output@),
    {
        parse_branch_list(branch_output)
    }

    /// Parses formatted `git log` output into commits.
    pub fn parse_commits(&self, log_output: &str) -> (r: Vec<GitCommit>)
        requires
            log_hashes_ok(log_output@),
        ensures
            commits_view(r@) == commits_of(log_output@),
    {
        parse_commit_list(log_output)
    }
}

impl Default for SystemGitBackend {
    /// The backend of [`SystemGitBackend::new`].
    fn default() -> (r: Self)
        ensures
            r.env() == seq![
                ("GIT_CONFIG_GLOBAL"@, "/dev/null"@),
                ("GIT_CONFIG_SYSTEM"@, "/dev/null"@),
            ],
    {
        SystemGitBackend::new()
    }
}

/// The environment that each authentication method sets for Git.
pub open spec fn auth_env(auth: GitAuth) -> Seq<(Seq<char>, Seq<char>)> {
    match auth {
        GitAuth::NoAuth => seq![],
        GitAuth::SshAgent { .. } => seq![("GIT_SSH_COMMAND"@, "ssh -o BatchMode=yes"@)],
        GitAuth::SshKey { private_key_path, .. } => seq![
            ("GIT_SSH_COMMAND"@, "ssh -i "@ + private_key_path@ + " -o BatchMode=yes"@),
        ],
        GitAuth::Token { username, token } => seq![
            ("GIT_ASKPASS"@, "echo"@),
            ("GIT_USERNAME"@, username@),
            ("GIT_PASSWORD"@, token@),
        ],
        GitAuth::UserPass { username, password } => seq![
            ("GIT_ASKPASS"@, "echo"@),
            ("GIT_USERNAME"@, username@),
            ("GIT_PASSWORD"@, password@),
        ],
    }
}

fn pair(k: &str, v: &str) -> (r: EnvVar)
    ensures
        env_view(r) == (k@, v@),
{
    (owned(k), owned(v))
}

fn auth_env_vars(auth: &GitAuth) -> (r: Vec<EnvVar>)
    ensures
        envs_view(r@) == auth_env(*auth),
{
    let mut r: Vec<EnvVar> = Vec::new();
    match auth {
        GitAuth::NoAuth => {},
        GitAuth::SshAgent { .. } => {
            r.push(pair("GIT_SSH_COMMAND", "ssh -o BatchMode=yes"));
        },
        GitAuth::SshKey { private_key_path, .. } => {
            let a = crate::text::concat_str("ssh -i ", private_key_path.as_str());
            let b = crate::text::concat_str(a.as_str(), " -o BatchMode=yes");
            r.push(pair("GIT_SSH_COMMAND", b.as_str()));
        },
        GitAuth::Token { username, token } => {
            r.push(pair("GIT_ASKPASS", "echo"));
            r.push(pair("GIT_USERNAME", username.as_str()));
            r.push(pair("GIT_PASSWORD", token.as_str()));
        },
        GitAuth::UserPass { username, password } => {
            r.push(pair("GIT_ASKPASS", "echo"));
            r.push(pair("GIT_USERNAME", username.as_str()));
            r.push(pair("GIT_PASSWORD", password.as_str()));
        },
    }
    assert(envs_view(r@) =~= auth_env(*auth));
    r
}

// ---------------------------------------------------------------------------
// Branch list
// ---------------------------------------------------------------------------

/// The branch name on one line of `git branch` output: the trimmed line
/// without a leading `"* "` or `"  "` marker.
pub open spec fn branch_name_of(line: Seq<char>) -> Seq<char> {
    let t = trim(line);
    if has_prefix(t, "* "@) {
        trim(t.skip(2))
    } else if has_prefix(t, "  "@) {
        trim(t.skip(2))
    } else {
        trim(t)
    }
}

/// Whether a branch name is listed: it is non-empty, is no `(...)` pseudo
/// entry and is no symbolic `->` reference.
pub open spec fn keeps_branch(b: Seq<char>) -> bool {
    b.len() > 0 && !has_prefix(b, "("@) && !contains_seq(b, "->"@)
}

/// The listed branch name of a line, if it lists one.
pub open spec fn branch_entry(line: Seq<char>) -> Option<Seq<char>> {
    let b = branch_name_of(line);
    if keeps_branch(b) {
        Some(b)
    } else {
        None
    }
}

/// The branch names listed in `git branch` output.
pub open spec fn branches_of(output: Seq<char>) -> Seq<Seq<char>> {
    lines(output).filter_map(|l: Seq<char>| branch_entry(l))
}

fn branch_name(line: &[char]) -> (r: Vec<char>)
    ensures
        r@ == branch_name_of(line@),
{
    let t = trim_chars(line);
    proof {
        reveal_strlit("* ");
        reveal_strlit("  ");
    }
    let star = chars_of("* ");
    let spaces = chars_of("  ");
    if starts_with(t.as_slice(), star.as_slice()) {
        let rest = crate::text::slice_to_vec(t.as_slice(), 2, t.len());
        assert(rest@ =~= t@.skip(2));
        trim_chars(rest.as_slice())
    } else if starts_with(t.as_slice(), spaces.as_slice()) {
        let rest = crate::text::slice_to_vec(t.as_slice(), 2, t.len());
        assert(rest@ =~= t@.skip(2));
        trim_chars(rest.as_slice())
    } else {
        trim_chars(t.as_slice())
    }
}

fn branch_entry_of(line: &[char]) -> (r: Option<Vec<char>>)
    ensures
        match r {
            Some(b) => branch_entry(line@) == Some(b@),
            None => branch_entry(line@) is None,
        },
{
    let b = branch_name(line);
    let paren = chars_of("(");
    let arrow = chars_of("->");
    if b.len() > 0 && !starts_with(b.as_slice(), paren.as_slice()) && !contains(
        b.as_slice(),
        arrow.as_slice(),
    ) {
        Some(b)
    } else {
        None
    }
}

/// Extracts branch names from `git branch` output.
pub fn parse_branch_list(branch_output: &str) -> (r: Vec<String>)
    ensures
        strings_view(r@) == branches_of(branch_output@),
{
    let c = chars_of(branch_output);
    let ls = lines_of(c.as_slice());
    let ghost lv = views(ls@);
    let ghost f = |l: Seq<char>| branch_entry(l);
    let mut r: Vec<String> = Vec::new();
    let mut i: usize = 0;
    while i < ls.len()
        invariant
            i <= ls@.len(),
            lv == views(ls@),
            f == (|l: Seq<char>| branch_entry(l)),
            strings_view(r@) == lv.take(i as int).filter_map(f),
        decreases ls@.len() - i,
    {
        let ghost pre = strings_view(r@);
        assert(lv.take(i + 1).drop_last() =~= lv.take(i as int));
        assert(lv.take(i + 1).last() == ls@[i as int]@);
        match branch_entry_of(ls[i].as_slice()) {
            Some(b) => {
                let s = string_of(b.as_slice());
                r.push(s);
                assert(strings_view(r@) =~= pre + seq![b@]);
            },
            None => {},
        }
        i = i + 1;
    }
    assert(lv.take(ls@.len() as int) =~= lv);
    assert(lv == lines(branch_output@));
    r
}

// ---------------------------------------------------------------------------
// Commit log
// ---------------------------------------------------------------------------

/// The separator between commit records in the log format that `log` requests.
pub open spec fn commit_separator() -> Seq<char> {
    "\n---COMMIT---\n"@
}

/// The commit that one log record describes: a non-blank record of at least
/// five lines (hash, author name, author email, timestamp, message lines).
pub open spec fn commit_entry(e: Seq<char>) -> Option<GitCommitView> {
    let ls = lines(e);
    if trim(e).len() == 0 || ls.len() < 5 {
        None
    } else {
        Some(commit_of(ls[0], ls[1], ls[2], ls[3], crate::text::join(ls.skip(4), "\n"@)))
    }
}

/// Whether every commit record's hash can be shortened.
pub open spec fn log_hashes_ok(output: Seq<char>) -> bool {
    forall|i: int|
        #![trigger split(output, commit_separator())[i]]
        0 <= i < split(output, commit_separator()).len() ==> {
            let e = split(output, commit_separator())[i];
            (trim(e).len() > 0 && lines(e).len() >= 5) ==> short_hash_cut_ok(lines(e)[0])
        }
}

/// The commits described by formatted `git log` output.
pub open spec fn commits_of(output: Seq<char>) -> Seq<GitCommitView> {
    split(output, commit_separator()).filter_map(|e: Seq<char>| commit_entry(e))
}

/// The abstract content of a list of commits.
pub open spec fn commits_view(v: Seq<GitCommit>) -> Seq<GitCommitView> {
    v.map_values(|c: GitCommit| c@)
}

fn commit_entry_of(e: &[char]) -> (r: Option<GitCommit>)
    requires
        (trim(e@).len() > 0 && lines(e@).len() >= 5) ==> short_hash_cut_ok(lines(e@)[0]),
    ensures
        match r {
            Some(c) => commit_entry(e@) == Some(c@),
            None => commit_entry(e@) is None,
        },
{
    if is_blank(e) {
        return None;
    }
    let ls = lines_of(e);
    if ls.len() < 5 {
        return None;
    }
    let nl = chars_of("\n");
    let msg = join_from(&ls, 4, nl.as_slice());
    assert(views(ls@).skip(4) =~= lines(e@).skip(4));
    let hash = string_of(ls[0].as_slice());
    let c = GitCommit::new(
        hash,
        string_of(ls[1].as_slice()),
        string_of(ls[2].as_slice()),
        string_of(ls[3].as_slice()),
        string_of(msg.as_slice()),
    );
    Some(c)
}

/// Whether every commit record of formatted `git log` output has a hash that
/// can be shortened (see [`log_hashes_ok`]).
pub fn log_hashes_valid(log_output: &str) -> (r: bool)
    ensures
        r == log_hashes_ok(log_output@),
{
    let c = chars_of(log_output);
    proof {
        reveal_strlit("\n---COMMIT---\n");
    }
    let sep = chars_of("\n---COMMIT---\n");
    let entries = split_by(c.as_slice(), sep.as_slice());
    let ghost ev = views(entries@);
    let mut i: usize = 0;
    while i < entries.len()
        invariant
            i <= entries@.len(),
            ev == views(entries@),
            ev == split(log_output@, commit_separator()),
            forall|j: int|
                #![trigger ev[j]]
                0 <= j < i ==> ((trim(ev[j]).len() > 0 && lines(ev[j]).len() >= 5)
                    ==> short_hash_cut_ok(lines(ev[j])[0])),
        decreases entries@.len() - i,
    {
        let e = entries[i].as_slice();
        assert(ev[i as int] == e@);
        if !is_blank(e) {
            let ls = lines_of(e);
            if ls.len() >= 5 {
                let h = string_of(ls[0].as_slice());
                if !crate::git::types::hash_cut_ok(h.as_str()) {
                    return false;
                }
            }
        }
        i = i + 1;
    }
    true
}

/// Parses formatted `git log` output into commits.
pub fn parse_commit_list(log_output: &str) -> (r: Vec<GitCommit>)
    requires
        log_hashes_ok(log_output@),
    ensures
        commits_view(r@) == commits_of(log_output@),
{
    let c = chars_of(log_output);
    proof {
        reveal_strlit("\n---COMMIT---\n");
    }
    let sep = chars_of("\n---COMMIT---\n");
    let entries = split_by(c.as_slice(), sep.as_slice());
    let ghost ev = views(entries@);
    let ghost f = |e: Seq<char>| commit_entry(e);
    let mut r: Vec<GitCommit> = Vec::new();
    let mut i: usize = 0;
    while i < entries.len()
        invariant
            i <= entries@.len(),
            ev == views(entries@),
            ev == split(log_output@, commit_separator()),
            log_hashes_ok(log_output@),
            f == (|e: Seq<char>| commit_entry(e)),
            commits_view(r@) == ev.take(i as int).filter_map(f),
        decreases entries@.len() - i,
    {
        let ghost pre = commits_view(r@);
        assert(ev.take(i + 1).drop_last() =~= ev.take(i as int));
        assert(ev.take(i + 1).last() == entries@[i as int]@);
        assert(ev[i as int] == entries@[i as int]@);
        match commit_entry_of(entries[i].as_slice()) {
            Some(cm) => {
                let ghost cv = cm@;
                r.push(cm);
                assert(commits_view(r@) =~= pre + seq![cv]);
            },
            None => {},
        }
        i = i + 1;
    }
    assert(ev.take(entries@.len() as int) =~= ev);
    r
}


// ---------------------------------------------------------------------------
// Commands and their outcome
// ---------------------------------------------------------------------------

/// A Git command that failed, with the message the backend reports.
#[derive(Debug, Clone, PartialEq, Eq)]
pub struct GitError {
    pub message: String,
}

/// The characters of a command's outcome: its trimmed output or its error message.
pub open spec fn outcome_view(o: Result<String, GitError>) -> Result<Seq<char>, Seq<char>> {
    match o {
        Ok(s) => Ok(s@),
        Err(e) => Err(e.message@),
    }
}

/// The arguments joined with single spaces.
pub open spec fn args_line(args: Seq<String>) -> Seq<char> {
    crate::text::join(strings_view(args), " "@)
}

/// The message reported for a failed Git command.
pub open spec fn failure_message(args: Seq<String>, stderr: Seq<char>, stdout: Seq<char>) -> Seq<
    char,
> {
    "Git command failed: git "@ + args_line(args) + "\nStderr: "@ + stderr + "\nStdout: "@ + stdout
}

fn strings_to_chars(v: &Vec<String>) -> (r: Vec<Vec<char>>)
    ensures
        views(r@) == strings_view(v@),
{
    let mut r: Vec<Vec<char>> = Vec::new();
    let mut i: usize = 0;
    while i < v.len()
        invariant
            i <= v@.len(),
            views(r@) == strings_view(v@).take(i as int),
        decreases v@.len() - i,
    {
        let ghost pre = views(r@);
        let c = chars_of(v[i].as_str());
        let ghost cv = c@;
        r.push(c);
        assert(views(r@) =~= pre.push(cv));
        assert(strings_view(v@).take(i + 1) =~= strings_view(v@).take(i as int).push(v@[i as int]@));
        i = i + 1;
    }
    assert(strings_view(v@).take(v@.len() as int) =~= strings_view(v@));
    r
}

/// The outcome of a finished Git command: its trimmed standard output when it
/// succeeded, otherwise an error naming the command and both of its outputs.
pub fn command_outcome(args: &Vec<String>, success: bool, stdout: &str, stderr: &str) -> (r:
    Result<String, GitError>)
    ensures
        success ==> outcome_view(r) == Ok::<Seq<char>, Seq<char>>(trim(stdout@)),
        !success ==> outcome_view(r) == Err::<Seq<char>, Seq<char>>(
            failure_message(args@, stderr@, stdout@),
        ),
{
    if success {
        let c = chars_of(stdout);
        let t = trim_chars(c.as_slice());
        Ok(string_of(t.as_slice()))
    } else {
        let parts = strings_to_chars(args);
        let sp = chars_of(" ");
        let line = join_from(&parts, 0, sp.as_slice());
        assert(views(parts@).skip(0) =~= views(parts@));
        let mut m = chars_of("Git command failed: git ");
        crate::text::push_all(&mut m, line.as_slice());
        let a = chars_of("\nStderr: ");
        crate::text::push_all(&mut m, a.as_slice());
        let e = chars_of(stderr);
        crate::text::push_all(&mut m, e.as_slice());
        let b = chars_of("\nStdout: ");
        crate::text::push_all(&mut m, b.as_slice());
        let o = chars_of(stdout);
        crate::text::push_all(&mut m, o.as_slice());
        Err(GitError { message: string_of(m.as_slice()) })
    }
}

/// The outcome of a finished Git command from its raw output bytes, read as
/// text with [`crate::text::lossy_text`]: [`command_outcome`] of those texts.
pub fn command_outcome_bytes(args: &Vec<String>, success: bool, stdout: &[u8], stderr: &[u8]) -> (r:
    Result<String, GitError>)
    ensures
        success ==> outcome_view(r) == Ok::<Seq<char>, Seq<char>>(
            trim(crate::text::lossy(stdout@)),
        ),
        !success ==> outcome_view(r) == Err::<Seq<char>, Seq<char>>(
            failure_message(args@, crate::text::lossy(stderr@), crate::text::lossy(stdout@)),
        ),
{
    let out = crate::text::lossy_text(stdout);
    let err = crate::text::lossy_text(stderr);
    command_outcome(args, success, out.as_str(), err.as_str())
}

/// The characters of a list of command arguments.
pub open spec fn args_view(v: Seq<String>) -> Seq<Seq<char>> {
    strings_view(v)
}

fn push_arg(v: &mut Vec<String>, a: &str)
    ensures
        strings_view(final(v)@) == strings_view(old(v)@).push(a@),
{
    let ghost pre = strings_view(v@);
    v.push(owned(a));
    assert(strings_view(v@) =~= pre.push(a@));
}

/// The arguments of `git clone`.
pub open spec fn clone_args_of(remote_url: Seq<char>, local_path: Seq<char>, branch: Option<
    Seq<char>,
>) -> Seq<Seq<char>> {
    match branch {
        Some(b) => seq!["clone"@, "--branch"@, b, remote_url, local_path],
        None => seq!["clone"@, remote_url, local_path],
    }
}

/// The arguments that clone a repository, optionally on a given branch.
pub fn clone_args(remote_url: &str, local_path: &str, branch: Option<&str>) -> (r: Vec<String>)
    ensures
        args_view(r@) == clone_args_of(
            remote_url@,
            local_path@,
            match branch {
                Some(b) => Some(b@),
                None => None,
            },
        ),
{
    let mut v: Vec<String> = Vec::new();
    push_arg(&mut v, "clone");
    match branch {
        Some(b) => {
            push_arg(&mut v, "--branch");
            push_arg(&mut v, b);
        },
        None => {},
    }
    push_arg(&mut v, remote_url);
    push_arg(&mut v, local_path);
    proof {
        match branch {
            Some(b) => {
                assert(args_view(v@) =~= seq!["clone"@, "--branch"@, b@, remote_url@, local_path@]);
            },
            None => {
                assert(args_view(v@) =~= seq!["clone"@, remote_url@, local_path@]);
            },
        }
    }
    v
}

/// The arguments that check out a branch, creating or resetting it with `-B` when asked.
pub fn checkout_branch_args(branch_name: &str, create_if_missing: bool) -> (r: Vec<String>)
    ensures
        args_view(r@) == (if create_if_missing {
            seq!["checkout"@, "-B"@, branch_name@]
        } else {
            seq!["checkout"@, branch_name@]
        }),
{
    let mut v: Vec<String> = Vec::new();
    push_arg(&mut v, "checkout");
    if create_if_missing {
        push_arg(&mut v, "-B");
    }
    push_arg(&mut v, branch_name);
    proof {
        if create_if_missing {
            assert(args_view(v@) =~= seq!["checkout"@, "-B"@, branch_name@]);
        } else {
            assert(args_view(v@) =~= seq!["checkout"@, branch_name@]);
        }
    }
    v
}

/// The arguments that check out a commit.
pub fn checkout_commit_args(commit_hash: &str) -> (r: Vec<String>)
    ensures
        args_view(r@) == seq!["checkout"@, commit_hash@],
{
    let mut v: Vec<String> = Vec::new();
    push_arg(&mut v, "checkout");
    push_arg(&mut v, commit_hash);
    assert(args_view(v@) =~= seq!["checkout"@, commit_hash@]);
    v
}

/// The arguments of `git pull`.
pub fn pull_args() -> (r: Vec<String>)
    ensures
        args_view(r@) == seq!["pull"@],
{
    let mut v: Vec<String> = Vec::new();
    push_arg(&mut v, "pull");
    assert(args_view(v@) =~= seq!["pull"@]);
    v
}

/// The arguments of `git fetch`.
pub fn fetch_args() -> (r: Vec<String>)
    ensures
        args_view(r@) == seq!["fetch"@],
{
    let mut v: Vec<String> = Vec::new();
    push_arg(&mut v, "fetch");
    assert(args_view(v@) =~= seq!["fetch"@]);
    v
}

/// The log format whose records [`parse_commit_list`] reads.
pub open spec fn log_format() -> Seq<char> {
    "--format=%H%n%an%n%ae%n%aI%n%s%n%b%n---COMMIT---"@
}

/// The arguments of `git log`.
pub open spec fn log_args_of(max_count: Option<usize>, branch: Option<Seq<char>>) -> Seq<Seq<char>> {
    let base = seq!["log"@, log_format()];
    let counted = match max_count {
        Some(n) => base + seq!["-n"@, crate::text::decimal(n as nat)],
        None => base,
    };
    match branch {
        Some(b) => counted.push(b),
        None => counted,
    }
}

/// The arguments that list commits, at most `max_count` and of `branch` when given.
pub fn log_args(max_count: Option<usize>, branch: Option<&str>) -> (r: Vec<String>)
    ensures
        args_view(r@) == log_args_of(
            max_count,
            match branch {
                Some(b) => Some(b@),
                None => None,
            },
        ),
{
    let mut v: Vec<String> = Vec::new();
    push_arg(&mut v, "log");
    push_arg(&mut v, "--format=%H%n%an%n%ae%n%aI%n%s%n%b%n---COMMIT---");
    let ghost base = strings_view(v@);
    match max_count {
        Some(n) => {
            push_arg(&mut v, "-n");
            let digits = crate::text::u64_to_chars(n as u64);
            let ds = string_of(digits.as_slice());
            let ghost pre = strings_view(v@);
            v.push(ds);
            assert(strings_view(v@) =~= pre.push(crate::text::decimal(n as nat)));
            assert(strings_view(v@) =~= base + seq!["-n"@, crate::text::decimal(n as nat)]);
        },
        None => {},
    }
    match branch {
        Some(b) => {
            push_arg(&mut v, b);
        },
        None => {},
    }
    proof {
        assert(base =~= seq!["log"@, log_format()]);
    }
    v
}

/// The arguments that list local branches, or all branches when `include_remote`.
pub fn list_branches_args(include_remote: bool) -> (r: Vec<String>)
    ensures
        args_view(r@) == (if include_remote {
            seq!["branch"@, "-a"@]
        } else {
            seq!["branch"@]
        }),
{
    let mut v: Vec<String> = Vec::new();
    push_arg(&mut v, "branch");
    if include_remote {
        push_arg(&mut v, "-a");
        assert(args_view(v@) =~= seq!["branch"@, "-a"@]);
    } else {
        assert(args_view(v@) =~= seq!["branch"@]);
    }
    v
}

// ---------------------------------------------------------------------------
// Repository status
// ---------------------------------------------------------------------------

/// The current branch that `git rev-parse --abbrev-ref HEAD` reports: none on
/// a detached HEAD or when the command fails.
pub open spec fn current_branch_from(o: Result<Seq<char>, Seq<char>>) -> Option<Seq<char>> {
    match o {
        Ok(b) => if b != "HEAD"@ {
            Some(b)
        } else {
            None
        },
        Err(_) => None,
    }
}

/// The ahead and behind counts in `git rev-list --left-right --count` output:
/// exactly two words, each read as a number or as 0 when it is none.
pub open spec fn upstream_counts_of(output: Seq<char>) -> (Option<usize>, Option<usize>) {
    let w = words(output);
    if w.len() == 2 {
        (
            Some(
                match parse_usize(w[0]) {
                    Some(n) => n,
                    None => 0,
                },
            ),
            Some(
                match parse_usize(w[1]) {
                    Some(n) => n,
                    None => 0,
                },
            ),
        )
    } else {
        (None, None)
    }
}

/// Reads the ahead and behind counts of `git rev-list --left-right --count` output.
pub fn upstream_counts(output: &str) -> (r: (Option<usize>, Option<usize>))
    ensures
        r == upstream_counts_of(output@),
{
    let c = chars_of(output);
    let w = words_of(c.as_slice());
    if w.len() == 2 {
        let a = match parse_usize_chars(w[0].as_slice()) {
            Some(n) => n,
            None => 0,
        };
        let b = match parse_usize_chars(w[1].as_slice()) {
            Some(n) => n,
            None => 0,
        };
        (Some(a), Some(b))
    } else {
        (None, None)
    }
}

/// Which command of a status query runs next.
#[derive(Debug, Clone, Copy, PartialEq, Eq)]
pub enum StatusStep {
    CurrentBranch,
    CurrentCommit,
    RemoteUrl,
    WorkingTree,
    BranchList,
    UpstreamCounts,
}

/// A repository status query in progress.
#[derive(Debug, Clone)]
pub struct StatusProbe {
    pub step: StatusStep,
    pub current_branch: Option<String>,
    pub current_commit: String,
    pub remote_url: String,
    pub is_dirty: bool,
    pub branches: Vec<String>,
}

/// What a status query asks for next.
#[derive(Debug)]
pub enum StatusAction {
    /// Run `git` with these arguments in the repository and report the outcome
    /// to the probe.
    Run(StatusProbe, Vec<String>),
    /// The query is over with this result.
    Finished(Result<GitRepoInfo, GitError>),
}

/// The abstract content of a [`StatusProbe`].
pub struct StatusProbeView {
    pub step: StatusStep,
    pub current_branch: Option<Seq<char>>,
    pub current_commit: Seq<char>,
    pub remote_url: Seq<char>,
    pub is_dirty: bool,
    pub branches: Seq<Seq<char>>,
}

impl View for StatusProbe {
    type V = StatusProbeView;

    open spec fn view(&self) -> StatusProbeView {
        StatusProbeView {
            step: self.step,
            current_branch: opt_view(self.current_branch),
            current_commit: self.current_commit@,
            remote_url: self.remote_url@,
            is_dirty: self.is_dirty,
            branches: strings_view(self.branches@),
        }
    }
}

/// The abstract content of a [`StatusAction`].
pub enum StatusActionView {
    Run(StatusProbeView, Seq<Seq<char>>),
    Finished(Result<GitRepoInfoView, Seq<char>>),
}

/// The abstract content of a [`StatusAction`].
pub open spec fn action_view(a: StatusAction) -> StatusActionView {
    match a {
        StatusAction::Run(p, args) => StatusActionView::Run(p@, strings_view(args@)),
        StatusAction::Finished(Ok(info)) => StatusActionView::Finished(Ok(info@)),
        StatusAction::Finished(Err(e)) => StatusActionView::Finished(Err(e.message@)),
    }
}

/// The repository information a probe has gathered, with the given counts.
pub open spec fn probe_info(p: StatusProbeView, counts: (Option<usize>, Option<usize>)) -> GitRepoInfoView {
    GitRepoInfoView {
        current_branch: p.current_branch,
        current_commit: p.current_commit,
        remote_url: p.remote_url,
        is_dirty: p.is_dirty,
        branches: p.branches,
        ahead_count: counts.0,
        behind_count: counts.1,
    }
}

/// The arguments that ask for the ahead and behind counts against the upstream branch.
pub open spec fn upstream_count_args() -> Seq<Seq<char>> {
    seq!["rev-list"@, "--left-right"@, "--count"@, "HEAD...@{upstream}"@]
}

/// One step of a status query: what follows the outcome of the step's
/// command. A failing command ends the query with its error, except the
/// branch query (a detached HEAD) and the upstream count query (no upstream),
/// whose failures are read as absent values.
pub open spec fn status_transition(p: StatusProbeView, o: Result<Seq<char>, Seq<char>>) -> StatusActionView {
    match p.step {
        StatusStep::CurrentBranch => StatusActionView::Run(
            StatusProbeView {
                step: StatusStep::CurrentCommit,
                current_branch: current_branch_from(o),
                ..p
            },
            seq!["rev-parse"@, "HEAD"@],
        ),
        StatusStep::CurrentCommit => match o {
            Ok(c) => StatusActionView::Run(
                StatusProbeView { step: StatusStep::RemoteUrl, current_commit: c, ..p },
                seq!["config"@, "--get"@, "remote.origin.url"@],
            ),
            Err(e) => StatusActionView::Finished(Err(e)),
        },
        StatusStep::RemoteUrl => match o {
            Ok(u) => StatusActionView::Run(
                StatusProbeView { step: StatusStep::WorkingTree, remote_url: u, ..p },
                seq!["status"@, "--porcelain"@],
            ),
            Err(e) => StatusActionView::Finished(Err(e)),
        },
        StatusStep::WorkingTree => match o {
            Ok(s) => StatusActionView::Run(
                StatusProbeView {
                    step: StatusStep::BranchList,
                    is_dirty: trim(s).len() > 0,
                    ..p
                },
                seq!["branch"@, "-a"@],
            ),
            Err(e) => StatusActionView::Finished(Err(e)),
        },
        StatusStep::BranchList => match o {
            Ok(b) => {
                let q = StatusProbeView {
                    step: StatusStep::UpstreamCounts,
                    branches: branches_of(b),
                    ..p
                };
                if p.current_branch is Some {
                    StatusActionView::Run(q, upstream_count_args())
                } else {
                    StatusActionView::Finished(Ok(probe_info(q, (None, None))))
                }
            },
            Err(e) => StatusActionView::Finished(Err(e)),
        },
        StatusStep::UpstreamCounts => {
            let counts = match o {
                Ok(c) => upstream_counts_of(c),
                Err(_) => (None, None),
            };
            StatusActionView::Finished(Ok(probe_info(p, counts)))
        },
    }
}

impl StatusProbe {
    /// Starts a status query; the first command asks for the current branch.
    pub fn start() -> (r: (StatusProbe, Vec<String>))
        ensures
            r.0@.step == StatusStep::CurrentBranch,
            r.0@.current_branch is None,
            r.0@.branches.len() == 0,
            args_view(r.1@) == seq!["rev-parse"@, "--abbrev-ref"@, "HEAD"@],
    {
        let mut v: Vec<String> = Vec::new();
        push_arg(&mut v, "rev-parse");
        push_arg(&mut v, "--abbrev-ref");
        push_arg(&mut v, "HEAD");
        assert(args_view(v@) =~= seq!["rev-parse"@, "--abbrev-ref"@, "HEAD"@]);
        let p = StatusProbe {
            step: StatusStep::CurrentBranch,
            current_branch: None,
            current_commit: String::new(),
            remote_url: String::new(),
            is_dirty: false,
            branches: Vec::new(),
        };
        assert(strings_view(p.branches@) =~= Seq::<Seq<char>>::empty());
        (p, v)
    }

    fn finish(self, counts: (Option<usize>, Option<usize>)) -> (r: GitRepoInfo)
        ensures
            r@ == probe_info(self@, counts),
    {
        GitRepoInfo {
            current_branch: self.current_branch,
            current_commit: self.current_commit,
            remote_url: self.remote_url,
            is_dirty: self.is_dirty,
            branches: self.branches,
            ahead_count: counts.0,
            behind_count: counts.1,
        }
    }

    /// Takes the outcome of the step's command and tells what to do next.
    pub fn advance(self, outcome: Result<String, GitError>) -> (r: StatusAction)
        ensures
            action_view(r) == status_transition(self@, outcome_view(outcome)),
    {
        let mut p = self;
        match p.step {
            StatusStep::CurrentBranch => {
                let branch = match outcome {
                    Ok(b) => {
                        proof {
                            reveal_strlit("HEAD");
                        }
                        if crate::text::str_eq(b.as_str(), "HEAD") {
                            None
                        } else {
                            Some(b)
                        }
                    },
                    Err(_) => None,
                };
                p.step = StatusStep::CurrentCommit;
                p.current_branch = branch;
                let mut v: Vec<String> = Vec::new();
                push_arg(&mut v, "rev-parse");
                push_arg(&mut v, "HEAD");
                assert(args_view(v@) =~= seq!["rev-parse"@, "HEAD"@]);
                StatusAction::Run(p, v)
            },
            StatusStep::CurrentCommit => match outcome {
                Ok(c) => {
                    p.step = StatusStep::RemoteUrl;
                    p.current_commit = c;
                    let mut v: Vec<String> = Vec::new();
                    push_arg(&mut v, "config");
                    push_arg(&mut v, "--get");
                    push_arg(&mut v, "remote.origin.url");
                    assert(args_view(v@) =~= seq!["config"@, "--get"@, "remote.origin.url"@]);
                    StatusAction::Run(p, v)
                },
                Err(e) => StatusAction::Finished(Err(e)),
            },
            StatusStep::RemoteUrl => match outcome {
                Ok(u) => {
                    p.step = StatusStep::WorkingTree;
                    p.remote_url = u;
                    let mut v: Vec<String> = Vec::new();
                    push_arg(&mut v, "status");
                    push_arg(&mut v, "--porcelain");
                    assert(args_view(v@) =~= seq!["status"@, "--porcelain"@]);
                    StatusAction::Run(p, v)
                },
                Err(e) => StatusAction::Finished(Err(e)),
            },
            StatusStep::WorkingTree => match outcome {
                Ok(s) => {
                    let c = chars_of(s.as_str());
                    p.step = StatusStep::BranchList;
                    p.is_dirty = !is_blank(c.as_slice());
                    let mut v: Vec<String> = Vec::new();
                    push_arg(&mut v, "branch");
                    push_arg(&mut v, "-a");
                    assert(args_view(v@) =~= seq!["branch"@, "-a"@]);
                    StatusAction::Run(p, v)
                },
                Err(e) => StatusAction::Finished(Err(e)),
            },
            StatusStep::BranchList => match outcome {
                Ok(b) => {
                    p.step = StatusStep::UpstreamCounts;
                    p.branches = parse_branch_list(b.as_str());
                    if p.current_branch.is_some() {
                        let mut v: Vec<String> = Vec::new();
                        push_arg(&mut v, "rev-list");
                        push_arg(&mut v, "--left-right");
                        push_arg(&mut v, "--count");
                        push_arg(&mut v, "HEAD...@{upstream}");
                        assert(args_view(v@) =~= upstream_count_args());
                        StatusAction::Run(p, v)
                    } else {
                        StatusAction::Finished(Ok(p.finish((None, None))))
                    }
                },
                Err(e) => StatusAction::Finished(Err(e)),
            },
            StatusStep::UpstreamCounts => {
                let counts = match outcome {
                    Ok(c) => upstream_counts(c.as_str()),
                    Err(_) => (None, None),
                };
                StatusAction::Finished(Ok(p.finish(counts)))
            },
        }
    }
}

/// The position of a step in a status query.
pub open spec fn step_rank(s: StatusStep) -> nat {
    match s {
        StatusStep::CurrentBranch => 0,
        StatusStep::CurrentCommit => 1,
        StatusStep::RemoteUrl => 2,
        StatusStep::WorkingTree => 3,
        StatusStep::BranchList => 4,
        StatusStep::UpstreamCounts => 5,
    }
}

/// A status query moves one step forward with each command and is over
/// after the upstream counts, so it runs at most six Git commands.
pub proof fn law_status_query_progresses(p: StatusProbeView, o: Result<Seq<char>, Seq<char>>)
    ensures
        status_transition(p, o) matches StatusActionView::Run(q, _) ==> step_rank(q.step)
            == step_rank(p.step) + 1,
        p.step == StatusStep::UpstreamCounts ==> status_transition(p, o) is Finished,
{
}

/// A failed upstream count query means no upstream is configured: the query
/// finishes with both counts absent, and the repository is reported as not
/// tracking a remote. Counts are present only when the query succeeded and
/// printed exactly two words, and a count that reads as a number is that
/// number. Every other field is what the earlier steps found.
pub proof fn law_counts_only_from_the_upstream_query(
    p: StatusProbeView,
    o: Result<Seq<char>, Seq<char>>,
)
    requires
        p.step == StatusStep::UpstreamCounts,
    ensures
        status_transition(p, o) matches StatusActionView::Finished(Ok(info)) && info.current_branch
            == p.current_branch && info.current_commit == p.current_commit && info.remote_url
            == p.remote_url && info.is_dirty == p.is_dirty && info.branches == p.branches && (
        o is Err ==> info.ahead_count is None && info.behind_count is None) && (o matches Ok(out)
            ==> ((info.ahead_count is Some <==> words(out).len() == 2) && (info.behind_count is Some
            <==> words(out).len() == 2) && (words(out).len() == 2 ==> (parse_usize(words(out)[0])
            matches Some(n) ==> info.ahead_count == Some(n)) && (parse_usize(words(out)[1]) matches Some(
            n,
        ) ==> info.behind_count == Some(n))))),
{
}

/// On a detached HEAD no upstream is asked for: once the branches are
/// listed, the query finishes with both counts absent.
pub proof fn law_detached_head_has_no_counts(p: StatusProbeView, o: Result<Seq<char>, Seq<char>>)
    requires
        p.step == StatusStep::BranchList,
        p.current_branch is None,
        o is Ok,
    ensures
        status_transition(p, o) matches StatusActionView::Finished(Ok(info))
            && info.ahead_count is None && info.behind_count is None,
{
}

proof fn lemma_subrange_of_prefix(a: Seq<char>, b: Seq<char>, i: int, n: int)
    requires
        0 <= i,
        0 <= n,
        i + n <= a.len(),
    ensures
        (a + b).subrange(i, i + n) == a.subrange(i, i + n),
{
    assert((a + b).subrange(i, i + n) =~= a.subrange(i, i + n));
}

/// Every piece of a join occurs in the joined text.
proof fn lemma_join_contains(parts: Seq<Seq<char>>, sep: Seq<char>, k: int)
    requires
        0 <= k < parts.len(),
    ensures
        contains_seq(crate::text::join(parts, sep), parts[k]),
    decreases parts.len(),
{
    let j = crate::text::join(parts, sep);
    if parts.len() == 1 {
        assert(j.subrange(0, parts[0].len() as int) =~= parts[0]);
        assert(occurs_at(j, parts[k], 0));
    } else {
        let front = crate::text::join(parts.drop_last(), sep);
        assert(j == front + sep + parts.last());
        if k == parts.len() - 1 {
            let i: int = (front.len() + sep.len()) as int;
            assert(j.subrange(i, i + parts[k].len()) =~= parts[k]);
            assert(occurs_at(j, parts[k], i));
        } else {
            lemma_join_contains(parts.drop_last(), sep, k);
            assert(parts.drop_last()[k] == parts[k]);
            let i = choose|i: int| occurs_at(front, parts[k], i);
            lemma_subrange_of_prefix(front, sep + parts.last(), i, parts[k].len() as int);
            assert(front + sep + parts.last() =~= front + (sep + parts.last()));
            assert(occurs_at(j, parts[k], i));
        }
    }
}

/// A log record makes a commit exactly when it is not blank and has at least
/// five lines; the commit's hash, author, e-mail and time are its first four
/// lines, its full message begins with the fifth, and every line of the
/// record from the fifth on (subject and body) occurs in the full message.
pub proof fn law_commit_keeps_the_whole_message(e: Seq<char>)
    ensures
        commit_entry(e) is Some <==> (trim(e).len() > 0 && lines(e).len() >= 5),
        commit_entry(e) matches Some(c) ==> c.hash == lines(e)[0] && c.author_name == lines(e)[1]
            && c.author_email == lines(e)[2] && c.timestamp == lines(e)[3] && c.full_message
            == crate::text::join(lines(e).skip(4), "\n"@) && has_prefix(
            c.full_message,
            lines(e)[4],
        ) && forall|k: int|
            4 <= k < lines(e).len() ==> #[trigger] contains_seq(c.full_message, lines(e)[k]),
{
    if let Some(c) = commit_entry(e) {
        let ls = lines(e);
        let parts = ls.skip(4);
        assert forall|k: int| 4 <= k < ls.len() implies #[trigger] contains_seq(c.full_message, ls[k]) by {
            assert(parts[k - 4] == ls[k]);
            lemma_join_contains(parts, "\n"@, k - 4);
        }
        lemma_join_contains(parts, "\n"@, 0);
        lemma_join_starts_with_first(parts, "\n"@);
    }
}

proof fn lemma_join_starts_with_first(parts: Seq<Seq<char>>, sep: Seq<char>)
    requires
        parts.len() > 0,
    ensures
        has_prefix(crate::text::join(parts, sep), parts[0]),
    decreases parts.len(),
{
    let j = crate::text::join(parts, sep);
    if parts.len() == 1 {
        assert(j.take(parts[0].len() as int) =~= parts[0]);
    } else {
        lemma_join_starts_with_first(parts.drop_last(), sep);
        let front = crate::text::join(parts.drop_last(), sep);
        assert(j == front + sep + parts.last());
        assert(parts.drop_last()[0] == parts[0]);
        assert(j.take(parts[0].len() as int) =~= front.take(parts[0].len() as int));
    }
}

/// The name a `git branch` line lists is the line's text without surrounding
/// whitespace and without the `* ` marker of the current branch. A line lists
/// that name exactly when it is non-empty, does not start with `(` (a
/// detached-HEAD entry) and holds no `->` (a symbolic reference); every other
/// name, such as one with a plain `-` in it, is kept as it is.
pub proof fn law_branch_lines_keep_their_names(line: Seq<char>)
    ensures
        ({
            let t = trim(line);
            let name = if has_prefix(t, "* "@) {
                trim(t.skip(2))
            } else {
                t
            };
            branch_entry(line) == if name.len() > 0 && !has_prefix(name, "("@) && !contains_seq(
                name,
                "->"@,
            ) {
                Some(name)
            } else {
                None::<Seq<char>>
            }
        }),
{
    reveal_strlit("* ");
    reveal_strlit("  ");
    let t = trim(line);
    crate::text::lemma_trim_edges(line);
    if !has_prefix(t, "* "@) {
        if t.len() >= 2 {
            assert(t.take(2)[0] == t[0]);
            assert(is_ws(' '));
            assert(!has_prefix(t, "  "@));
        }
        assert(branch_name_of(line) == t);
    }
}

} // verus!
