//! Git repository state and commit metadata.

use crate::text::{chars_of, lines, lines_of, string_of};
use vstd::prelude::*;
use vstd::string::StringSliceAdditionalSpecFns;
use vstd::utf8::*;

verus! {

broadcast use vstd::string::group_string_axioms;

/// The characters of an optional string.
pub open spec fn opt_view(o: Option<String>) -> Option<Seq<char>> {
    match o {
        Some(s) => Some(s@),
        None => None,
    }
}

/// The character sequences of a sequence of strings.
pub open spec fn strings_view(v: Seq<String>) -> Seq<Seq<char>> {
    v.map_values(|s: String| s@)
}

/// Git repository information and state.
#[derive(Debug, Clone, PartialEq, Eq)]
pub struct GitRepoInfo {
    /// Current branch name (if on a branch)
    pub current_branch: Option<String>,
    /// Current commit hash (full SHA)
    pub current_commit: String,
    /// Remote URL of the repository
    pub remote_url: String,
    /// Whether the working directory has uncommitted changes
    pub is_dirty: bool,
    /// List of available branches
    pub branches: Vec<String>,
    /// Number of commits ahead of remote (if applicable)
    pub ahead_count: Option<usize>,
    /// Number of commits behind remote (if applicable)
    pub behind_count: Option<usize>,
}

/// The abstract content of a [`GitRepoInfo`].
pub struct GitRepoInfoView {
    pub current_branch: Option<Seq<char>>,
    pub current_commit: Seq<char>,
    pub remote_url: Seq<char>,
    pub is_dirty: bool,
    pub branches: Seq<Seq<char>>,
    pub ahead_count: Option<usize>,
    pub behind_count: Option<usize>,
}

impl View for GitRepoInfo {
    type V = GitRepoInfoView;

    open spec fn view(&self) -> GitRepoInfoView {
        GitRepoInfoView {
            current_branch: opt_view(self.current_branch),
            current_commit: self.current_commit@,
            remote_url: self.remote_url@,
            is_dirty: self.is_dirty,
            branches: strings_view(self.branches@),
            ahead_count: self.ahead_count,
            behind_count: self.behind_count,
        }
    }
}

impl GitRepoInfo {
    /// Constructs a `GitRepoInfo` with no branches listed and no ahead/behind counts.
    pub fn new(
        current_branch: Option<String>,
        current_commit: String,
        remote_url: String,
        is_dirty: bool,
    ) -> (r: Self)
        ensures
            r.current_branch == current_branch,
            r.current_commit == current_commit,
            r.remote_url == remote_url,
            r.is_dirty == is_dirty,
            r.branches@.len() == 0,
            r.ahead_count is None,
            r.behind_count is None,
    {
        GitRepoInfo {
            current_branch,
            current_commit,
            remote_url,
            is_dirty,
            branches: Vec::new(),
            ahead_count: None,
            behind_count: None,
        }
    }

    /// Whether the repository tracks a remote branch: either count is present.
    pub fn has_remote_tracking(&self) -> (r: bool)
        ensures
            r == (self.ahead_count is Some || self.behind_count is Some),
    {
        self.ahead_count.is_some() || self.behind_count.is_some()
    }

    /// Whether the repository has commits ahead of its remote tracking branch.
    pub fn is_ahead(&self) -> (r: bool)
        ensures
            r == (self.ahead_count matches Some(n) && n > 0),
    {
        match self.ahead_count {
            Some(n) => n > 0,
            None => false,
        }
    }

    /// Whether the repository has commits behind its remote tracking branch.
    pub fn is_behind(&self) -> (r: bool)
        ensures
            r == (self.behind_count matches Some(n) && n > 0),
    {
        match self.behind_count {
            Some(n) => n > 0,
            None => false,
        }
    }
}

/// Information about a Git commit.
#[derive(Debug, Clone, PartialEq, Eq)]
pub struct GitCommit {
    /// Full commit hash (SHA)
    pub hash: String,
    /// Abbreviated commit hash
    pub short_hash: String,
    /// Commit author name
    pub author_name: String,
    /// Commit author email
    pub author_email: String,
    /// Commit timestamp (RFC3339 format)
    pub timestamp: String,
    /// Commit message (first line)
    pub message: String,
    /// Full commit message
    pub full_message: String,
}

/// The abstract content of a [`GitCommit`].
pub struct GitCommitView {
    pub hash: Seq<char>,
    pub short_hash: Seq<char>,
    pub author_name: Seq<char>,
    pub author_email: Seq<char>,
    pub timestamp: Seq<char>,
    pub message: Seq<char>,
    pub full_message: Seq<char>,
}

impl View for GitCommit {
    type V = GitCommitView;

    open spec fn view(&self) -> GitCommitView {
        GitCommitView {
            hash: self.hash@,
            short_hash: self.short_hash@,
            author_name: self.author_name@,
            author_email: self.author_email@,
            timestamp: self.timestamp@,
            message: self.message@,
            full_message: self.full_message@,
        }
    }
}

/// Whether a hash can be cut after its first 7 bytes: it is shorter than 7
/// bytes in UTF-8, or byte 7 starts a character.
pub open spec fn short_hash_cut_ok(h: Seq<char>) -> bool {
    encode_utf8(h).len() < 7 || is_char_boundary(encode_utf8(h), 7)
}

/// The first 7 bytes of the hash, or the whole hash when it is shorter.
pub open spec fn short_hash_of(h: Seq<char>) -> Seq<char> {
    if encode_utf8(h).len() >= 7 {
        decode_utf8(encode_utf8(h).subrange(0, 7))
    } else {
        h
    }
}

/// The first line of a message, or nothing when the message has no lines.
pub open spec fn first_line(m: Seq<char>) -> Seq<char> {
    if lines(m).len() > 0 {
        lines(m)[0]
    } else {
        Seq::empty()
    }
}

/// The commit that [`GitCommit::new`] builds from its arguments.
pub open spec fn commit_of(
    hash: Seq<char>,
    author_name: Seq<char>,
    author_email: Seq<char>,
    timestamp: Seq<char>,
    message: Seq<char>,
) -> GitCommitView {
    GitCommitView {
        hash,
        short_hash: short_hash_of(hash),
        author_name,
        author_email,
        timestamp,
        message: first_line(message),
        full_message: message,
    }
}

/// Whether a hash can be cut after its first 7 bytes (see [`short_hash_cut_ok`]).
pub fn hash_cut_ok(hash: &str) -> (r: bool)
    ensures
        r == short_hash_cut_ok(hash@),
{
    hash.as_bytes().len() < 7 || hash.is_char_boundary(7)
}

/// The first 7 bytes of a hash, or the whole hash when it is shorter.
pub fn short_hash(hash: &str) -> (r: String)
    requires
        short_hash_cut_ok(hash@),
    ensures
        r@ == short_hash_of(hash@),
{
    let byte_len = hash.as_bytes().len();
    if byte_len >= 7 {
        let (head, _tail) = hash.split_at(7);
        let r = head.to_owned();
        proof {
            assert(encode_utf8(head@) == head.spec_bytes());
            assert(encode_utf8(head@) =~= encode_utf8(hash@).subrange(0, 7));
            encode_utf8_decode_utf8(r@);
            assert(r@ == head@);
        }
        r
    } else {
        let r = hash.to_owned();
        assert(encode_utf8(hash@).len() < 7);
        r
    }
}

/// The first line of a message (`message.lines().next().unwrap_or("")`).
pub fn first_line_of(message: &str) -> (r: String)
    ensures
        r@ == first_line(message@),
{
    let chars = chars_of(message);
    let ls = lines_of(chars.as_slice());
    if ls.len() > 0 {
        string_of(ls[0].as_slice())
    } else {
        String::new()
    }
}

impl GitCommit {
    /// Builds a commit; the short hash is the first 7 bytes of the hash and the
    /// message is the first line of the full message.
    pub fn new(
        hash: String,
        author_name: String,
        author_email: String,
        timestamp: String,
        message: String,
    ) -> (r: Self)
        requires
            short_hash_cut_ok(hash@),
        ensures
            r@ == commit_of(hash@, author_name@, author_email@, timestamp@, message@),
    {
        let short_hash = short_hash(hash.as_str());
        let first = first_line_of(message.as_str());
        GitCommit {
            hash,
            short_hash,
            author_name,
            author_email,
            timestamp,
            message: first,
            full_message: message,
        }
    }
}

} // verus!
