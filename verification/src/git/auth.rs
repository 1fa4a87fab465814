//! Git authentication methods.

use vstd::prelude::*;

verus! {

/// Git authentication configuration for repository operations.
#[derive(Debug, Clone, PartialEq, Eq)]
pub enum GitAuth {
    /// No authentication required (public repositories).
    NoAuth,
    /// SSH authentication through an SSH agent.
    SshAgent { username: String },
    /// SSH authentication with a private key file.
    SshKey { username: String, private_key_path: String, passphrase: Option<String> },
    /// HTTPS authentication with a personal access token.
    Token { username: String, token: String },
    /// HTTPS authentication with username and password.
    UserPass { username: String, password: String },
}

/// The storage tag of each authentication method.
pub open spec fn auth_type_tag(auth: GitAuth) -> Seq<char> {
    match auth {
        GitAuth::NoAuth => "none"@,
        GitAuth::SshAgent { .. } => "ssh_agent"@,
        GitAuth::SshKey { .. } => "ssh_key"@,
        GitAuth::Token { .. } => "token"@,
        GitAuth::UserPass { .. } => "user_pass"@,
    }
}

impl GitAuth {
    /// Returns true if this authentication method carries credentials that must be stored.
    pub fn requires_storage(&self) -> (r: bool)
        ensures
            r == (self is SshKey || self is Token || self is UserPass),
    {
        match self {
            GitAuth::SshKey { .. } | GitAuth::Token { .. } | GitAuth::UserPass { .. } => true,
            _ => false,
        }
    }

    /// Returns the authentication type as a string for database storage.
    pub fn auth_type(&self) -> (r: &'static str)
        ensures
            r@ == auth_type_tag(*self),
    {
        proof {
            reveal_strlit("none");
            reveal_strlit("ssh_agent");
            reveal_strlit("ssh_key");
            reveal_strlit("token");
            reveal_strlit("user_pass");
        }
        match self {
            GitAuth::NoAuth => "none",
            GitAuth::SshAgent { .. } => "ssh_agent",
            GitAuth::SshKey { .. } => "ssh_key",
            GitAuth::Token { .. } => "token",
            GitAuth::UserPass { .. } => "user_pass",
        }
    }

    /// Creates a `GitAuth::NoAuth` instance.
    pub fn none() -> (r: Self)
        ensures
            r == GitAuth::NoAuth,
    {
        GitAuth::NoAuth
    }

    /// Creates a `GitAuth::SshAgent` instance with the given username.
    pub fn ssh_agent(username: String) -> (r: Self)
        ensures
            r == (GitAuth::SshAgent { username }),
    {
        GitAuth::SshAgent { username }
    }

    /// Creates a `GitAuth::Token` instance.
    pub fn token(username: String, token: String) -> (r: Self)
        ensures
            r == (GitAuth::Token { username, token }),
    {
        GitAuth::Token { username, token }
    }
}

} // verus!
