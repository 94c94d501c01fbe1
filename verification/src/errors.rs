use vstd::prelude::*;
use vstd::string::StringExecFns;

verus! {

/// The error taxonomy of the core. Handle-level errors abort a request;
/// per-item failures during bulk work (one commit's diff, one branch's
/// divergence) are instead degraded to zero-valued defaults, so `DiffError`
/// and `RemoteError` name degraded data rather than surfaced failures.
#[derive(Debug, Clone)]
pub enum GitError {
    /// An operation needed an open repository and none is open.
    NoRepositoryOpen,
    /// The path given to open held no repository.
    RepoNotFound,
    /// The path given to open could not be opened, with the store's message.
    InvalidPath(String),
    /// The history walk from HEAD failed, with the store's message.
    TraversalError(String),
    /// A commit's diff statistics could not be computed.
    DiffError(String),
    /// Branch enumeration failed, with the store's message.
    BranchError(String),
    /// An upstream could not be resolved.
    RemoteError(String),
    /// Any other failure of the underlying store.
    Git(String),
}

/// The human-readable rendering of an error, used only at the outermost
/// boundary; the enum itself is what callers should match on.
pub open spec fn error_text_spec(e: GitError) -> Seq<char> {
    match e {
        GitError::NoRepositoryOpen => "No repository opened"@,
        GitError::RepoNotFound => "Repository not found"@,
        GitError::InvalidPath(m) => "Invalid path: "@ + m@,
        GitError::TraversalError(m) => "History traversal failed: "@ + m@,
        GitError::DiffError(m) => "Diff computation failed: "@ + m@,
        GitError::BranchError(m) => "Branch operation failed: "@ + m@,
        GitError::RemoteError(m) => "Remote operation failed: "@ + m@,
        GitError::Git(m) => "Git error: "@ + m@,
    }
}

impl GitError {
    /// Flattens the error to the text surfaced to the caller.
    pub fn describe(&self) -> (s: String)
        ensures
            s@ == error_text_spec(*self),
    {
        match self {
            GitError::NoRepositoryOpen => "No repository opened".to_owned(),
            GitError::RepoNotFound => "Repository not found".to_owned(),
            GitError::InvalidPath(m) => "Invalid path: ".to_owned().concat(m.as_str()),
            GitError::TraversalError(m) => "History traversal failed: ".to_owned().concat(
                m.as_str(),
            ),
            GitError::DiffError(m) => "Diff computation failed: ".to_owned().concat(m.as_str()),
            GitError::BranchError(m) => "Branch operation failed: ".to_owned().concat(m.as_str()),
            GitError::RemoteError(m) => "Remote operation failed: ".to_owned().concat(m.as_str()),
            GitError::Git(m) => "Git error: ".to_owned().concat(m.as_str()),
        }
    }
}

} // verus!
