use vstd::prelude::*;

verus! {

/// Per-commit change statistics against the first parent; all zero for a
/// root commit.
#[derive(Debug, Clone, Copy, PartialEq, Eq, Structural)]
pub struct CommitStats {
    pub files_changed: usize,
    pub insertions: usize,
    pub deletions: usize,
}

impl CommitStats {
    /// The statistics reported for a root commit, or when a commit's diff
    /// could not be computed (degraded rather than failing the request).
    pub fn zero() -> (s: CommitStats)
        ensures
            s == (CommitStats { files_changed: 0, insertions: 0, deletions: 0 }),
    {
        CommitStats { files_changed: 0, insertions: 0, deletions: 0 }
    }
}

/// One changed path in the working tree or index, with its classified kind.
#[derive(Debug, Clone)]
pub struct FileStatus {
    pub path: String,
    pub status: String,
}

/// Snapshot of the open repository: current branch, cleanliness, and the
/// classified list of changed files.
#[derive(Debug, Clone)]
pub struct RepoStatus {
    pub current_branch: String,
    pub clean: bool,
    pub changes: Vec<FileStatus>,
}

/// One branch with its divergence from its upstream, if it has one.
#[derive(Debug, Clone)]
pub struct BranchInfo {
    pub name: String,
    pub is_head: bool,
    pub upstream: Option<String>,
    pub ahead_count: u32,
    pub behind_count: u32,
}

/// A fully assembled history node: commit metadata plus the lane, color,
/// kind, statistics and ref labels the renderer needs.
#[derive(Debug, Clone)]
pub struct ExtendedCommitInfo {
    pub id: String,
    pub message: String,
    pub author: String,
    pub author_email: String,
    pub committer: String,
    pub committer_email: String,
    pub branch: String,
    pub timestamp: String,
    pub parents: Vec<String>,
    pub color: String,
    pub position: i32,
    pub commit_type: String,
    pub stats: CommitStats,
    pub refs: Vec<String>,
}

/// Plain metadata of one commit as read from the store.
#[derive(Debug, Clone)]
pub struct CommitDetail {
    pub id: String,
    pub message: String,
    pub author: String,
    pub author_email: String,
    pub committer: String,
    pub committer_email: String,
    pub time_secs: i64,
    pub parents: Vec<String>,
}

/// One commit as read from the store, before normalization: text that the
/// store could not produce (unreadable or non-textual) stays absent.
#[derive(Debug, Clone)]
pub struct CommitRaw {
    pub id: String,
    pub message: Option<String>,
    pub author: Option<String>,
    pub author_email: Option<String>,
    pub committer: Option<String>,
    pub committer_email: Option<String>,
    pub time_secs: i64,
    pub parents: Vec<String>,
}

/// One branch as enumerated from the store, before interpretation: absent
/// fields stay absent rather than defaulted, so the verified logic decides.
#[derive(Debug, Clone)]
pub struct BranchRaw {
    pub name: Option<String>,
    pub is_head: bool,
    pub tip: Option<String>,
    pub upstream_name: Option<String>,
    pub upstream_tip: Option<String>,
}

/// One reference as enumerated from the store: its direct target, if any
/// (symbolic references have none), and its display name.
#[derive(Debug, Clone)]
pub struct RefItem {
    pub target: Option<String>,
    pub name: Option<String>,
}

/// The per-path facts the store reports about one status entry.
#[derive(Debug, Clone, Copy, PartialEq, Eq, Structural)]
pub struct StatusFlags {
    pub index_new: bool,
    pub index_modified: bool,
    pub index_deleted: bool,
    pub index_renamed: bool,
    pub wt_modified: bool,
    pub wt_deleted: bool,
    pub ignored: bool,
}

/// One entry of the working-tree/index status list, before classification.
#[derive(Debug, Clone)]
pub struct StatusItem {
    pub path: Option<String>,
    pub flags: StatusFlags,
}

} // verus!
