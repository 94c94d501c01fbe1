use vstd::prelude::*;
use crate::errors::GitError;
use crate::gitio::ahead_behind;
use crate::gitio::local_branches_raw;
use crate::gitio::first_parent_diff;
use crate::gitio::head_branch_name;
use crate::gitio::now_unix_seconds;
use crate::gitio::open_repo;
use crate::gitio::commit_to_raw;
use crate::gitio::find_commit_by_id;
use crate::gitio::ref_items_raw;
use crate::gitio::status_items_raw;
use crate::gitio::walk_head_ids;
use crate::history::HISTORY_WINDOW;
use crate::history::build_history;
use crate::history::lanes_law;
use crate::history::node_self_consistent;
use crate::ingest::collect_branch_raws;
use crate::ingest::collect_ref_items;
use crate::ingest::make_branch_info;
use crate::ingest::normalize_commit;
use crate::records::BranchInfo;
use crate::records::BranchRaw;
use crate::records::CommitDetail;
use crate::records::CommitStats;
use crate::records::ExtendedCommitInfo;
use crate::records::RepoStatus;
use crate::status::build_repo_status;

verus! {

/// Computes the working-tree snapshot of a repository: the current branch's
/// short name (or the detached sentinel), whether the tree is clean, and
/// the classified list of changed paths.
pub fn get_repo_status(repo: &git2::Repository) -> (r: Result<RepoStatus, GitError>)
    ensures
        r matches Ok(st) ==> (st.clean <==> st.changes@.len() == 0),
        r matches Err(e) ==> e is Git,
{
    let branch = head_branch_name(repo);
    let items = match status_items_raw(repo) {
        Ok(v) => v,
        Err(m) => {
            return Err(GitError::Git(m));
        },
    };
    Ok(build_repo_status(branch, &items))
}

/// The one open repository of the application: at most one at a time,
/// replaced on re-open, queried by every request.
pub struct RepositorySession {
    repo: Option<git2::Repository>,
}

impl RepositorySession {
    /// Whether a repository is currently open.
    pub closed spec fn is_open(&self) -> bool {
        self.repo is Some
    }

    /// A fresh session with nothing open: every query fails until a
    /// repository is opened.
    pub fn new() -> (s: RepositorySession)
        ensures
            !s.is_open(),
    {
        RepositorySession { repo: None }
    }

    /// Opens the repository at `path` and reports its status. On success
    /// the new repository replaces whatever was open before; on failure the
    /// session keeps its previous state.
    pub fn open_repository(&mut self, path: &String) -> (r: Result<RepoStatus, GitError>)
        ensures
            r is Ok ==> final(self).is_open(),
            r is Err ==> *final(self) == *old(self),
            r matches Ok(st) ==> (st.clean <==> st.changes@.len() == 0),
            r matches Err(e) ==> !(e is NoRepositoryOpen),
    {
        let repo = match open_repo(path) {
            Ok(r) => r,
            Err(m) => {
                return Err(GitError::InvalidPath(m));
            },
        };
        let status = match get_repo_status(&repo) {
            Ok(s) => s,
            Err(e) => {
                return Err(e);
            },
        };
        self.repo = Some(repo);
        Ok(status)
    }

    /// Lists every local branch with its divergence from its upstream.
    /// Fails with `NoRepositoryOpen` exactly when no repository is open,
    /// and with `BranchError` when enumeration fails. Each entry's shape
    /// follows `make_branch_info`; in particular a returned branch without
    /// an upstream always reports zero ahead and zero behind.
    pub fn get_branches(&self) -> (r: Result<Vec<BranchInfo>, GitError>)
        ensures
            !self.is_open() ==> (r matches Err(e) && e is NoRepositoryOpen),
            self.is_open() ==> (r matches Err(e) ==> e is BranchError),
            r matches Ok(list) ==> forall|k: int|
                0 <= k < list@.len() ==> ((#[trigger] list@[k]).upstream is None
                    ==> list@[k].ahead_count == 0 && list@[k].behind_count == 0),
    {
        let repo = match &self.repo {
            Some(r) => r,
            None => {
                return Err(GitError::NoRepositoryOpen);
            },
        };
        let raw_items = match local_branches_raw(repo) {
            Ok(v) => v,
            Err(m) => {
                return Err(GitError::BranchError(m));
            },
        };
        let raw = match collect_branch_raws(raw_items) {
            Ok(v) => v,
            Err(m) => {
                return Err(GitError::BranchError(m));
            },
        };
        let n = raw.len();
        let mut list: Vec<BranchInfo> = Vec::new();
        let mut i: usize = 0;
        while i < n
            invariant
                self.is_open(),
                0 <= i <= n,
                n == raw@.len(),
                list@.len() == i,
                forall|k: int|
                    0 <= k < i ==> ((#[trigger] list@[k]).upstream is None ==> list@[k].ahead_count
                        == 0 && list@[k].behind_count == 0),
            decreases n - i,
        {
            let b = &raw[i];
            let counts: Option<(u32, u32)> = match (&b.upstream_name, &b.tip, &b.upstream_tip) {
                (Some(_), Some(t), Some(u)) => match ahead_behind(repo, t, u) {
                    Ok((a, bh)) => Some(
                        (
                            #[verifier::truncate] (a as u32),
                            #[verifier::truncate] (bh as u32),
                        ),
                    ),
                    Err(_) => None,
                },
                _ => None,
            };
            let info = make_branch_info(b, counts);
            list.push(info);
            i += 1;
        }
        Ok(list)
    }

    /// Lists the render-ready history of the most recent commits reachable
    /// from HEAD, at most `HISTORY_WINDOW` of them. Fails with
    /// `NoRepositoryOpen` exactly when no repository is open, and with
    /// `TraversalError` when the walk or a commit read fails; per-commit
    /// diff failures degrade to zero statistics instead of failing. Every
    /// returned node satisfies `node_self_consistent`, the positions obey
    /// the lane law (`lanes_law`: distinct labels take 0, 1, 2, … in
    /// first-appearance order, repeats reuse their lane), and the full
    /// shape of each node is given by `build_history`.
    pub fn get_git_history(&self) -> (r: Result<Vec<ExtendedCommitInfo>, GitError>)
        ensures
            !self.is_open() ==> (r matches Err(e) && e is NoRepositoryOpen),
            self.is_open() ==> (r matches Err(e) ==> e is TraversalError),
            r matches Ok(v) ==> v@.len() <= HISTORY_WINDOW && lanes_law(v@) && (forall|k: int|
                0 <= k < v@.len() ==> node_self_consistent(#[trigger] v@[k])),
    {
        let repo = match &self.repo {
            Some(r) => r,
            None => {
                return Err(GitError::NoRepositoryOpen);
            },
        };
        let ids = match walk_head_ids(repo, HISTORY_WINDOW) {
            Ok(v) => v,
            Err(m) => {
                return Err(GitError::TraversalError(m));
            },
        };
        let ref_entries = match ref_items_raw(repo) {
            Ok(raw) => collect_ref_items(raw),
            Err(m) => {
                return Err(GitError::TraversalError(m));
            },
        };
        // Branch labeling is tolerant: if the local branches cannot be
        // enumerated, every commit resolves to the detached sentinel
        // instead of the whole request failing.
        let tips: Vec<BranchRaw> = match local_branches_raw(repo) {
            Ok(raw) => match collect_branch_raws(raw) {
                Ok(v) => v,
                Err(_) => Vec::new(),
            },
            Err(_) => Vec::new(),
        };
        let n = ids.len();
        let mut details: Vec<CommitDetail> = Vec::new();
        let mut diffs: Vec<Option<CommitStats>> = Vec::new();
        let mut i: usize = 0;
        while i < n
            invariant
                self.is_open(),
                0 <= i <= n,
                n == ids@.len(),
                n <= HISTORY_WINDOW,
                details@.len() == i,
                diffs@.len() == i,
            decreases n - i,
        {
            let commit = match find_commit_by_id(repo, &ids[i]) {
                Ok(c) => c,
                Err(m) => {
                    return Err(GitError::TraversalError(m));
                },
            };
            let detail = normalize_commit(commit_to_raw(&commit));
            let diff = if detail.parents.len() == 0 {
                None
            } else {
                match first_parent_diff(repo, &commit) {
                    Ok(s) => Some(s),
                    Err(_) => None,
                }
            };
            details.push(detail);
            diffs.push(diff);
            i += 1;
        }
        let now = now_unix_seconds();
        let out = build_history(&details, &diffs, &ref_entries, &tips, now);
        Ok(out)
    }
}

} // verus!
