use vstd::prelude::*;
use crate::records::BranchRaw;
use crate::records::CommitRaw;
use crate::records::CommitStats;
use crate::records::RefItem;
use crate::records::StatusFlags;
use crate::records::StatusItem;

verus! {

/// Declares the storage engine's repository handle (git2::Repository) so the
/// verified session can hold it and hand it to the wrappers below; the
/// handle itself is opaque to the proofs.
#[verifier::external_type_specification]
#[verifier::external_body]
pub struct ExRepository(git2::Repository);

/// Relies on git2::Repository::open: opens the repository at `path`. What
/// comes back depends on what is on disk, so nothing more is stated.
#[verifier::external_body]
pub(crate) fn open_repo(path: &String) -> (r: Result<git2::Repository, String>) {
    git2::Repository::open(path.as_str()).map_err(err_text)
}

/// Relies on git2::Repository::revwalk with Sort::TOPOLOGICAL | Sort::TIME
/// and Revwalk::push_head: walks the commits reachable from HEAD in
/// topological, then most-recent-first order. Iterator::take bounds the
/// walk, so at most `max` identifiers come back; which ones depends on the
/// repository on disk, so nothing more is stated.
#[verifier::external_body]
pub(crate) fn walk_head_ids(repo: &git2::Repository, max: usize) -> (r: Result<Vec<String>, String>)
    ensures
        r matches Ok(v) ==> v@.len() <= max,
{
    let mut walk = repo.revwalk().map_err(err_text)?;
    walk.set_sorting(git2::Sort::TOPOLOGICAL | git2::Sort::TIME).map_err(err_text)?;
    walk.push_head().map_err(err_text)?;
    let ids: Result<Vec<git2::Oid>, git2::Error> = walk.take(max).collect();
    Ok(ids.map_err(err_text)?.iter().map(|o| o.to_string()).collect())
}

/// Declares the storage engine's error type (git2::Error) so one wrapper
/// can flatten it to its message.
#[verifier::external_type_specification]
#[verifier::external_body]
pub struct ExGitError(git2::Error);

/// Declares the storage engine's commit handle (git2::Commit) so a looked-up
/// commit can pass between the wrappers below.
#[verifier::external_type_specification]
#[verifier::external_body]
pub struct ExCommit<'a>(git2::Commit<'a>);

/// Relies on git2::Error::message returning the error's message text;
/// nothing is stated about it, the text only travels to the caller.
pub assume_specification<'a>[ git2::Error::message ](e: &'a git2::Error) -> (r: &'a str);

/// Flattens a store error to the message text surfaced to callers.
pub(crate) fn err_text(e: git2::Error) -> (s: String) {
    e.message().to_owned()
}

/// Relies on git2::Oid::from_str and git2::Repository::find_commit: looks
/// one commit up by its identifier. The outcome depends on the repository
/// on disk, so nothing more is stated.
#[verifier::external_body]
pub(crate) fn find_commit_by_id<'a>(repo: &'a git2::Repository, id: &String) -> (r: Result<
    git2::Commit<'a>,
    String,
>) {
    let oid = git2::Oid::from_str(id.as_str()).map_err(err_text)?;
    repo.find_commit(oid).map_err(err_text)
}

/// Relies on the git2::Commit accessors (id, message, author, committer,
/// time, parent_ids): flattens one commit's metadata to plain values;
/// unreadable text stays absent. The values depend on the repository on
/// disk, so nothing more is stated.
#[verifier::external_body]
pub(crate) fn commit_to_raw<'a>(c: &git2::Commit<'a>) -> (raw: CommitRaw) {
    let author = c.author();
    let committer = c.committer();
    CommitRaw {
        id: c.id().to_string(),
        message: c.message().ok().map(|s| s.to_string()),
        author: author.name().ok().map(|s| s.to_string()),
        author_email: author.email().ok().map(|s| s.to_string()),
        committer: committer.name().ok().map(|s| s.to_string()),
        committer_email: committer.email().ok().map(|s| s.to_string()),
        time_secs: c.time().seconds(),
        parents: c.parent_ids().map(|p| p.to_string()).collect(),
    }
}

/// Relies on git2::Commit::parent, git2::Repository::diff_tree_to_tree over
/// the first parent's tree and the commit's own tree, and DiffStats: the
/// change statistics of one commit against its first parent. The outcome
/// depends on the repository on disk, so nothing more is stated.
#[verifier::external_body]
pub(crate) fn first_parent_diff<'a>(repo: &git2::Repository, c: &git2::Commit<'a>) -> (r: Result<
    CommitStats,
    String,
>) {
    let parent = c.parent(0).map_err(err_text)?;
    let parent_tree = parent.tree().map_err(err_text)?;
    let tree = c.tree().map_err(err_text)?;
    let diff = repo.diff_tree_to_tree(Some(&parent_tree), Some(&tree), None).map_err(err_text)?;
    let stats = diff.stats().map_err(err_text)?;
    Ok(CommitStats {
        files_changed: stats.files_changed(),
        insertions: stats.insertions(),
        deletions: stats.deletions(),
    })
}

/// Relies on git2::Repository::branches with the local filter and the
/// branch accessors (name, is_head, get().target(), upstream): enumerates
/// the local branches, flattened to plain values, each entry errored on
/// its own; absent or unreadable parts stay absent. What comes back
/// depends on the repository on disk, so nothing more is stated.
#[verifier::external_body]
pub(crate) fn local_branches_raw(repo: &git2::Repository) -> (r: Result<
    Vec<Result<BranchRaw, String>>,
    String,
>) {
    let iter = repo.branches(Some(git2::BranchType::Local)).map_err(err_text)?;
    Ok(iter.map(|item| item.map_err(err_text).map(|(b, _)| BranchRaw {
        name: b.name().ok().flatten().map(str::to_string),
        is_head: b.is_head(),
        tip: b.get().target().map(|o| o.to_string()),
        upstream_name: b.upstream().ok().and_then(|u| u.name().ok().flatten().map(str::to_string)),
        upstream_tip: b.upstream().ok().and_then(|u| u.get().target().map(|o| o.to_string())),
    })).collect())
}

/// Relies on git2::Repository::references and Reference::target/name:
/// enumerates every reference with its direct target, each entry errored on
/// its own. What comes back depends on the repository on disk, so nothing
/// more is stated.
#[verifier::external_body]
pub(crate) fn ref_items_raw(repo: &git2::Repository) -> (r: Result<
    Vec<Result<RefItem, String>>,
    String,
>) {
    let refs = repo.references().map_err(err_text)?;
    Ok(refs.map(|item| item.map_err(err_text).map(|rf| RefItem {
        target: rf.target().map(|o| o.to_string()),
        name: rf.name().ok().map(|s| s.to_string()),
    })).collect())
}

/// Relies on git2::Repository::head and Reference::shorthand: the short
/// name of the branch HEAD points at, if HEAD resolves to one. The outcome
/// depends on the repository on disk, so nothing more is stated.
#[verifier::external_body]
pub(crate) fn head_branch_name(repo: &git2::Repository) -> (r: Option<String>) {
    match repo.head() {
        Ok(h) => h.shorthand().ok().map(|s| s.to_string()),
        Err(_) => None,
    }
}

/// Relies on git2::Repository::statuses and the Status flag accessors:
/// enumerates the working-tree and index status entries as plain per-path
/// facts. What comes back depends on the repository on disk, so nothing
/// more is stated.
#[verifier::external_body]
pub(crate) fn status_items_raw(repo: &git2::Repository) -> (r: Result<Vec<StatusItem>, String>) {
    let statuses = repo.statuses(None).map_err(err_text)?;
    Ok(statuses.iter().map(|entry| {
        let s = entry.status();
        let flags = StatusFlags { index_new: s.is_index_new(), index_modified: s.is_index_modified(),
            index_deleted: s.is_index_deleted(), index_renamed: s.is_index_renamed(),
            wt_modified: s.is_wt_modified(), wt_deleted: s.is_wt_deleted(), ignored: s.is_ignored() };
        StatusItem { path: entry.path().ok().map(|p| p.to_string()), flags }
    }).collect())
}

/// Relies on git2::Repository::graph_ahead_behind: the counts of commits
/// reachable from one point but not the other, in both directions. The
/// outcome depends on the repository on disk, so nothing more is stated.
#[verifier::external_body]
pub(crate) fn ahead_behind(repo: &git2::Repository, local: &String, upstream: &String) -> (r:
    Result<(usize, usize), String>) {
    let l = git2::Oid::from_str(local.as_str()).map_err(err_text)?;
    let u = git2::Oid::from_str(upstream.as_str()).map_err(err_text)?;
    repo.graph_ahead_behind(l, u).map_err(err_text)
}

/// Relies on chrono::Utc::now: the current time as Unix seconds. The value
/// depends on the clock, so nothing is stated about it.
#[verifier::external_body]
pub(crate) fn now_unix_seconds() -> (now: i64) {
    chrono::Utc::now().timestamp()
}

} // verus!
