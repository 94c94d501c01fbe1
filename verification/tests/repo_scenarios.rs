use repo_graph::GitError;
use repo_graph::RepositorySession;
use repo_graph::get_commit_color;

fn sig(time_secs: i64) -> git2::Signature<'static> {
    git2::Signature::new("Tester", "tester@example.com", &git2::Time::new(time_secs, 0)).unwrap()
}

fn write_tree(repo: &git2::Repository, entries: &[(&str, &str)]) -> git2::Oid {
    let mut builder = repo.treebuilder(None).unwrap();
    for (name, content) in entries {
        let blob = repo.blob(content.as_bytes()).unwrap();
        builder.insert(*name, blob, 0o100644).unwrap();
    }
    builder.write().unwrap()
}

fn make_commit(
    repo: &git2::Repository,
    tree_oid: git2::Oid,
    parents: &[git2::Oid],
    message: &str,
    time_secs: i64,
    update_ref: Option<&str>,
) -> git2::Oid {
    let tree = repo.find_tree(tree_oid).unwrap();
    let parent_commits: Vec<git2::Commit> =
        parents.iter().map(|o| repo.find_commit(*o).unwrap()).collect();
    let parent_refs: Vec<&git2::Commit> = parent_commits.iter().collect();
    let author = sig(time_secs);
    repo.commit(update_ref, &author, &author, message, &tree, &parent_refs).unwrap()
}

fn open_session(dir: &tempfile::TempDir) -> (RepositorySession, repo_graph::RepoStatus) {
    let mut session = RepositorySession::new();
    let path = dir.path().to_str().unwrap().to_string();
    let status = session.open_repository(&path).unwrap();
    (session, status)
}

#[test]
fn single_root_commit_repository() {
    let dir = tempfile::tempdir().unwrap();
    let repo = git2::Repository::init(dir.path()).unwrap();
    let tree = write_tree(&repo, &[]);
    let c1 = make_commit(&repo, tree, &[], "root", 1000, Some("HEAD"));
    drop(repo);

    let (session, status) = open_session(&dir);
    assert!(status.clean);
    assert!(status.changes.is_empty());

    let history = session.get_git_history().unwrap();
    assert_eq!(history.len(), 1);
    let rec = &history[0];
    assert_eq!(rec.id, c1.to_string());
    assert_eq!(rec.commit_type, "commit");
    assert_eq!(rec.stats.files_changed, 0);
    assert_eq!(rec.stats.insertions, 0);
    assert_eq!(rec.stats.deletions, 0);
    assert_eq!(rec.position, 0);
    assert_eq!(rec.color, get_commit_color(0));
    assert!(rec.parents.is_empty());
    assert_eq!(rec.message, "root");
    assert_eq!(rec.author, "Tester");
    // The root commit is the default branch's tip, so it carries that label
    // and that ref.
    assert_eq!(rec.branch, status.current_branch);
    assert!(rec.refs.iter().any(|name| name.ends_with(status.current_branch.as_str())));
}

#[test]
fn merge_commit_uses_first_parent_for_stats() {
    let dir = tempfile::tempdir().unwrap();
    let repo = git2::Repository::init(dir.path()).unwrap();
    let t1 = write_tree(&repo, &[("f", "one\n")]);
    let c1 = make_commit(&repo, t1, &[], "base", 1000, Some("HEAD"));
    let t2 = write_tree(&repo, &[("f", "one\n"), ("g", "two\n")]);
    let c2 = make_commit(&repo, t2, &[c1], "add g", 2000, Some("HEAD"));
    let t3 = write_tree(&repo, &[("f", "three\n")]);
    let c3 = make_commit(&repo, t3, &[c1], "change f", 3000, None);
    let t4 = write_tree(&repo, &[("f", "three\n"), ("g", "two\n")]);
    let c4 = make_commit(&repo, t4, &[c2, c3], "merge", 4000, Some("HEAD"));
    drop(repo);

    let (session, _status) = open_session(&dir);
    let history = session.get_git_history().unwrap();
    assert_eq!(history.len(), 4);
    let merge = history.iter().find(|r| r.id == c4.to_string()).unwrap();
    assert_eq!(merge.commit_type, "merge");
    assert_eq!(merge.parents, vec![c2.to_string(), c3.to_string()]);
    // Against the first parent only the file `f` changed (one line replaced);
    // against the second parent the diff would instead add `g`.
    assert_eq!(merge.stats.files_changed, 1);
    assert_eq!(merge.stats.insertions, 1);
    assert_eq!(merge.stats.deletions, 1);

    let base = history.iter().find(|r| r.id == c1.to_string()).unwrap();
    assert_eq!(base.stats.files_changed, 0);
    let second = history.iter().find(|r| r.id == c2.to_string()).unwrap();
    assert_eq!(second.stats.files_changed, 1);
    assert_eq!(second.stats.insertions, 1);
    assert_eq!(second.stats.deletions, 0);
}

#[test]
fn divergent_branches_get_distinct_lanes() {
    let dir = tempfile::tempdir().unwrap();
    let repo = git2::Repository::init(dir.path()).unwrap();
    let t1 = write_tree(&repo, &[("f", "one\n")]);
    let c1 = make_commit(&repo, t1, &[], "base", 1000, Some("HEAD"));
    {
        let base = repo.find_commit(c1).unwrap();
        repo.branch("feature", &base, false).unwrap();
    }
    let t2 = write_tree(&repo, &[("f", "one\n"), ("g", "two\n")]);
    let _c2 = make_commit(&repo, t2, &[c1], "on default", 2000, Some("HEAD"));
    repo.set_head("refs/heads/feature").unwrap();
    let t3 = write_tree(&repo, &[("f", "three\n")]);
    let c3 = make_commit(&repo, t3, &[c1], "on feature", 3000, Some("HEAD"));
    drop(repo);

    let (session, _status) = open_session(&dir);
    let history = session.get_git_history().unwrap();
    // HEAD is `feature`, so the walk reaches its tip and the common
    // ancestor; the ancestor is no branch tip and falls to `detached`.
    assert_eq!(history.len(), 2);
    assert_eq!(history[0].id, c3.to_string());
    assert_eq!(history[0].branch, "feature");
    assert_eq!(history[0].position, 0);
    assert_eq!(history[1].id, c1.to_string());
    assert_eq!(history[1].branch, "detached");
    assert_eq!(history[1].position, 1);
    assert_ne!(history[0].position, history[1].position);

    let branches = session.get_branches().unwrap();
    assert_eq!(branches.len(), 2);
    let feature = branches.iter().find(|b| b.name == "feature").unwrap();
    assert!(feature.is_head);
    // No upstream configured: zero divergence either way.
    assert_eq!(feature.upstream, None);
    assert_eq!(feature.ahead_count, 0);
    assert_eq!(feature.behind_count, 0);
}

#[test]
fn branch_with_upstream_counts_divergence() {
    let dir = tempfile::tempdir().unwrap();
    let repo = git2::Repository::init(dir.path()).unwrap();
    let t1 = write_tree(&repo, &[("f", "one\n")]);
    let c1 = make_commit(&repo, t1, &[], "base", 1000, Some("HEAD"));
    let t2 = write_tree(&repo, &[("f", "two\n")]);
    let c2 = make_commit(&repo, t2, &[c1], "ahead", 2000, Some("HEAD"));
    // A remote-tracking ref still at the base, configured as the upstream of
    // the default branch: the branch is one commit ahead, none behind.
    repo.remote("origin", "https://example.invalid/repo.git").unwrap();
    repo.reference("refs/remotes/origin/dev", c1, true, "track").unwrap();
    let head_name = {
        let head = repo.head().unwrap();
        head.shorthand().unwrap().to_string()
    };
    let mut config = repo.config().unwrap();
    config.set_str(&format!("branch.{}.remote", head_name), "origin").unwrap();
    config.set_str(&format!("branch.{}.merge", head_name), "refs/heads/dev").unwrap();
    drop(config);
    drop(repo);

    let (session, _status) = open_session(&dir);
    let branches = session.get_branches().unwrap();
    let followed = branches.iter().find(|b| b.name == head_name).unwrap();
    assert_eq!(followed.upstream, Some("origin/dev".to_string()));
    assert_eq!(followed.ahead_count, 1);
    assert_eq!(followed.behind_count, 0);
    assert_eq!(c2.to_string().len(), 40);
}

#[test]
fn no_repository_open_fails_without_crashing() {
    let session = RepositorySession::new();
    let history = session.get_git_history();
    assert!(matches!(history, Err(GitError::NoRepositoryOpen)));
    let branches = session.get_branches();
    assert!(matches!(branches, Err(GitError::NoRepositoryOpen)));
    match session.get_git_history() {
        Err(e) => assert_eq!(e.describe(), "No repository opened"),
        Ok(_) => panic!("history without an open repository must fail"),
    }
}

#[test]
fn open_invalid_path_keeps_session_closed() {
    let mut session = RepositorySession::new();
    let bad = "/definitely/not/a/repository/path".to_string();
    let r = session.open_repository(&bad);
    assert!(matches!(r, Err(GitError::InvalidPath(_))));
    assert!(matches!(session.get_git_history(), Err(GitError::NoRepositoryOpen)));
}

#[test]
fn empty_repository_history_is_a_traversal_error() {
    let dir = tempfile::tempdir().unwrap();
    git2::Repository::init(dir.path()).unwrap();
    let (session, status) = open_session(&dir);
    // No commit yet: HEAD is unborn, so the snapshot reports no branch and
    // the walk fails, while branch listing succeeds with an empty list.
    assert!(status.clean);
    assert!(matches!(session.get_git_history(), Err(GitError::TraversalError(_))));
    assert!(session.get_branches().unwrap().is_empty());
}

#[test]
fn staged_file_reports_new_and_dirty() {
    let dir = tempfile::tempdir().unwrap();
    let repo = git2::Repository::init(dir.path()).unwrap();
    let tree = write_tree(&repo, &[]);
    make_commit(&repo, tree, &[], "root", 1000, Some("HEAD"));
    let entry = git2::IndexEntry {
        ctime: git2::IndexTime::new(0, 0),
        mtime: git2::IndexTime::new(0, 0),
        dev: 0,
        ino: 0,
        mode: 0o100644,
        uid: 0,
        gid: 0,
        file_size: 0,
        id: git2::Oid::zero(),
        flags: 0,
        flags_extended: 0,
        path: b"staged.txt".to_vec(),
    };
    let mut index = repo.index().unwrap();
    index.add_frombuffer(&entry, b"hello\n").unwrap();
    index.write().unwrap();
    drop(index);
    drop(repo);

    let (_session, status) = open_session(&dir);
    assert!(!status.clean);
    let staged = status.changes.iter().find(|c| c.path == "staged.txt").unwrap();
    assert_eq!(staged.status, "new");
}

#[test]
fn reopening_replaces_the_previous_repository() {
    let first_dir = tempfile::tempdir().unwrap();
    let repo = git2::Repository::init(first_dir.path()).unwrap();
    let tree = write_tree(&repo, &[]);
    make_commit(&repo, tree, &[], "first root", 1000, Some("HEAD"));
    drop(repo);
    let second_dir = tempfile::tempdir().unwrap();
    let repo = git2::Repository::init(second_dir.path()).unwrap();
    let tree = write_tree(&repo, &[("f", "x\n")]);
    make_commit(&repo, tree, &[], "second root", 2000, Some("HEAD"));
    drop(repo);

    let (mut session, _status) = open_session(&first_dir);
    assert_eq!(session.get_git_history().unwrap()[0].message, "first root");
    let second_path = second_dir.path().to_str().unwrap().to_string();
    session.open_repository(&second_path).unwrap();
    assert_eq!(session.get_git_history().unwrap()[0].message, "second root");
}
