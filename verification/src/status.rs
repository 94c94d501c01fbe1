use vstd::prelude::*;
use crate::records::FileStatus;
use crate::records::RepoStatus;
use crate::records::StatusFlags;
use crate::records::StatusItem;

verus! {

/// The classification of one changed path, by priority: staged (index)
/// changes first — new, modified, deleted, renamed — then working-tree
/// modifications and deletions, then ignored; anything else is "unknown".
/// The first matching kind wins.
pub open spec fn status_label_spec(f: StatusFlags) -> Seq<char> {
    if f.index_new {
        "new"@
    } else if f.index_modified {
        "modified"@
    } else if f.index_deleted {
        "deleted"@
    } else if f.index_renamed {
        "renamed"@
    } else if f.wt_modified {
        "modified"@
    } else if f.wt_deleted {
        "deleted"@
    } else if f.ignored {
        "ignored"@
    } else {
        "unknown"@
    }
}

/// The path reported for a status entry; an unreadable path becomes empty.
pub open spec fn status_path_spec(p: Option<String>) -> Seq<char> {
    match p {
        Some(s) => s@,
        None => ""@,
    }
}

/// The current-branch name shown in a snapshot: the branch's short name, or
/// a sentinel when HEAD points at no branch.
pub open spec fn branch_display_spec(b: Option<String>) -> Seq<char> {
    match b {
        Some(s) => s@,
        None => "HEAD detached"@,
    }
}

/// Classifies one status entry into its display kind.
pub fn classify_status(f: &StatusFlags) -> (s: String)
    ensures
        s@ == status_label_spec(*f),
{
    let lit = if f.index_new {
        "new"
    } else if f.index_modified {
        "modified"
    } else if f.index_deleted {
        "deleted"
    } else if f.index_renamed {
        "renamed"
    } else if f.wt_modified {
        "modified"
    } else if f.wt_deleted {
        "deleted"
    } else if f.ignored {
        "ignored"
    } else {
        "unknown"
    };
    lit.to_owned()
}

/// Builds the working-tree snapshot from the current branch name and the
/// enumerated status entries. The snapshot is clean exactly when the status
/// list — and so the classified change list — is empty.
pub fn build_repo_status(current_branch: Option<String>, items: &Vec<StatusItem>) -> (r:
    RepoStatus)
    ensures
        r.current_branch@ == branch_display_spec(current_branch),
        r.clean <==> items@.len() == 0,
        r.clean <==> r.changes@.len() == 0,
        r.changes@.len() == items@.len(),
        forall|k: int|
            0 <= k < items@.len() ==> (#[trigger] r.changes@[k]).path@ == status_path_spec(
                items@[k].path,
            ) && r.changes@[k].status@ == status_label_spec(items@[k].flags),
{
    let current_branch = match current_branch {
        Some(b) => b,
        None => "HEAD detached".to_owned(),
    };
    let n = items.len();
    let clean = n == 0;
    let mut changes: Vec<FileStatus> = Vec::new();
    let mut i: usize = 0;
    while i < n
        invariant
            0 <= i <= n,
            n == items@.len(),
            changes@.len() == i,
            forall|k: int|
                0 <= k < i ==> (#[trigger] changes@[k]).path@ == status_path_spec(items@[k].path)
                    && changes@[k].status@ == status_label_spec(items@[k].flags),
        decreases n - i,
    {
        let path = match &items[i].path {
            Some(p) => p.clone(),
            None => {
                let empty = String::new();
                proof {
                    reveal_strlit("");
                    assert(empty@ =~= ""@);
                }
                empty
            },
        };
        let status = classify_status(&items[i].flags);
        changes.push(FileStatus { path, status });
        i += 1;
    }
    RepoStatus { current_branch, clean, changes }
}

} // verus!
