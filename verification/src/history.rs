use vstd::prelude::*;
use crate::color::color_spec;
use crate::color::get_commit_color;
use crate::lanes::BranchLaneAssigner;
use crate::lanes::first_index_of;
use crate::lanes::first_lanes;
use crate::lanes::lemma_first_index_push_new;
use crate::lanes::lemma_first_lanes_len;
use crate::records::BranchRaw;
use crate::records::CommitDetail;
use crate::records::CommitStats;
use crate::records::ExtendedCommitInfo;
use crate::records::RefItem;
use crate::refindex::refs_for_commit;
use crate::refindex::refs_of;
use crate::labels::get_branch_for_commit;
use crate::labels::label_spec;
use crate::timefmt::format_timestamp;
use crate::timefmt::rel_time_spec;

verus! {

broadcast use vstd::seq_lib::group_seq_properties;

/// The traversal window: a history request returns at most this many of the
/// most recent commits reachable from HEAD.
pub const HISTORY_WINDOW: usize = 100;

/// The branch label of each traversed commit, in traversal order.
pub open spec fn labels_of(details: Seq<CommitDetail>, tips: Seq<BranchRaw>) -> Seq<Seq<char>> {
    Seq::new(details.len(), |i: int| label_spec(tips, details[i].id@))
}

/// The lane of the `k`-th traversed commit: the position of its label in the
/// table of distinct labels seen up to and including it.
pub open spec fn lane_of(labels: Seq<Seq<char>>, k: int) -> int {
    first_index_of(first_lanes(labels.take(k + 1)), labels[k])
}

/// The statistics a commit reports: zero for a root commit (no diff is even
/// attempted), the first-parent diff when it was computed, and zero again
/// when the diff failed — degraded rather than failing the whole request.
pub open spec fn stats_spec(d: CommitDetail, diff: Option<CommitStats>) -> CommitStats {
    if d.parents@.len() == 0 {
        CommitStats { files_changed: 0, insertions: 0, deletions: 0 }
    } else {
        match diff {
            Some(s) => s,
            None => CommitStats { files_changed: 0, insertions: 0, deletions: 0 },
        }
    }
}

/// A commit's kind, derived from its parent count: a merge has at least two
/// parents, everything else is a plain commit.
pub open spec fn kind_spec(d: CommitDetail) -> Seq<char> {
    if d.parents@.len() > 1 {
        "merge"@
    } else {
        "commit"@
    }
}

/// Everything the `k`-th assembled history node promises: metadata and
/// parent list copied verbatim from the store's commit, the branch label
/// resolved against the tips, the lane from first-appearance order, the
/// color a pure function of the lane, the kind from the parent count, the
/// statistics zero for roots, and the ref labels of exactly this commit.
pub open spec fn history_node_ok(
    details: Seq<CommitDetail>,
    diffs: Seq<Option<CommitStats>>,
    ref_entries: Seq<RefItem>,
    tips: Seq<BranchRaw>,
    now_secs: int,
    out: Seq<ExtendedCommitInfo>,
    k: int,
) -> bool {
    let d = details[k];
    let r = out[k];
    let labels = labels_of(details, tips);
    &&& r.id@ == d.id@
    &&& r.message@ == d.message@
    &&& r.author@ == d.author@
    &&& r.author_email@ == d.author_email@
    &&& r.committer@ == d.committer@
    &&& r.committer_email@ == d.committer_email@
    &&& r.branch@ == labels[k]
    &&& r.timestamp@ == rel_time_spec(d.time_secs as int, now_secs)
    &&& r.parents.deep_view() == d.parents.deep_view()
    &&& r.position == lane_of(labels, k)
    &&& r.color@ == color_spec(r.position as int)
    &&& r.commit_type@ == kind_spec(d)
    &&& r.stats == stats_spec(d, diffs[k])
    &&& r.refs.deep_view() == refs_of(ref_entries, d.id@)
}

/// The branch labels of a returned history, in traversal order.
pub open spec fn branch_labels(v: Seq<ExtendedCommitInfo>) -> Seq<Seq<char>> {
    Seq::new(v.len(), |i: int| v[i].branch@)
}

/// The lane law, over a returned history on its own: each record's position
/// is the index of its branch label in the table of distinct labels seen up
/// to and including it. So the first label sits on lane 0, each label not
/// seen before takes the next unused integer — 0, 1, 2, … in
/// first-appearance order — and a repeated label reuses the lane it was
/// given first. The positions are a function of the label sequence alone,
/// so an unchanged traversal yields identical lanes.
pub open spec fn lanes_law(v: Seq<ExtendedCommitInfo>) -> bool {
    forall|k: int|
        0 <= k < v.len() ==> (#[trigger] v[k]).position == lane_of(branch_labels(v), k)
}

/// Lane assignment is deterministic: any two histories built from the same
/// traversal, tips, statistics and reference list place each commit on the
/// same lane, with the same color and the same branch label — re-running an
/// unchanged repository cannot reshuffle the graph.
pub proof fn lemma_lanes_deterministic(
    details: Seq<CommitDetail>,
    diffs: Seq<Option<CommitStats>>,
    ref_entries: Seq<RefItem>,
    tips: Seq<BranchRaw>,
    now_secs: int,
    first: Seq<ExtendedCommitInfo>,
    second: Seq<ExtendedCommitInfo>,
    k: int,
)
    requires
        0 <= k < details.len(),
        history_node_ok(details, diffs, ref_entries, tips, now_secs, first, k),
        history_node_ok(details, diffs, ref_entries, tips, now_secs, second, k),
    ensures
        first[k].position == second[k].position,
        first[k].color@ == second[k].color@,
        first[k].branch@ == second[k].branch@,
{
}

/// What a history node guarantees on its own, with no reference to the
/// repository it came from: the color is the pure function of the lane, the
/// kind follows the parent count, and a root commit's statistics are zero.
pub open spec fn node_self_consistent(r: ExtendedCommitInfo) -> bool {
    &&& r.position >= 0
    &&& r.color@ == color_spec(r.position as int)
    &&& r.commit_type@ == (if r.parents@.len() > 1 {
        "merge"@
    } else {
        "commit"@
    })
    &&& (r.parents@.len() == 0 ==> r.stats == (CommitStats {
        files_changed: 0,
        insertions: 0,
        deletions: 0,
    }))
}

fn clone_string_vec(v: &Vec<String>) -> (r: Vec<String>)
    ensures
        r.deep_view() == v.deep_view(),
{
    let n = v.len();
    let mut r: Vec<String> = Vec::new();
    let mut i: usize = 0;
    while i < n
        invariant
            0 <= i <= n,
            n == v@.len(),
            r@.len() == i,
            forall|j: int| 0 <= j < i ==> (#[trigger] r@[j])@ == v@[j]@,
        decreases n - i,
    {
        r.push(v[i].clone());
        i += 1;
    }
    proof {
        assert(r.deep_view() =~~= v.deep_view());
    }
    r
}

/// Assembles the render-ready history from the plain values read from the
/// store: one node per traversed commit, in traversal order.
pub fn build_history(
    details: &Vec<CommitDetail>,
    diffs: &Vec<Option<CommitStats>>,
    ref_entries: &Vec<RefItem>,
    tips: &Vec<BranchRaw>,
    now_secs: i64,
) -> (out: Vec<ExtendedCommitInfo>)
    requires
        details@.len() == diffs@.len(),
        details@.len() <= 0x7fff_ffff,
    ensures
        out@.len() == details@.len(),
        forall|k: int|
            0 <= k < out@.len() ==> #[trigger] history_node_ok(
                details@,
                diffs@,
                ref_entries@,
                tips@,
                now_secs as int,
                out@,
                k,
            ),
        forall|k: int| 0 <= k < out@.len() ==> node_self_consistent(#[trigger] out@[k]),
        lanes_law(out@),
{
    let n = details.len();
    let mut out: Vec<ExtendedCommitInfo> = Vec::new();
    let mut assigner = BranchLaneAssigner::new();
    proof {
        assert(labels_of(details@, tips@).take(0) =~= Seq::<Seq<char>>::empty());
    }
    let mut k: usize = 0;
    while k < n
        invariant
            0 <= k <= n,
            n == details@.len(),
            diffs@.len() == n,
            n <= 0x7fff_ffff,
            out@.len() == k,
            assigner.wf(),
            assigner.lanes() == first_lanes(labels_of(details@, tips@).take(k as int)),
            forall|j: int|
                0 <= j < k ==> #[trigger] history_node_ok(
                    details@,
                    diffs@,
                    ref_entries@,
                    tips@,
                    now_secs as int,
                    out@,
                    j,
                ),
            forall|j: int| 0 <= j < k ==> node_self_consistent(#[trigger] out@[j]),
        decreases n - k,
    {
        let ghost labels = labels_of(details@, tips@);
        let d = &details[k];
        let label = get_branch_for_commit(tips, &d.id);
        proof {
            assert(label@ == labels[k as int]);
            assert(labels.take(k + 1).drop_last() =~= labels.take(k as int));
            assert(labels.take(k + 1).last() == labels[k as int]);
            lemma_first_lanes_len(labels.take(k as int));
        }
        let ghost prior = assigner.lanes();
        let lane = assigner.assign(&label);
        proof {
            if prior.contains(label@) {
                assert(first_lanes(labels.take(k + 1)) == prior);
            } else {
                assert(first_lanes(labels.take(k + 1)) == prior.push(label@));
                lemma_first_index_push_new(prior, label@);
            }
            assert(lane == lane_of(labels, k as int));
            assert(lane <= k < 0x7fff_ffff);
        }
        let position: i32 = lane as i32;
        let color = get_commit_color(lane);
        let timestamp = format_timestamp(d.time_secs, now_secs);
        let commit_type = if d.parents.len() > 1 {
            "merge".to_owned()
        } else {
            "commit".to_owned()
        };
        let stats = if d.parents.len() == 0 {
            CommitStats::zero()
        } else {
            match &diffs[k] {
                Some(s) => *s,
                None => CommitStats::zero(),
            }
        };
        let refs = refs_for_commit(ref_entries, &d.id);
        let record = ExtendedCommitInfo {
            id: d.id.clone(),
            message: d.message.clone(),
            author: d.author.clone(),
            author_email: d.author_email.clone(),
            committer: d.committer.clone(),
            committer_email: d.committer_email.clone(),
            branch: label,
            timestamp,
            parents: clone_string_vec(&d.parents),
            color,
            position,
            commit_type,
            stats,
            refs,
        };
        let ghost prev_out = out@;
        proof {
            assert(record.parents.deep_view() == details@[k as int].parents.deep_view());
            assert(record.parents@.len() == details@[k as int].parents@.len());
            assert(node_self_consistent(record));
        }
        out.push(record);
        proof {
            assert(node_self_consistent(out@[k as int]));
            assert(history_node_ok(
                details@,
                diffs@,
                ref_entries@,
                tips@,
                now_secs as int,
                out@,
                k as int,
            ));
            assert forall|j: int|
                0 <= j < k + 1 implies #[trigger] history_node_ok(
                details@,
                diffs@,
                ref_entries@,
                tips@,
                now_secs as int,
                out@,
                j,
            ) by {
                if j < k {
                    assert(out@[j] == prev_out[j]);
                    assert(history_node_ok(
                        details@,
                        diffs@,
                        ref_entries@,
                        tips@,
                        now_secs as int,
                        prev_out,
                        j,
                    ));
                }
            }
        }
        k += 1;
    }
    proof {
        let labels = labels_of(details@, tips@);
        assert forall|i: int| 0 <= i < out@.len() implies branch_labels(out@)[i] == labels[i] by {
            assert(history_node_ok(
                details@,
                diffs@,
                ref_entries@,
                tips@,
                now_secs as int,
                out@,
                i,
            ));
        }
        assert(branch_labels(out@) =~= labels);
        assert forall|j: int|
            0 <= j < out@.len() implies (#[trigger] out@[j]).position == lane_of(
            branch_labels(out@),
            j,
        ) by {
            assert(history_node_ok(
                details@,
                diffs@,
                ref_entries@,
                tips@,
                now_secs as int,
                out@,
                j,
            ));
        }
    }
    out
}

} // verus!
