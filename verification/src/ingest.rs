use vstd::prelude::*;
use crate::records::BranchInfo;
use crate::records::BranchRaw;
use crate::records::CommitDetail;
use crate::records::CommitRaw;
use crate::records::RefItem;

verus! {

broadcast use vstd::seq_lib::group_seq_properties;

/// The text of an optional field, defaulted to empty when absent.
pub open spec fn opt_or_empty(o: Option<String>) -> Seq<char> {
    match o {
        Some(s) => s@,
        None => ""@,
    }
}

fn opt_string_or_empty(o: Option<String>) -> (s: String)
    ensures
        s@ == opt_or_empty(o),
{
    match o {
        Some(s) => s,
        None => {
            let empty = String::new();
            proof {
                reveal_strlit("");
                assert(empty@ =~= ""@);
            }
            empty
        },
    }
}

/// Fills the absent text fields of a raw commit with empty strings; the
/// identifier, timestamp and parent list carry over unchanged.
pub fn normalize_commit(raw: CommitRaw) -> (d: CommitDetail)
    ensures
        d.id@ == raw.id@,
        d.message@ == opt_or_empty(raw.message),
        d.author@ == opt_or_empty(raw.author),
        d.author_email@ == opt_or_empty(raw.author_email),
        d.committer@ == opt_or_empty(raw.committer),
        d.committer_email@ == opt_or_empty(raw.committer_email),
        d.time_secs == raw.time_secs,
        d.parents@ == raw.parents@,
{
    CommitDetail {
        id: raw.id,
        message: opt_string_or_empty(raw.message),
        author: opt_string_or_empty(raw.author),
        author_email: opt_string_or_empty(raw.author_email),
        committer: opt_string_or_empty(raw.committer),
        committer_email: opt_string_or_empty(raw.committer_email),
        time_secs: raw.time_secs,
        parents: raw.parents,
    }
}

/// The successfully enumerated references, in order, errored entries left
/// out.
pub open spec fn ok_refs(raw: Seq<Result<RefItem, String>>) -> Seq<RefItem>
    decreases raw.len(),
{
    if raw.len() == 0 {
        Seq::empty()
    } else {
        let rest = ok_refs(raw.drop_last());
        match raw.last() {
            Ok(e) => rest.push(e),
            Err(_) => rest,
        }
    }
}

/// Keeps the references that enumerated cleanly, dropping errored entries,
/// as the ref index tolerates unreadable references.
#[verifier::loop_isolation(false)]
pub fn collect_ref_items(raw: Vec<Result<RefItem, String>>) -> (entries: Vec<RefItem>)
    ensures
        entries@ == ok_refs(raw@),
{
    let ghost orig = raw@;
    let total: usize = raw.len();
    let mut raw = raw;
    let mut entries: Vec<RefItem> = Vec::new();
    let mut i: usize = 0;
    proof {
        assert(orig.take(0) =~= Seq::<Result<RefItem, String>>::empty());
    }
    while raw.len() > 0
        invariant
            i + raw@.len() == total,
            total == orig.len(),
            raw@ =~= orig.skip(i as int),
            entries@ == ok_refs(orig.take(i as int)),
        decreases raw@.len(),
    {
        proof {
            assert(orig.take(i + 1).drop_last() =~= orig.take(i as int));
            assert(orig.take(i + 1).last() == orig[i as int]);
            assert(raw@[0] == orig[i as int]);
        }
        let item = raw.remove(0);
        match item {
            Ok(e) => entries.push(e),
            Err(_) => (),
        }
        proof {
            assert(raw@ =~= orig.skip(i + 1));
        }
        i += 1;
    }
    proof {
        assert(orig.take(i as int) =~= orig);
    }
    entries
}

/// Collects a branch enumeration, failing with the first entry's message if
/// any entry failed to enumerate.
#[verifier::loop_isolation(false)]
pub fn collect_branch_raws(raw: Vec<Result<BranchRaw, String>>) -> (r: Result<
    Vec<BranchRaw>,
    String,
>)
    ensures
        r is Ok <==> (forall|k: int| 0 <= k < raw@.len() ==> raw@[k] is Ok),
        r matches Ok(v) ==> v@.len() == raw@.len() && (forall|k: int|
            0 <= k < raw@.len() ==> v@[k] == raw@[k]->Ok_0),
{
    let ghost orig = raw@;
    let total: usize = raw.len();
    let mut raw = raw;
    let mut out: Vec<BranchRaw> = Vec::new();
    let mut i: usize = 0;
    while raw.len() > 0
        invariant
            i + raw@.len() == total,
            total == orig.len(),
            raw@ =~= orig.skip(i as int),
            out@.len() == i,
            forall|k: int| 0 <= k < i ==> (#[trigger] orig[k]) is Ok,
            forall|k: int| 0 <= k < i ==> #[trigger] out@[k] == orig[k]->Ok_0,
        decreases raw@.len(),
    {
        proof {
            assert(raw@[0] == orig[i as int]);
        }
        let ghost prev_out = out@;
        let item = raw.remove(0);
        match item {
            Ok(b) => {
                out.push(b);
                proof {
                    assert(out@ == prev_out.push(b));
                    assert forall|k: int| 0 <= k < i + 1 implies (#[trigger] orig[k]) is Ok by {
                        if k == i {
                            assert(orig[k] == item);
                        }
                    }
                    assert forall|k: int|
                        0 <= k < i + 1 implies #[trigger] out@[k] == orig[k]->Ok_0 by {
                        if k < i {
                            assert(out@[k] == prev_out[k]);
                        } else {
                            assert(out@[k] == b);
                            assert(orig[k] == item);
                        }
                    }
                }
            },
            Err(m) => {
                proof {
                    assert(orig[i as int] is Err);
                }
                return Err(m);
            },
        }
        proof {
            assert(raw@ =~= orig.skip(i + 1));
        }
        i += 1;
    }
    proof {
        assert(i as int == orig.len());
    }
    Ok(out)
}

fn clone_opt_string(o: &Option<String>) -> (r: Option<String>)
    ensures
        r.deep_view() == o.deep_view(),
{
    match o {
        Some(s) => Some(s.clone()),
        None => None,
    }
}

/// Shapes one enumerated branch into its reported form. The divergence
/// counts apply only when the branch reports an upstream by name and both
/// the branch tip and the upstream tip resolved; in every other case — in
/// particular for a branch without an upstream — the counts are zero, so
/// an entry whose upstream reads absent never carries divergence.
pub fn make_branch_info(b: &BranchRaw, counts: Option<(u32, u32)>) -> (r: BranchInfo)
    ensures
        r.name@ == opt_or_empty(b.name),
        r.is_head == b.is_head,
        r.upstream.deep_view() == b.upstream_name.deep_view(),
        (b.upstream_name is Some && b.tip is Some && b.upstream_tip is Some) ==> match counts {
            Some(c) => r.ahead_count == c.0 && r.behind_count == c.1,
            None => r.ahead_count == 0 && r.behind_count == 0,
        },
        (b.upstream_name is None || b.tip is None || b.upstream_tip is None) ==> r.ahead_count
            == 0 && r.behind_count == 0,
        r.upstream is None ==> r.ahead_count == 0 && r.behind_count == 0,
{
    let (ahead_count, behind_count): (u32, u32) = if b.upstream_name.is_some() && b.tip.is_some()
        && b.upstream_tip.is_some() {
        match counts {
            Some(c) => c,
            None => (0, 0),
        }
    } else {
        (0, 0)
    };
    BranchInfo {
        name: opt_string_or_empty(clone_opt_string(&b.name)),
        is_head: b.is_head,
        upstream: clone_opt_string(&b.upstream_name),
        ahead_count,
        behind_count,
    }
}

} // verus!
