use vstd::prelude::*;
use crate::records::BranchRaw;

verus! {

broadcast use vstd::seq_lib::group_seq_properties;

/// The branch label a commit resolves to: the name of the first local branch
/// whose tip is exactly the commit's identifier (a branch with no readable
/// name labels it with the empty string). A commit that is no branch tip —
/// including an ancestor of a tip — receives the sentinel "detached".
pub open spec fn label_spec(tips: Seq<BranchRaw>, id: Seq<char>) -> Seq<char>
    decreases tips.len(),
{
    if tips.len() == 0 {
        "detached"@
    } else if tips[0].tip.deep_view() == Some(id) {
        match tips[0].name {
            Some(n) => n@,
            None => ""@,
        }
    } else {
        label_spec(tips.drop_first(), id)
    }
}

/// Resolves a commit's branch label by scanning the local branch tips.
pub fn get_branch_for_commit(tips: &Vec<BranchRaw>, commit_id: &String) -> (label: String)
    ensures
        label@ == label_spec(tips@, commit_id@),
{
    let n = tips.len();
    let mut i: usize = 0;
    while i < n
        invariant
            0 <= i <= n,
            n == tips@.len(),
            label_spec(tips@, commit_id@) == label_spec(tips@.skip(i as int), commit_id@),
        decreases n - i,
    {
        proof {
            assert(tips@.skip(i as int)[0] == tips@[i as int]);
            assert(tips@.skip(i as int).drop_first() =~= tips@.skip(i + 1));
        }
        let tip_matches = match &tips[i].tip {
            Some(t) => t.eq(commit_id),
            None => false,
        };
        if tip_matches {
            return match &tips[i].name {
                Some(name) => name.clone(),
                None => {
                    let empty = String::new();
                    proof {
                        reveal_strlit("");
                        assert(empty@ =~= ""@);
                    }
                    empty
                },
            };
        }
        i += 1;
    }
    proof {
        assert(tips@.skip(n as int) =~= Seq::<BranchRaw>::empty());
    }
    "detached".to_owned()
}

} // verus!
