use vstd::prelude::*;
use crate::records::RefItem;

verus! {

/// The display names of the references that point directly at `id`, in
/// enumeration order; references without a direct target contribute nothing,
/// and a reference without a readable name contributes the empty string.
pub open spec fn refs_of(entries: Seq<RefItem>, id: Seq<char>) -> Seq<Seq<char>>
    decreases entries.len(),
{
    if entries.len() == 0 {
        Seq::empty()
    } else {
        let rest = refs_of(entries.drop_last(), id);
        let e = entries.last();
        if e.target.deep_view() == Some(id) {
            rest.push(
                match e.name {
                    Some(n) => n@,
                    None => ""@,
                },
            )
        } else {
            rest
        }
    }
}

/// Collects the ref labels of one commit from the reference list.
pub fn refs_for_commit(entries: &Vec<RefItem>, commit_id: &String) -> (names: Vec<String>)
    ensures
        names.deep_view() == refs_of(entries@, commit_id@),
{
    let n = entries.len();
    let mut names: Vec<String> = Vec::new();
    proof {
        assert(entries@.take(0) =~= Seq::<RefItem>::empty());
        assert(names.deep_view() =~= refs_of(entries@.take(0), commit_id@));
    }
    let mut i: usize = 0;
    while i < n
        invariant
            0 <= i <= n,
            n == entries@.len(),
            names.deep_view() == refs_of(entries@.take(i as int), commit_id@),
        decreases n - i,
    {
        proof {
            assert(entries@.take(i + 1).drop_last() =~= entries@.take(i as int));
            assert(entries@.take(i + 1).last() == entries@[i as int]);
        }
        let ghost prev = names.deep_view();
        let target_matches = match &entries[i].target {
            Some(t) => t.eq(commit_id),
            None => false,
        };
        if target_matches {
            let name = match &entries[i].name {
                Some(name) => name.clone(),
                None => {
                    let empty = String::new();
                    proof {
                        reveal_strlit("");
                        assert(empty@ =~= ""@);
                    }
                    empty
                },
            };
            names.push(name);
            proof {
                assert(names.deep_view() =~~= refs_of(entries@.take(i + 1), commit_id@));
            }
        } else {
            proof {
                assert(names.deep_view() =~~= refs_of(entries@.take(i + 1), commit_id@));
            }
        }
        i += 1;
    }
    proof {
        assert(entries@.take(n as int) =~= entries@);
    }
    names
}

} // verus!
