use vstd::prelude::*;

verus! {

broadcast use vstd::seq_lib::group_seq_properties;

/// The distinct branch labels of a traversal, in first-appearance order.
/// A label's index in this sequence is its lane.
pub open spec fn first_lanes(labels: Seq<Seq<char>>) -> Seq<Seq<char>>
    decreases labels.len(),
{
    if labels.len() == 0 {
        Seq::empty()
    } else {
        let prior = first_lanes(labels.drop_last());
        if prior.contains(labels.last()) {
            prior
        } else {
            prior.push(labels.last())
        }
    }
}

/// Index of the first occurrence of `l` in `s` (meaningful when `l` occurs).
pub open spec fn first_index_of(s: Seq<Seq<char>>, l: Seq<char>) -> int
    decreases s.len(),
{
    if s.len() == 0 {
        0
    } else if s[0] == l {
        0
    } else {
        1 + first_index_of(s.drop_first(), l)
    }
}

/// Appending one label either leaves the lane table unchanged (label already
/// seen) or appends the label as the next lane.
pub proof fn lemma_first_lanes_push(labels: Seq<Seq<char>>, l: Seq<char>)
    ensures
        first_lanes(labels).contains(l) ==> first_lanes(labels.push(l)) == first_lanes(labels),
        !first_lanes(labels).contains(l) ==> first_lanes(labels.push(l)) == first_lanes(
            labels,
        ).push(l),
{
    assert(labels.push(l).drop_last() =~= labels);
    assert(labels.push(l).last() == l);
}

/// The lane table holds each label once, and holds exactly the labels that
/// occur in the traversal: one lane per distinct label.
pub proof fn lemma_first_lanes_distinct(labels: Seq<Seq<char>>)
    ensures
        first_lanes(labels).no_duplicates(),
        forall|l: Seq<char>| first_lanes(labels).contains(l) <==> labels.contains(l),
    decreases labels.len(),
{
    if labels.len() == 0 {
    } else {
        let prior = labels.drop_last();
        let last = labels.last();
        lemma_first_lanes_distinct(prior);
        let fp = first_lanes(prior);
        assert(prior.push(last) =~= labels);
        if !fp.contains(last) {
            let s = fp.push(last);
            assert forall|p: int, q: int|
                0 <= p < s.len() && 0 <= q < s.len() && p != q implies s[p] != s[q] by {
                if p < s.len() - 1 && q == s.len() - 1 {
                    assert(fp.contains(fp[p]));
                } else if q < s.len() - 1 && p == s.len() - 1 {
                    assert(fp.contains(fp[q]));
                }
            }
        }
        assert forall|l: Seq<char>| first_lanes(labels).contains(l) implies labels.contains(
            l,
        ) by {
            if fp.contains(l) {
                assert(prior.contains(l));
                let i = choose|i: int| 0 <= i < prior.len() && prior[i] == l;
                assert(labels[i] == l);
            }
        }
        assert forall|l: Seq<char>| labels.contains(l) implies first_lanes(labels).contains(
            l,
        ) by {
            let i = choose|i: int| 0 <= i < labels.len() && labels[i] == l;
            if i < labels.len() - 1 {
                assert(prior[i] == l);
                assert(prior.contains(l));
            }
        }
    }
}

/// In a duplicate-free sequence, the first occurrence of `s[i]` is `i`.
pub proof fn lemma_first_index_unique(s: Seq<Seq<char>>, i: int)
    requires
        s.no_duplicates(),
        0 <= i < s.len(),
    ensures
        first_index_of(s, s[i]) == i,
    decreases i,
{
    if i == 0 {
    } else {
        assert(s[0] != s[i]);
        lemma_first_index_unique(s.drop_first(), i - 1);
        assert(s.drop_first()[i - 1] == s[i]);
    }
}

/// A label not yet present gets the next index when appended.
pub proof fn lemma_first_index_push_new(s: Seq<Seq<char>>, l: Seq<char>)
    requires
        !s.contains(l),
    ensures
        first_index_of(s.push(l), l) == s.len(),
    decreases s.len(),
{
    if s.len() == 0 {
        assert(s.push(l)[0] == l);
    } else {
        assert(s.push(l)[0] == s[0]);
        assert(s[0] != l);
        assert(s.push(l).drop_first() =~= s.drop_first().push(l));
        assert(!s.drop_first().contains(l)) by {
            if s.drop_first().contains(l) {
                let i = choose|i: int| 0 <= i < s.drop_first().len() && s.drop_first()[i] == l;
                assert(s[i + 1] == l);
            }
        }
        lemma_first_index_push_new(s.drop_first(), l);
    }
}

/// Lanes are stable: the lane table of any prefix of the traversal is a
/// prefix of the final lane table, so indices once assigned never change
/// and new labels always receive the next unused index.
pub proof fn lemma_first_lanes_prefix(labels: Seq<Seq<char>>, n: int)
    requires
        0 <= n <= labels.len(),
    ensures
        first_lanes(labels.take(n)).is_prefix_of(first_lanes(labels)),
    decreases labels.len(),
{
    if n == labels.len() {
        assert(labels.take(n) =~= labels);
        assert(first_lanes(labels).is_prefix_of(first_lanes(labels)));
    } else {
        let prior = labels.drop_last();
        assert(prior.take(n) =~= labels.take(n));
        lemma_first_lanes_prefix(prior, n);
        let fp = first_lanes(labels.take(n));
        assert(fp.is_prefix_of(first_lanes(prior)));
        assert(first_lanes(prior).is_prefix_of(first_lanes(labels)));
        assert(fp =~= first_lanes(prior).subrange(0, fp.len() as int));
        assert(fp =~= first_lanes(labels).subrange(0, fp.len() as int));
    }
}

/// There are never more lanes than traversed commits.
pub proof fn lemma_first_lanes_len(labels: Seq<Seq<char>>)
    ensures
        first_lanes(labels).len() <= labels.len(),
    decreases labels.len(),
{
    if labels.len() > 0 {
        lemma_first_lanes_len(labels.drop_last());
    }
}

/// Assigns each distinct branch label a stable lane index in
/// first-encountered order: 0 for the first label, then 1, 2, and so on.
pub struct BranchLaneAssigner {
    labels: Vec<String>,
}

impl BranchLaneAssigner {
    /// The labels seen so far, one per lane, in lane order.
    pub closed spec fn lanes(&self) -> Seq<Seq<char>> {
        self.labels.deep_view()
    }

    /// Each label holds one lane only.
    pub closed spec fn wf(&self) -> bool {
        self.lanes().no_duplicates()
    }

    pub fn new() -> (a: BranchLaneAssigner)
        ensures
            a.wf(),
            a.lanes() == Seq::<Seq<char>>::empty(),
    {
        let a = BranchLaneAssigner { labels: Vec::new() };
        proof {
            assert(a.lanes() =~= Seq::<Seq<char>>::empty());
        }
        a
    }

    /// The lane for `label`: its existing lane if it was seen before, else
    /// the next unused index, which the label keeps from then on.
    pub fn assign(&mut self, label: &String) -> (lane: usize)
        requires
            old(self).wf(),
        ensures
            final(self).wf(),
            old(self).lanes().contains(label@) ==> {
                &&& final(self).lanes() == old(self).lanes()
                &&& lane < old(self).lanes().len()
                &&& lane == first_index_of(old(self).lanes(), label@)
            },
            !old(self).lanes().contains(label@) ==> {
                &&& final(self).lanes() == old(self).lanes().push(label@)
                &&& lane == old(self).lanes().len()
            },
    {
        let n = self.labels.len();
        let mut i: usize = 0;
        while i < n
            invariant
                0 <= i <= n,
                n == self.labels.len(),
                *self == *old(self),
                old(self).wf(),
                forall|j: int| 0 <= j < i ==> self.lanes()[j] != label@,
            decreases n - i,
        {
            if self.labels[i].eq(label) {
                proof {
                    assert(self.lanes()[i as int] == label@);
                    lemma_first_index_unique(self.lanes(), i as int);
                }
                return i;
            }
            i += 1;
        }
        proof {
            assert(!self.lanes().contains(label@));
        }
        self.labels.push(label.clone());
        proof {
            assert(self.lanes() =~= old(self).lanes().push(label@));
            let s = old(self).lanes().push(label@);
            assert forall|p: int, q: int|
                0 <= p < s.len() && 0 <= q < s.len() && p != q implies s[p] != s[q] by {
                if p < s.len() - 1 && q < s.len() - 1 {
                    assert(s[p] == old(self).lanes()[p]);
                    assert(s[q] == old(self).lanes()[q]);
                } else if q == s.len() - 1 {
                    assert(old(self).lanes().contains(old(self).lanes()[p]));
                } else {
                    assert(old(self).lanes().contains(old(self).lanes()[q]));
                }
            }
        }
        n
    }
}

} // verus!
