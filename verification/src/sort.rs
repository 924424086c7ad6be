//! Ordering of the triage list: a stable insertion sort by commit time,
//! with proofs that the result is sorted, that it is a permutation of the
//! input, and that branches with equal commit times keep their original
//! relative order.
use vstd::prelude::*;

use crate::branch::BranchInfo;

verus! {

/// The list is ordered by commit time, ascending.
pub open spec fn sorted_by_time(s: Seq<BranchInfo>) -> bool {
    forall|i: int, j: int| 0 <= i <= j < s.len() ==> s[i].commit_time <= s[j].commit_time
}

/// Insert `x` after every element whose commit time is at most `x`'s, so
/// that an element arriving later never overtakes an equal-time one.
pub open spec fn insert_by_time(s: Seq<BranchInfo>, x: BranchInfo) -> Seq<BranchInfo>
    decreases s.len(),
{
    if s.len() == 0 {
        seq![x]
    } else if s.last().commit_time > x.commit_time {
        insert_by_time(s.drop_last(), x).push(s.last())
    } else {
        s.push(x)
    }
}

/// Insertion sort by commit time, processing the input left to right.
pub open spec fn sort_by_time(s: Seq<BranchInfo>) -> Seq<BranchInfo>
    decreases s.len(),
{
    if s.len() == 0 {
        Seq::empty()
    } else {
        insert_by_time(sort_by_time(s.drop_last()), s.last())
    }
}

/// Selects the branches whose commit time is exactly `t`.
pub open spec fn at_time(t: i64) -> spec_fn(BranchInfo) -> bool {
    |b: BranchInfo| b.commit_time == t
}

proof fn lemma_insert_elems(s: Seq<BranchInfo>, x: BranchInfo)
    ensures
        insert_by_time(s, x).len() == s.len() + 1,
        forall|i: int|
            0 <= i < insert_by_time(s, x).len() ==> s.contains(#[trigger] insert_by_time(s, x)[i])
                || insert_by_time(s, x)[i] == x,
    decreases s.len(),
{
    let r = insert_by_time(s, x);
    if s.len() == 0 {
    } else if s.last().commit_time > x.commit_time {
        let dl = s.drop_last();
        lemma_insert_elems(dl, x);
        let ri = insert_by_time(dl, x);
        assert forall|i: int| 0 <= i < r.len() implies s.contains(r[i]) || r[i] == x by {
            if i < ri.len() {
                assert(r[i] == ri[i]);
                if dl.contains(ri[i]) {
                    let j = choose|j: int| 0 <= j < dl.len() && dl[j] == ri[i];
                    assert(s[j] == ri[i]);
                }
            } else {
                assert(r[i] == s.last());
                assert(s[s.len() - 1] == s.last());
            }
        }
    } else {
        assert forall|i: int| 0 <= i < r.len() implies s.contains(r[i]) || r[i] == x by {
            if i < s.len() {
                assert(s[i] == r[i]);
            }
        }
    }
}

proof fn lemma_insert_sorted(s: Seq<BranchInfo>, x: BranchInfo)
    requires
        sorted_by_time(s),
    ensures
        sorted_by_time(insert_by_time(s, x)),
    decreases s.len(),
{
    let r = insert_by_time(s, x);
    if s.len() == 0 {
    } else if s.last().commit_time > x.commit_time {
        let dl = s.drop_last();
        assert(sorted_by_time(dl));
        lemma_insert_sorted(dl, x);
        lemma_insert_elems(dl, x);
        let ri = insert_by_time(dl, x);
        assert forall|i: int, j: int|
            0 <= i <= j < r.len() implies r[i].commit_time <= r[j].commit_time by {
            if j < ri.len() {
                assert(r[i] == ri[i] && r[j] == ri[j]);
            } else if i < j {
                assert(r[j] == s.last());
                assert(r[i] == ri[i]);
                if dl.contains(ri[i]) {
                    let k = choose|k: int| 0 <= k < dl.len() && dl[k] == ri[i];
                    assert(s[k] == dl[k]);
                    assert(s[k].commit_time <= s[s.len() - 1].commit_time);
                }
            }
        }
    } else {
        assert forall|i: int, j: int|
            0 <= i <= j < r.len() implies r[i].commit_time <= r[j].commit_time by {
            if j < s.len() {
                assert(r[i] == s[i] && r[j] == s[j]);
            } else if i < j {
                assert(r[j] == x);
                assert(r[i] == s[i]);
                assert(s[i].commit_time <= s[s.len() - 1].commit_time);
            }
        }
    }
}

proof fn lemma_insert_filter(s: Seq<BranchInfo>, x: BranchInfo, t: i64)
    ensures
        insert_by_time(s, x).filter(at_time(t)) == if x.commit_time == t {
            s.filter(at_time(t)).push(x)
        } else {
            s.filter(at_time(t))
        },
    decreases s.len(),
{
    reveal(Seq::filter);
    let r = insert_by_time(s, x);
    let p = at_time(t);
    if s.len() == 0 {
        assert(seq![x].drop_last() =~= s);
        assert(seq![x].last() == x);
        if x.commit_time == t {
            assert(r.filter(p) =~= s.filter(p).push(x));
        } else {
            assert(r.filter(p) =~= s.filter(p));
        }
    } else if s.last().commit_time > x.commit_time {
        let dl = s.drop_last();
        lemma_insert_filter(dl, x, t);
        let ri = insert_by_time(dl, x);
        assert(r == ri.push(s.last()));
        assert(r.drop_last() =~= ri);
        assert(r.last() == s.last());
        assert(s.drop_last() == dl && s.last() == s.last());
        if x.commit_time == t {
            assert(s.last().commit_time != t);
            assert(r.filter(p) == ri.filter(p));
            assert(s.filter(p) == dl.filter(p));
            assert(r.filter(p) =~= s.filter(p).push(x));
        } else {
            if p(s.last()) {
                assert(r.filter(p) =~= dl.filter(p).push(s.last()));
                assert(s.filter(p) =~= dl.filter(p).push(s.last()));
            } else {
                assert(r.filter(p) =~= dl.filter(p));
                assert(s.filter(p) =~= dl.filter(p));
            }
        }
    } else {
        assert(r == s.push(x));
        assert(r.drop_last() =~= s);
        assert(r.last() == x);
        if x.commit_time == t {
            assert(r.filter(p) =~= s.filter(p).push(x));
        } else {
            assert(r.filter(p) =~= s.filter(p));
        }
    }
}

/// The sorted list is ordered by commit time, ascending, whatever the
/// input order was.
pub proof fn lemma_sort_by_time_sorted(s: Seq<BranchInfo>)
    ensures
        sorted_by_time(sort_by_time(s)),
    decreases s.len(),
{
    if s.len() > 0 {
        lemma_sort_by_time_sorted(s.drop_last());
        lemma_insert_sorted(sort_by_time(s.drop_last()), s.last());
    }
}

/// Sorting neither drops, adds nor duplicates a branch: the sorted list
/// holds exactly the input branches.
pub proof fn lemma_sort_by_time_multiset(s: Seq<BranchInfo>)
    ensures
        sort_by_time(s).to_multiset() == s.to_multiset(),
    decreases s.len(),
{
    if s.len() == 0 {
        assert(s =~= Seq::<BranchInfo>::empty());
    } else {
        let dl = s.drop_last();
        lemma_sort_by_time_multiset(dl);
        lemma_insert_multiset(sort_by_time(dl), s.last());
        dl.to_multiset_ensures();
        assert(dl.push(s.last()).to_multiset() == dl.to_multiset().insert(s.last()));
        assert(dl.push(s.last()) =~= s);
    }
}

proof fn lemma_insert_multiset(s: Seq<BranchInfo>, x: BranchInfo)
    ensures
        insert_by_time(s, x).to_multiset() == s.to_multiset().insert(x),
    decreases s.len(),
{
    if s.len() == 0 {
        s.to_multiset_ensures();
        assert(s.push(x).to_multiset() == s.to_multiset().insert(x));
        assert(s.push(x) =~= seq![x]);
    } else if s.last().commit_time > x.commit_time {
        let dl = s.drop_last();
        lemma_insert_multiset(dl, x);
        let ri = insert_by_time(dl, x);
        ri.to_multiset_ensures();
        dl.to_multiset_ensures();
        assert(dl.push(s.last()).to_multiset() == dl.to_multiset().insert(s.last()));
        assert(dl.push(s.last()) =~= s);
        assert(ri.push(s.last()).to_multiset() =~= dl.to_multiset().insert(x).insert(s.last()));
        assert(dl.to_multiset().insert(x).insert(s.last()) =~= dl.to_multiset().insert(
            s.last(),
        ).insert(x));
    } else {
        s.to_multiset_ensures();
    }
}

/// Every branch in the sorted list comes from the input list.
pub proof fn lemma_sort_by_time_elems(s: Seq<BranchInfo>)
    ensures
        sort_by_time(s).len() == s.len(),
        forall|i: int|
            0 <= i < sort_by_time(s).len() ==> s.contains(#[trigger] sort_by_time(s)[i]),
    decreases s.len(),
{
    if s.len() > 0 {
        let dl = s.drop_last();
        lemma_sort_by_time_elems(dl);
        let sd = sort_by_time(dl);
        lemma_insert_elems(sd, s.last());
        let r = sort_by_time(s);
        assert forall|i: int| 0 <= i < r.len() implies s.contains(r[i]) by {
            if dl.contains(r[i]) {
                let j = choose|j: int| 0 <= j < dl.len() && dl[j] == r[i];
                assert(s[j] == r[i]);
            } else if sd.contains(r[i]) {
                let j = choose|j: int| 0 <= j < sd.len() && sd[j] == r[i];
                let k = choose|k: int| 0 <= k < dl.len() && dl[k] == sd[j];
                assert(s[k] == r[i]);
            } else {
                assert(r[i] == s.last());
                assert(s[s.len() - 1] == s.last());
            }
        }
    }
}

/// Sorting is stable: for every commit time, the branches carrying that
/// time stand in the sorted list exactly as they stood in the input.
pub proof fn lemma_sort_by_time_stable(s: Seq<BranchInfo>, t: i64)
    ensures
        sort_by_time(s).filter(at_time(t)) == s.filter(at_time(t)),
    decreases s.len(),
{
    reveal(Seq::filter);
    let p = at_time(t);
    if s.len() == 0 {
    } else {
        let dl = s.drop_last();
        lemma_sort_by_time_stable(dl, t);
        lemma_insert_filter(sort_by_time(dl), s.last(), t);
        if p(s.last()) {
            assert(s.filter(p) == dl.filter(p).push(s.last()));
        } else {
            assert(s.filter(p) == dl.filter(p));
        }
    }
}

fn insert_branch(s: Vec<BranchInfo>, x: BranchInfo) -> (r: Vec<BranchInfo>)
    ensures
        r@ == insert_by_time(s@, x),
{
    let mut s = s;
    let ghost orig = s@;
    let mut j: usize = s.len();
    proof {
        assert(orig.subrange(0, orig.len() as int) =~= orig);
        assert(insert_by_time(orig, x) + orig.subrange(orig.len() as int, orig.len() as int)
            =~= insert_by_time(orig, x));
    }
    while j > 0 && s[j - 1].commit_time > x.commit_time
        invariant
            s@ == orig,
            j <= s@.len(),
            insert_by_time(orig, x) == insert_by_time(orig.subrange(0, j as int), x)
                + orig.subrange(j as int, orig.len() as int),
        decreases j,
    {
        proof {
            let pre = orig.subrange(0, j as int);
            assert(pre.last() == orig[j - 1]);
            assert(pre.drop_last() =~= orig.subrange(0, j - 1));
            assert(insert_by_time(pre, x) == insert_by_time(orig.subrange(0, j - 1), x).push(
                orig[j - 1],
            ));
            assert(insert_by_time(orig.subrange(0, j - 1), x).push(orig[j - 1]) + orig.subrange(
                j as int,
                orig.len() as int,
            ) =~= insert_by_time(orig.subrange(0, j - 1), x) + orig.subrange(
                j - 1,
                orig.len() as int,
            ));
        }
        j = j - 1;
    }
    proof {
        let pre = orig.subrange(0, j as int);
        if j == 0 {
            assert(pre =~= Seq::<BranchInfo>::empty());
            assert(insert_by_time(pre, x) =~= pre.push(x));
        } else {
            assert(pre.last() == orig[j - 1]);
            assert(insert_by_time(pre, x) == pre.push(x));
        }
    }
    s.insert(j, x);
    proof {
        assert(s@ =~= insert_by_time(orig, x));
    }
    s
}

/// Sorts the collected branches by commit time, ascending and stable.
pub fn sort_branches(v: Vec<BranchInfo>) -> (r: Vec<BranchInfo>)
    ensures
        r@ == sort_by_time(v@),
    decreases v@.len(),
{
    let mut v = v;
    let ghost orig = v@;
    match v.pop() {
        None => {
            proof {
                assert(orig =~= Seq::<BranchInfo>::empty());
            }
            v
        },
        Some(x) => {
            proof {
                assert(v@ =~= orig.drop_last());
            }
            let sorted = sort_branches(v);
            insert_branch(sorted, x)
        },
    }
}

} // verus!
