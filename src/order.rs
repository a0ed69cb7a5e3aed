use crate::snapshot::views;
use vstd::prelude::*;

verus! {

/// A record with a rank read from its view; collections of them are
/// served highest rank first.
pub trait Ranked: View + Sized {
    spec fn rank(v: Self::V) -> int;

    fn ranks_at_least(&self, other: &Self) -> (r: bool)
        ensures
            r == (Self::rank(self@) >= Self::rank(other@)),
    ;
}

/// `s`, already ordered, with `x` placed before the first element that it
/// ranks at least as high as.
pub open spec fn insert_ranked<T: Ranked>(x: T::V, s: Seq<T::V>) -> Seq<T::V>
    decreases s.len(),
{
    if s.len() == 0 {
        seq![x]
    } else if T::rank(x) >= T::rank(s[0]) {
        seq![x] + s
    } else {
        seq![s[0]] + insert_ranked::<T>(x, s.drop_first())
    }
}

/// The stable ordering of `s` by descending rank: elements of equal rank
/// keep the order they had in `s`.
pub open spec fn ranked<T: Ranked>(s: Seq<T::V>) -> Seq<T::V>
    decreases s.len(),
{
    if s.len() == 0 {
        s
    } else {
        insert_ranked::<T>(s[0], ranked::<T>(s.drop_first()))
    }
}

/// Ranks never increase along `s`.
pub open spec fn sorted_by_rank<T: Ranked>(s: Seq<T::V>) -> bool {
    forall|i: int, j: int| 0 <= i < j < s.len() ==> T::rank(s[i]) >= T::rank(s[j])
}

proof fn lemma_insert_len<T: Ranked>(x: T::V, s: Seq<T::V>)
    ensures
        insert_ranked::<T>(x, s).len() == s.len() + 1,
    decreases s.len(),
{
    if s.len() > 0 {
        lemma_insert_len::<T>(x, s.drop_first());
    }
}

proof fn lemma_insert_bounded<T: Ranked>(x: T::V, s: Seq<T::V>, bound: int)
    requires
        T::rank(x) <= bound,
        forall|k: int| 0 <= k < s.len() ==> T::rank(#[trigger] s[k]) <= bound,
    ensures
        forall|k: int|
            0 <= k < insert_ranked::<T>(x, s).len() ==> T::rank(
                #[trigger] insert_ranked::<T>(x, s)[k],
            ) <= bound,
    decreases s.len(),
{
    lemma_insert_len::<T>(x, s);
    if s.len() > 0 && T::rank(x) < T::rank(s[0]) {
        let t = s.drop_first();
        assert forall|k: int| 0 <= k < t.len() implies T::rank(#[trigger] t[k]) <= bound by {
            assert(t[k] == s[k + 1]);
        }
        lemma_insert_bounded::<T>(x, t, bound);
        let r = insert_ranked::<T>(x, s);
        assert forall|k: int| 0 <= k < r.len() implies T::rank(#[trigger] r[k]) <= bound by {
            if k > 0 {
                assert(r[k] == insert_ranked::<T>(x, t)[k - 1]);
            }
        }
    }
}

proof fn lemma_insert_sorted<T: Ranked>(x: T::V, s: Seq<T::V>)
    requires
        sorted_by_rank::<T>(s),
    ensures
        sorted_by_rank::<T>(insert_ranked::<T>(x, s)),
    decreases s.len(),
{
    lemma_insert_len::<T>(x, s);
    let r = insert_ranked::<T>(x, s);
    if s.len() == 0 {
    } else if T::rank(x) >= T::rank(s[0]) {
        assert forall|i: int, j: int| 0 <= i < j < r.len() implies T::rank(r[i]) >= T::rank(
            r[j],
        ) by {
            assert(r[j] == s[j - 1]);
            if i > 0 {
                assert(r[i] == s[i - 1]);
            }
        }
    } else {
        let t = s.drop_first();
        assert forall|i: int, j: int| 0 <= i < j < t.len() implies T::rank(t[i]) >= T::rank(
            t[j],
        ) by {
            assert(t[i] == s[i + 1] && t[j] == s[j + 1]);
        }
        assert forall|k: int| 0 <= k < t.len() implies T::rank(#[trigger] t[k]) <= T::rank(s[0]) by {
            assert(t[k] == s[k + 1]);
        }
        lemma_insert_sorted::<T>(x, t);
        lemma_insert_bounded::<T>(x, t, T::rank(s[0]));
        let u = insert_ranked::<T>(x, t);
        assert forall|i: int, j: int| 0 <= i < j < r.len() implies T::rank(r[i]) >= T::rank(
            r[j],
        ) by {
            assert(r[j] == u[j - 1]);
            if i > 0 {
                assert(r[i] == u[i - 1]);
            }
        }
    }
}

/// `ranked` keeps the length of `s` and orders it by non-increasing rank.
pub proof fn lemma_ranked_sorted<T: Ranked>(s: Seq<T::V>)
    ensures
        ranked::<T>(s).len() == s.len(),
        sorted_by_rank::<T>(ranked::<T>(s)),
    decreases s.len(),
{
    if s.len() > 0 {
        lemma_ranked_sorted::<T>(s.drop_first());
        lemma_insert_len::<T>(s[0], ranked::<T>(s.drop_first()));
        lemma_insert_sorted::<T>(s[0], ranked::<T>(s.drop_first()));
    }
}

proof fn lemma_insert_at<T: Ranked>(x: T::V, s: Seq<T::V>, j: int)
    requires
        0 <= j <= s.len(),
        forall|k: int| 0 <= k < j ==> T::rank(x) < #[trigger] T::rank(s[k]),
        j < s.len() ==> T::rank(x) >= T::rank(s[j]),
    ensures
        insert_ranked::<T>(x, s) == s.subrange(0, j) + seq![x] + s.subrange(j, s.len() as int),
    decreases j,
{
    if j == 0 {
        assert(s.subrange(0, 0) + seq![x] + s.subrange(0, s.len() as int) =~= seq![x] + s);
    } else {
        let t = s.drop_first();
        assert forall|k: int| 0 <= k < j - 1 implies T::rank(x) < #[trigger] T::rank(t[k]) by {
            assert(t[k] == s[k + 1]);
        }
        lemma_insert_at::<T>(x, t, j - 1);
        assert(seq![s[0]] + (t.subrange(0, j - 1) + seq![x] + t.subrange(j - 1, t.len() as int))
            =~= s.subrange(0, j) + seq![x] + s.subrange(j, s.len() as int));
    }
}

/// Places `x` into the ordered `v` as `insert_ranked` does.
fn insert_in_order<T: Ranked>(v: &mut Vec<T>, x: T)
    ensures
        views(final(v)@) == insert_ranked::<T>(x@, views(old(v)@)),
{
    let mut j: usize = 0;
    while j < v.len() && !x.ranks_at_least(&v[j])
        invariant
            0 <= j <= v.len(),
            forall|k: int| 0 <= k < j ==> T::rank(x@) < #[trigger] T::rank(views(v@)[k]),
        decreases v.len() - j,
    {
        j += 1;
    }
    let ghost before = views(v@);
    proof {
        lemma_insert_at::<T>(x@, before, j as int);
    }
    v.insert(j, x);
    assert(views(v@) =~= before.subrange(0, j as int) + seq![x@] + before.subrange(
        j as int,
        before.len() as int,
    ));
}

/// Stable sort by descending rank.
pub fn sort_ranked<T: Ranked>(v: Vec<T>) -> (r: Vec<T>)
    ensures
        views(r@) == ranked::<T>(views(v@)),
        sorted_by_rank::<T>(views(r@)),
{
    proof {
        lemma_ranked_sorted::<T>(views(v@));
    }
    let ghost all = views(v@);
    let mut rest = v;
    let mut out: Vec<T> = Vec::new();
    assert(views(out@) =~= ranked::<T>(all.subrange(all.len() as int, all.len() as int)));
    while rest.len() > 0
        invariant
            rest.len() <= all.len(),
            views(rest@) == all.subrange(0, rest.len() as int),
            views(out@) == ranked::<T>(all.subrange(rest.len() as int, all.len() as int)),
        decreases rest.len(),
    {
        let ghost before = rest@;
        let x = rest.pop().unwrap();
        let ghost k = rest.len() as int;
        assert(x@ == views(before)[k]);
        assert(all.subrange(k, all.len() as int).drop_first() =~= all.subrange(k + 1, all.len() as int));
        assert(views(rest@) =~= all.subrange(0, k));
        insert_in_order(&mut out, x);
    }
    assert(all.subrange(0, all.len() as int) =~= all);
    out
}

} // verus!
