//! Named counters kept as a list of `(name, count)` pairs.

use vstd::prelude::*;

verus! {

/// The pairs of a tally list with their names seen as character sequences.
pub open spec fn tally_view(l: Seq<(String, u64)>) -> Seq<(Seq<char>, u64)> {
    l.map_values(|p: (String, u64)| (p.0@, p.1))
}

/// No two pairs share a name.
pub open spec fn unique_names(l: Seq<(Seq<char>, u64)>) -> bool {
    forall|i: int, j: int| 0 <= i < l.len() && 0 <= j < l.len() && i != j ==> (#[trigger] l[i]).0 != (#[trigger] l[j]).0
}

/// The index of the first pair named `k`.
pub open spec fn first_index(l: Seq<(Seq<char>, u64)>, k: Seq<char>) -> Option<int>
    decreases l.len(),
{
    if l.len() == 0 {
        None
    } else {
        match first_index(l.drop_last(), k) {
            Some(i) => Some(i),
            None => if l.last().0 == k { Some(l.len() - 1) } else { None },
        }
    }
}

/// The count under name `k`, if any.
pub open spec fn count_named(l: Seq<(Seq<char>, u64)>, k: Seq<char>) -> Option<u64> {
    match first_index(l, k) {
        Some(i) => Some(l[i].1),
        None => None,
    }
}

/// The list after adding `d` to the count named `k` (saturating), or after
/// appending `(k, d)` when no pair has that name.
pub open spec fn bumped(l: Seq<(Seq<char>, u64)>, k: Seq<char>, d: u64) -> Seq<(Seq<char>, u64)> {
    match first_index(l, k) {
        Some(i) => l.update(i, (k, if l[i].1 + d > u64::MAX { u64::MAX } else { (l[i].1 + d) as u64 })),
        None => l.push((k, d)),
    }
}

/// The list after adding each pair of `other` in turn.
pub open spec fn bumped_all(l: Seq<(Seq<char>, u64)>, other: Seq<(Seq<char>, u64)>) -> Seq<(Seq<char>, u64)>
    decreases other.len(),
{
    if other.len() == 0 {
        l
    } else {
        let prev = bumped_all(l, other.drop_last());
        bumped(prev, other.last().0, other.last().1)
    }
}

proof fn lemma_first_index_extends(l: Seq<(Seq<char>, u64)>, n: int, k: Seq<char>)
    requires
        0 <= n <= l.len(),
        first_index(l.subrange(0, n), k) is Some,
    ensures
        first_index(l, k) == first_index(l.subrange(0, n), k),
    decreases l.len() - n,
{
    if n == l.len() {
        assert(l.subrange(0, n) =~= l);
    } else {
        assert(l.drop_last().subrange(0, n) =~= l.subrange(0, n));
        lemma_first_index_extends(l.drop_last(), n, k);
    }
}

proof fn lemma_first_index_bounds(l: Seq<(Seq<char>, u64)>, k: Seq<char>)
    ensures
        first_index(l, k) matches Some(i) ==> 0 <= i < l.len() && l[i].0 == k,
    decreases l.len(),
{
    if l.len() > 0 {
        lemma_first_index_bounds(l.drop_last(), k);
    }
}

proof fn lemma_first_index_absent(l: Seq<(Seq<char>, u64)>, k: Seq<char>)
    requires
        first_index(l, k) is None,
    ensures
        forall|i: int| 0 <= i < l.len() ==> (#[trigger] l[i]).0 != k,
    decreases l.len(),
{
    if l.len() > 0 {
        lemma_first_index_absent(l.drop_last(), k);
        assert forall|i: int| 0 <= i < l.len() implies (#[trigger] l[i]).0 != k by {
            if i < l.len() - 1 {
                assert(l[i] == l.drop_last()[i]);
            }
        }
    }
}

/// Adding to a count keeps the names of a list unique.
pub proof fn lemma_bumped_unique(l: Seq<(Seq<char>, u64)>, k: Seq<char>, d: u64)
    requires
        unique_names(l),
    ensures
        unique_names(bumped(l, k, d)),
{
    lemma_first_index_bounds(l, k);
    let b = bumped(l, k, d);
    if first_index(l, k) is None {
        lemma_first_index_absent(l, k);
        assert forall|i: int, j: int| 0 <= i < b.len() && 0 <= j < b.len() && i != j implies (#[trigger] b[i]).0
            != (#[trigger] b[j]).0 by {
            if i < l.len() && j < l.len() {
                assert(b[i] == l[i] && b[j] == l[j]);
            }
        }
    } else {
        let m = first_index(l, k)->0;
        assert forall|i: int, j: int| 0 <= i < b.len() && 0 <= j < b.len() && i != j implies (#[trigger] b[i]).0
            != (#[trigger] b[j]).0 by {
            assert(b[i].0 == l[i].0 && b[j].0 == l[j].0);
        }
    }
}

proof fn lemma_bumped_all_unique(l: Seq<(Seq<char>, u64)>, other: Seq<(Seq<char>, u64)>)
    requires
        unique_names(l),
    ensures
        unique_names(bumped_all(l, other)),
    decreases other.len(),
{
    if other.len() > 0 {
        lemma_bumped_all_unique(l, other.drop_last());
        lemma_bumped_unique(bumped_all(l, other.drop_last()), other.last().0, other.last().1);
    }
}

fn find_named(l: &Vec<(String, u64)>, k: &str) -> (r: Option<usize>)
    ensures
        r matches Some(j) ==> first_index(tally_view(l@), k@) == Some(j as int) && j < l@.len(),
        r is None ==> first_index(tally_view(l@), k@) is None,
{
    let ghost v = tally_view(l@);
    let mut i: usize = 0;
    while i < l.len()
        invariant
            v == tally_view(l@),
            i <= l@.len(),
            first_index(v.subrange(0, i as int), k@) is None,
        decreases l@.len() - i,
    {
        assert(v.subrange(0, i + 1).drop_last() =~= v.subrange(0, i as int));
        if crate::digest::same_text(l[i].0.as_str(), k) {
            proof {
                lemma_first_index_extends(v, i + 1, k@);
            }
            return Some(i);
        }
        i = i + 1;
    }
    assert(v.subrange(0, v.len() as int) =~= v);
    None
}

/// The count under a name, if any.
pub fn count_for(l: &Vec<(String, u64)>, k: &str) -> (r: Option<u64>)
    ensures
        r == count_named(tally_view(l@), k@),
{
    proof {
        lemma_first_index_bounds(tally_view(l@), k@);
    }
    match find_named(l, k) {
        Some(j) => Some(l[j].1),
        None => None,
    }
}

/// Adds `d` to the count named `k`.
pub fn bump(l: &mut Vec<(String, u64)>, k: &str, d: u64)
    ensures
        tally_view(final(l)@) == bumped(tally_view(old(l)@), k@, d),
        unique_names(tally_view(old(l)@)) ==> unique_names(tally_view(final(l)@)),
{
    proof {
        if unique_names(tally_view(l@)) {
            lemma_bumped_unique(tally_view(l@), k@, d);
        }
    }
    proof {
        lemma_first_index_bounds(tally_view(l@), k@);
    }
    match find_named(l, k) {
        Some(j) => {
            let name = l[j].0.clone();
            let v = l[j].1.saturating_add(d);
            l.set(j, (name, v));
            assert(tally_view(l@) =~= bumped(tally_view(old(l)@), k@, d));
        },
        None => {
            l.push((k.to_owned(), d));
            assert(tally_view(l@) =~= bumped(tally_view(old(l)@), k@, d));
        },
    }
}

/// Adds every pair of `other` to `l`.
pub fn bump_all(l: &mut Vec<(String, u64)>, other: &Vec<(String, u64)>)
    ensures
        tally_view(final(l)@) == bumped_all(tally_view(old(l)@), tally_view(other@)),
        unique_names(tally_view(old(l)@)) ==> unique_names(tally_view(final(l)@)),
{
    proof {
        if unique_names(tally_view(l@)) {
            lemma_bumped_all_unique(tally_view(l@), tally_view(other@));
        }
    }
    let ghost start = tally_view(l@);
    let mut i: usize = 0;
    while i < other.len()
        invariant
            i <= other@.len(),
            tally_view(l@) == bumped_all(start, tally_view(other@).subrange(0, i as int)),
        decreases other@.len() - i,
    {
        assert(tally_view(other@).subrange(0, i + 1).drop_last() =~= tally_view(other@).subrange(0, i as int));
        bump(l, other[i].0.as_str(), other[i].1);
        i = i + 1;
    }
    assert(tally_view(other@).subrange(0, other@.len() as int) =~= tally_view(other@));
}

} // verus!
