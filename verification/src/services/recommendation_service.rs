//! Numbering the users and items of the interaction matrix.
use crate::text::str_eq;
use vstd::prelude::*;

verus! {

/// The distinct elements of `s`, in the order of their first appearance.
pub open spec fn first_seen<A>(s: Seq<A>) -> Seq<A>
    decreases s.len(),
{
    if s.len() == 0 {
        Seq::empty()
    } else {
        let prefix = first_seen(s.drop_last());
        if prefix.contains(s.last()) {
            prefix
        } else {
            prefix.push(s.last())
        }
    }
}

/// Every element of `s` is numbered by its place among the distinct
/// elements in order of first appearance: rows and columns of the
/// interaction matrix.
pub open spec fn numbered<A>(s: Seq<A>, idx: Seq<usize>) -> bool {
    &&& idx.len() == s.len()
    &&& forall|i: int|
        0 <= i < s.len() ==> (#[trigger] idx[i]) < first_seen(s).len() && first_seen(s)[idx[i] as int]
            == s[i]
}

/// `first_seen(s)` holds exactly the elements of `s`.
pub proof fn lemma_first_seen_contains<A>(s: Seq<A>, x: A)
    ensures
        s.contains(x) <==> first_seen(s).contains(x),
    decreases s.len(),
{
    if s.len() > 0 {
        let d = s.drop_last();
        lemma_first_seen_contains(d, x);
        let f = first_seen(s);
        let fd = first_seen(d);
        if s.contains(x) {
            let i = choose|i: int| 0 <= i < s.len() && s[i] == x;
            if i < s.len() - 1 {
                assert(d[i] == x);
                assert(d.contains(x));
                let j = choose|j: int| 0 <= j < fd.len() && fd[j] == x;
                if fd.contains(s.last()) {
                    assert(f[j] == x);
                } else {
                    assert(f[j] == x);
                }
            } else if fd.contains(x) {
                let j = choose|j: int| 0 <= j < fd.len() && fd[j] == x;
                assert(f[j] == x);
            } else {
                assert(f[f.len() - 1] == x);
            }
        }
        if f.contains(x) {
            let k = choose|k: int| 0 <= k < f.len() && f[k] == x;
            if fd.contains(s.last()) || k < fd.len() {
                assert(fd[k] == x);
                assert(fd.contains(x));
                let j = choose|j: int| 0 <= j < d.len() && d[j] == x;
                assert(s[j] == x);
            } else {
                assert(s[s.len() - 1] == x);
            }
        }
    }
}

/// `first_seen(s)` holds no element twice: the numbering is one to one.
pub proof fn lemma_first_seen_distinct<A>(s: Seq<A>)
    ensures
        first_seen(s).no_duplicates(),
    decreases s.len(),
{
    if s.len() > 0 {
        let d = s.drop_last();
        lemma_first_seen_distinct(d);
        let fd = first_seen(d);
        if !fd.contains(s.last()) {
            let f = fd.push(s.last());
            assert forall|i: int, j: int| 0 <= i < f.len() && 0 <= j < f.len() && i != j implies f[i]
                != f[j] by {
                if i < fd.len() && j < fd.len() {
                    assert(f[i] == fd[i] && f[j] == fd[j]);
                } else if i < fd.len() {
                    assert(f[i] == fd[i]);
                } else if j < fd.len() {
                    assert(f[j] == fd[j]);
                }
            }
        }
    }
}

/// Numbers the users of the interactions, in order of first appearance.
pub fn number_users(users: &Vec<u128>) -> (r: (Vec<usize>, usize))
    ensures
        numbered(users@, r.0@),
        r.1 == first_seen(users@).len(),
{
    let mut seen: Vec<u128> = Vec::new();
    let mut idx: Vec<usize> = Vec::new();
    let mut i: usize = 0;
    while i < users.len()
        invariant
            i <= users.len(),
            seen@ == first_seen(users@.take(i as int)),
            seen@.len() <= i,
            idx@.len() == i,
            forall|k: int|
                0 <= k < i ==> (#[trigger] idx@[k]) < seen@.len() && seen@[idx@[k] as int]
                    == users@[k],
        decreases users.len() - i,
    {
        let u = users[i];
        assert(users@.take(i + 1).drop_last() =~= users@.take(i as int));
        assert(users@.take(i + 1).last() == u);
        let mut j: usize = 0;
        while j < seen.len() && seen[j] != u
            invariant
                j <= seen.len(),
                forall|m: int| 0 <= m < j ==> seen@[m] != u,
            decreases seen.len() - j,
        {
            j = j + 1;
        }
        if j == seen.len() {
            assert(!seen@.contains(u));
            seen.push(u);
        } else {
            assert(seen@.contains(u)) by {
                assert(seen@[j as int] == u);
            }
        }
        idx.push(j);
        i = i + 1;
    }
    assert(users@.take(i as int) =~= users@);
    (idx, seen.len())
}

/// The texts of `items`.
pub open spec fn texts_of(items: Seq<String>) -> Seq<Seq<char>> {
    items.map_values(|s: String| s@)
}

/// Numbers the items of the interactions, in order of first appearance.
pub fn number_items(items: &Vec<String>) -> (r: (Vec<usize>, usize))
    ensures
        numbered(texts_of(items@), r.0@),
        r.1 == first_seen(texts_of(items@)).len(),
{
    let ghost all = texts_of(items@);
    let mut seen: Vec<String> = Vec::new();
    let mut idx: Vec<usize> = Vec::new();
    let mut i: usize = 0;
    while i < items.len()
        invariant
            i <= items.len(),
            all == texts_of(items@),
            texts_of(seen@) == first_seen(all.take(i as int)),
            seen@.len() <= i,
            idx@.len() == i,
            forall|k: int|
                0 <= k < i ==> (#[trigger] idx@[k]) < seen@.len() && seen@[idx@[k] as int]@
                    == all[k],
        decreases items.len() - i,
    {
        let t = &items[i];
        assert(all.take(i + 1).drop_last() =~= all.take(i as int));
        assert(all.take(i + 1).last() == t@);
        let mut j: usize = 0;
        while j < seen.len() && !str_eq(seen[j].as_str(), t.as_str())
            invariant
                j <= seen.len(),
                forall|m: int| 0 <= m < j ==> seen@[m]@ != t@,
            decreases seen.len() - j,
        {
            j = j + 1;
        }
        let ghost seen_before = seen@;
        if j == seen.len() {
            assert(!texts_of(seen@).contains(t@)) by {
                if texts_of(seen@).contains(t@) {
                    let m = choose|m: int| 0 <= m < texts_of(seen@).len() && texts_of(seen@)[m] == t@;
                    assert(seen@[m]@ == t@);
                }
            }
            seen.push(t.clone());
            assert(texts_of(seen@) =~= texts_of(seen_before).push(t@));
        } else {
            assert(texts_of(seen@)[j as int] == t@);
            assert(texts_of(seen@).contains(t@));
        }
        idx.push(j);
        i = i + 1;
    }
    assert(all.take(i as int) =~= all);
    (idx, seen.len())
}

/// The recommendations shown: going down the candidates from the best
/// score, the first `limit` that may be shown (`shown[i]`: the item is still
/// for sale and not the user's own).
pub open spec fn pick(candidates: Seq<Seq<char>>, shown: Seq<bool>, limit: nat) -> Seq<Seq<char>>
    decreases candidates.len(),
{
    if candidates.len() == 0 || shown.len() == 0 || limit == 0 {
        Seq::empty()
    } else if shown[0] {
        seq![candidates[0]] + pick(candidates.drop_first(), shown.drop_first(), (limit - 1) as nat)
    } else {
        pick(candidates.drop_first(), shown.drop_first(), limit)
    }
}

/// Picks the recommendations to show among the candidates, best first.
pub fn take_recommendations(candidates: &Vec<String>, shown: &Vec<bool>, limit: usize) -> (r:
    Vec<String>)
    requires
        shown.len() == candidates.len(),
    ensures
        texts_of(r@) == pick(texts_of(candidates@), shown@, limit as nat),
        r@.len() <= limit,
{
    let ghost all = texts_of(candidates@);
    let mut r: Vec<String> = Vec::new();
    let mut i: usize = 0;
    assert(all.skip(0) =~= all);
    assert(shown@.skip(0) =~= shown@);
    assert(texts_of(r@) + pick(all, shown@, limit as nat) =~= pick(all, shown@, limit as nat));
    while i < candidates.len() && r.len() < limit
        invariant
            i <= candidates.len(),
            shown.len() == candidates.len(),
            all == texts_of(candidates@),
            r@.len() <= limit,
            pick(all, shown@, limit as nat) == texts_of(r@) + pick(
                all.skip(i as int),
                shown@.skip(i as int),
                (limit - r@.len()) as nat,
            ),
        decreases candidates.len() - i,
    {
        let ghost rest = all.skip(i as int);
        let ghost flags = shown@.skip(i as int);
        assert(rest[0] == candidates@[i as int]@);
        assert(flags[0] == shown@[i as int]);
        assert(rest.drop_first() =~= all.skip(i + 1));
        assert(flags.drop_first() =~= shown@.skip(i + 1));
        if shown[i] {
            let ghost before = texts_of(r@);
            r.push(candidates[i].clone());
            assert(texts_of(r@) =~= before.push(candidates@[i as int]@));
            assert(before + (seq![rest[0]] + pick(
                rest.drop_first(),
                flags.drop_first(),
                (limit - before.len() - 1) as nat,
            )) =~= texts_of(r@) + pick(
                all.skip(i + 1),
                shown@.skip(i + 1),
                (limit - r@.len()) as nat,
            ));
        }
        i = i + 1;
    }
    proof {
        if i == candidates.len() {
            assert(all.skip(i as int).len() == 0);
        }
        assert(texts_of(r@) + Seq::<Seq<char>>::empty() =~= texts_of(r@));
    }
    r
}

} // verus!
