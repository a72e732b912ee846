//! Facts about listings of a table's keys.
use vstd::prelude::*;

verus! {

/// A duplicate-free listing of keys of a finite set, as long as the set, lists
/// every key of the set.
pub proof fn lemma_distinct_keys_cover(dom: Set<Seq<char>>, keys: Seq<Seq<char>>, k: Seq<char>)
    requires
        dom.finite(),
        dom.contains(k),
        forall|j: int| 0 <= j < keys.len() ==> #[trigger] dom.contains(keys[j]),
        forall|j: int, l: int| 0 <= j < l < keys.len() ==> keys[j] != keys[l],
        keys.len() == dom.len(),
    ensures
        exists|j: int| 0 <= j < keys.len() && keys[j] == k,
{
    assert forall|j: int, l: int| 0 <= j < keys.len() && 0 <= l < keys.len() && j != l implies keys[j] != keys[l] by {
        if j < l { } else { }
    }
    assert(keys.no_duplicates());
    keys.unique_seq_to_set();
    assert(keys.to_set().subset_of(dom)) by {
        assert forall|x: Seq<char>| keys.to_set().contains(x) implies dom.contains(x) by {
            let j = choose|j: int| 0 <= j < keys.len() && keys[j] == x;
            assert(dom.contains(keys[j]));
        }
    }
    if !keys.to_set().contains(k) {
        vstd::set_lib::lemma_len_subset(keys.to_set().insert(k), dom);
    }
}

/// The keys of a listing whose flag is set, in order.
pub open spec fn keys_where(e: Seq<(Seq<char>, bool)>) -> Seq<Seq<char>>
    decreases e.len(),
{
    if e.len() == 0 {
        Seq::empty()
    } else {
        let rest = keys_where(e.drop_last());
        if e.last().1 {
            rest.push(e.last().0)
        } else {
            rest
        }
    }
}

/// Whether `x` is the key of a flagged entry of `e`.
pub open spec fn flagged_key(e: Seq<(Seq<char>, bool)>, x: Seq<char>) -> bool {
    exists|k: int| 0 <= k < e.len() && e[k] == (x, true)
}

/// Each key kept comes from a flagged entry, and each flagged entry's key is
/// kept.
pub proof fn lemma_keys_where(e: Seq<(Seq<char>, bool)>)
    ensures
        forall|j: int| 0 <= j < keys_where(e).len() ==> flagged_key(e, #[trigger] keys_where(e)[j]),
        forall|k: int| 0 <= k < e.len() && (#[trigger] e[k]).1 ==> keys_where(e).contains(e[k].0),
    decreases e.len(),
{
    if e.len() > 0 {
        let init = e.drop_last();
        lemma_keys_where(init);
        let f = keys_where(e);
        let fi = keys_where(init);
        assert forall|j: int| 0 <= j < f.len() implies flagged_key(e, #[trigger] f[j]) by {
            if j < fi.len() {
                assert(flagged_key(init, fi[j]));
                let k = choose|k: int| 0 <= k < init.len() && init[k] == (fi[j], true);
                assert(e[k] == init[k]);
                assert(f[j] == fi[j]);
            } else {
                assert(e[e.len() - 1].1);
                assert(f[j] == e[e.len() - 1].0);
                assert(e[e.len() - 1] == (f[j], true));
            }
        }
        assert forall|k: int| 0 <= k < e.len() && (#[trigger] e[k]).1 implies f.contains(e[k].0) by {
            if k < init.len() {
                assert(init[k] == e[k]);
                assert(fi.contains(init[k].0));
                let j = choose|j: int| 0 <= j < fi.len() && fi[j] == init[k].0;
                assert(f[j] == fi[j]);
            } else {
                assert(f[f.len() - 1] == e[k].0);
            }
        }
    }
}

/// Keeping flagged keys keeps their order, so distinct keys stay distinct.
pub proof fn lemma_keys_where_distinct(e: Seq<(Seq<char>, bool)>, a: int, b: int)
    requires
        0 <= a < b < keys_where(e).len(),
        forall|j: int, l: int| 0 <= j < l < e.len() ==> e[j].0 != e[l].0,
    ensures
        keys_where(e)[a] != keys_where(e)[b],
    decreases e.len(),
{
    let init = e.drop_last();
    let f = keys_where(e);
    let fi = keys_where(init);
    lemma_keys_where(init);
    if b < fi.len() {
        lemma_keys_where_distinct(init, a, b);
    } else {
        assert(flagged_key(init, fi[a]));
        let k = choose|k: int| 0 <= k < init.len() && init[k] == (fi[a], true);
        assert(e[k] == init[k]);
        assert(f[a] == e[k].0);
        assert(f[b] == e[e.len() - 1].0);
    }
}

/// Whether `i` is the first position of `x` in `s`.
pub open spec fn first_at(s: Seq<Seq<char>>, x: Seq<char>, i: int) -> bool {
    &&& 0 <= i < s.len()
    &&& s[i] == x
    &&& forall|j: int| 0 <= j < i ==> s[j] != x
}

/// The first position of `x` in `s`, if any.
pub open spec fn first_index(s: Seq<Seq<char>>, x: Seq<char>) -> Option<int> {
    if exists|i: int| first_at(s, x, i) {
        Some(choose|i: int| first_at(s, x, i))
    } else {
        None
    }
}

/// The first position of `x` is the one position that is first.
pub proof fn lemma_first_index(s: Seq<Seq<char>>, x: Seq<char>, i: int)
    requires
        first_at(s, x, i),
    ensures
        first_index(s, x) == Some(i),
{
    let j = choose|j: int| first_at(s, x, j);
    if j < i {
        assert(s[j] != x);
    } else if i < j {
        assert(s[i] != x);
    }
}

/// With `x` nowhere in `s`, there is no first position.
pub proof fn lemma_no_first_index(s: Seq<Seq<char>>, x: Seq<char>)
    requires
        forall|j: int| 0 <= j < s.len() ==> s[j] != x,
    ensures
        first_index(s, x) is None,
{
}

/// Where `x` occurs, there is a first position of it.
pub proof fn lemma_exists_first(s: Seq<Seq<char>>, x: Seq<char>, j: int)
    requires
        0 <= j < s.len(),
        s[j] == x,
    ensures
        exists|i: int| first_at(s, x, i),
    decreases j,
{
    if exists|k: int| 0 <= k < j && s[k] == x {
        let k = choose|k: int| 0 <= k < j && s[k] == x;
        lemma_exists_first(s, x, k);
    } else {
        assert(first_at(s, x, j));
    }
}

/// With no first position, `x` occurs nowhere in `s`.
pub proof fn lemma_first_index_none(s: Seq<Seq<char>>, x: Seq<char>)
    requires
        first_index(s, x) is None,
    ensures
        forall|j: int| 0 <= j < s.len() ==> s[j] != x,
{
    assert forall|j: int| 0 <= j < s.len() implies s[j] != x by {
        if s[j] == x {
            lemma_exists_first(s, x, j);
        }
    }
}

/// Adding `y` at the end leaves the first position of every other `x`.
pub proof fn lemma_first_index_push(s: Seq<Seq<char>>, y: Seq<char>, x: Seq<char>)
    requires
        x != y,
    ensures
        first_index(s.push(y), x) == first_index(s, x),
{
    let t = s.push(y);
    match first_index(s, x) {
        Some(i) => {
            assert(first_at(s, x, i)) by {
                assert(exists|k: int| first_at(s, x, k));
            }
            assert(first_at(t, x, i));
            lemma_first_index(t, x, i);
        },
        None => {
            lemma_first_index_none(s, x);
            assert forall|j: int| 0 <= j < t.len() implies t[j] != x by {
                if j < s.len() {
                    assert(t[j] == s[j]);
                }
            }
            lemma_no_first_index(t, x);
        },
    }
}

/// `x` added at the end of a sequence without it is first there.
pub proof fn lemma_first_index_push_new(s: Seq<Seq<char>>, x: Seq<char>)
    requires
        first_index(s, x) is None,
    ensures
        first_index(s.push(x), x) == Some(s.len() as int),
{
    lemma_first_index_none(s, x);
    let t = s.push(x);
    assert(first_at(t, x, s.len() as int)) by {
        assert forall|j: int| 0 <= j < s.len() implies t[j] != x by {
            assert(t[j] == s[j]);
        }
    }
    lemma_first_index(t, x, s.len() as int);
}

/// `x` put into `s` after every entry whose key is at least `x`'s key.
pub open spec fn insert_desc<T>(s: Seq<(u64, T)>, x: (u64, T)) -> Seq<(u64, T)>
    decreases s.len(),
{
    if s.len() == 0 {
        seq![x]
    } else if s[0].0 < x.0 {
        seq![x] + s
    } else {
        seq![s[0]] + insert_desc(s.drop_first(), x)
    }
}

/// `s` ordered by key, highest first; entries with equal keys keep their order.
pub open spec fn sort_desc<T>(s: Seq<(u64, T)>) -> Seq<(u64, T)>
    decreases s.len(),
{
    if s.len() == 0 {
        s
    } else {
        insert_desc(sort_desc(s.drop_last()), s.last())
    }
}

/// Whether the keys of `s` never rise.
pub open spec fn descending<T>(s: Seq<(u64, T)>) -> bool {
    forall|i: int, j: int| 0 <= i < j < s.len() ==> s[i].0 >= s[j].0
}

spec fn insert_place<T>(s: Seq<(u64, T)>, x: (u64, T), j: int) -> bool {
    &&& 0 <= j <= s.len()
    &&& forall|k: int| 0 <= k < j ==> s[k].0 >= x.0
    &&& j < s.len() ==> s[j].0 < x.0
}

proof fn lemma_insert_desc<T>(s: Seq<(u64, T)>, x: (u64, T), j: int)
    requires
        insert_place(s, x, j),
    ensures
        insert_desc(s, x) == s.insert(j, x),
    decreases s.len(),
{
    if s.len() == 0 {
        assert(s.insert(j, x) =~= seq![x]);
    } else if s[0].0 < x.0 {
        assert(j == 0);
        assert(s.insert(0, x) =~= seq![x] + s);
    } else {
        assert(j >= 1);
        let rest = s.drop_first();
        assert(insert_place(rest, x, j - 1)) by {
            assert forall|k: int| 0 <= k < j - 1 implies rest[k].0 >= x.0 by {
                assert(rest[k] == s[k + 1]);
            }
            if j - 1 < rest.len() {
                assert(rest[j - 1] == s[j]);
            }
        }
        lemma_insert_desc(rest, x, j - 1);
        assert(seq![s[0]] + rest.insert(j - 1, x) =~= s.insert(j, x));
    }
}

/// Orders `v` by key, highest first, keeping the order of entries with equal keys.
pub fn sort_desc_by_key<T>(v: Vec<(u64, T)>) -> (r: Vec<(u64, T)>)
    ensures
        r@ == sort_desc(v@),
{
    let ghost all = v@;
    let n = v.len();
    let mut rest = v;
    let mut out: Vec<(u64, T)> = Vec::new();
    let mut i: usize = 0;
    assert(all.take(0) =~= Seq::<(u64, T)>::empty());
    assert(all.skip(0) =~= all);
    while i < n
        invariant
            n == all.len(),
            i <= n,
            rest@ == all.skip(i as int),
            out@ == sort_desc(all.take(i as int)),
        decreases n - i,
    {
        assert(all.skip(i as int)[0] == all[i as int]);
        let x = rest.remove(0);
        assert(rest@ =~= all.skip(i + 1));
        let ghost sorted = out@;
        let mut j: usize = 0;
        while j < out.len() && out[j].0 >= x.0
            invariant
                j <= out@.len(),
                sorted == out@,
                forall|k: int| 0 <= k < j ==> sorted[k].0 >= x.0,
            decreases out@.len() - j,
        {
            j = j + 1;
        }
        proof {
            assert(insert_place(sorted, x, j as int));
            lemma_insert_desc(sorted, x, j as int);
            assert(all.take(i + 1).drop_last() =~= all.take(i as int));
            assert(all.take(i + 1).last() == all[i as int]);
        }
        out.insert(j, x);
        i = i + 1;
    }
    assert(all.take(n as int) =~= all);
    out
}

proof fn lemma_insert_desc_keeps<T>(s: Seq<(u64, T)>, x: (u64, T))
    ensures
        insert_desc(s, x).len() == s.len() + 1,
        insert_desc(s, x).contains(x),
        forall|k: int| 0 <= k < s.len() ==> insert_desc(s, x).contains(#[trigger] s[k]),
        forall|k: int| 0 <= k < insert_desc(s, x).len() ==> (#[trigger] insert_desc(s, x)[k] == x || s.contains(insert_desc(s, x)[k])),
        descending(s) ==> descending(insert_desc(s, x)),
    decreases s.len(),
{
    let r = insert_desc(s, x);
    if s.len() == 0 {
        assert(r[0] == x);
    } else if s[0].0 < x.0 {
        assert(r[0] == x);
        assert forall|k: int| 0 <= k < s.len() implies r.contains(#[trigger] s[k]) by {
            assert(r[k + 1] == s[k]);
        }
        assert forall|k: int| 0 <= k < r.len() implies (#[trigger] r[k] == x || s.contains(r[k])) by {
            if k > 0 {
                assert(r[k] == s[k - 1]);
            }
        }
    } else {
        let rest = s.drop_first();
        lemma_insert_desc_keeps(rest, x);
        let ri = insert_desc(rest, x);
        assert(r == seq![s[0]] + ri);
        let j = choose|j: int| 0 <= j < ri.len() && ri[j] == x;
        assert(r[j + 1] == x);
        assert forall|k: int| 0 <= k < s.len() implies r.contains(#[trigger] s[k]) by {
            if k == 0 {
                assert(r[0] == s[0]);
            } else {
                assert(s[k] == rest[k - 1]);
                assert(ri.contains(rest[k - 1]));
                let m = choose|m: int| 0 <= m < ri.len() && ri[m] == rest[k - 1];
                assert(r[m + 1] == s[k]);
            }
        }
        assert forall|k: int| 0 <= k < r.len() implies (#[trigger] r[k] == x || s.contains(r[k])) by {
            if k == 0 {
                assert(s[0] == r[0]);
            } else {
                assert(r[k] == ri[k - 1]);
                if ri[k - 1] != x {
                    assert(rest.contains(ri[k - 1]));
                    let m = choose|m: int| 0 <= m < rest.len() && rest[m] == ri[k - 1];
                    assert(s[m + 1] == rest[m]);
                }
            }
        }
        if descending(s) {
            assert(descending(rest)) by {
                assert forall|a: int, b: int| 0 <= a < b < rest.len() implies rest[a].0 >= rest[b].0 by {
                    assert(rest[a] == s[a + 1]);
                    assert(rest[b] == s[b + 1]);
                }
            }
            assert forall|a: int, b: int| 0 <= a < b < r.len() implies r[a].0 >= r[b].0 by {
                if a == 0 {
                    assert(r[b] == ri[b - 1]);
                    if ri[b - 1] != x {
                        let m = choose|m: int| 0 <= m < rest.len() && rest[m] == ri[b - 1];
                        assert(s[m + 1] == rest[m]);
                    }
                } else {
                    assert(r[a] == ri[a - 1]);
                    assert(r[b] == ri[b - 1]);
                }
            }
        }
    }
}

/// Ordering by key keeps every entry and the length, and the keys then never rise.
pub proof fn lemma_sort_desc<T>(s: Seq<(u64, T)>)
    ensures
        sort_desc(s).len() == s.len(),
        descending(sort_desc(s)),
        forall|k: int| 0 <= k < s.len() ==> sort_desc(s).contains(#[trigger] s[k]),
        forall|k: int| 0 <= k < sort_desc(s).len() ==> s.contains(#[trigger] sort_desc(s)[k]),
    decreases s.len(),
{
    if s.len() > 0 {
        let init = s.drop_last();
        lemma_sort_desc(init);
        let si = sort_desc(init);
        lemma_insert_desc_keeps(si, s.last());
        assert forall|k: int| 0 <= k < s.len() implies sort_desc(s).contains(#[trigger] s[k]) by {
            if k < init.len() {
                assert(s[k] == init[k]);
                let m = choose|m: int| 0 <= m < si.len() && si[m] == init[k];
                assert(insert_desc(si, s.last()).contains(si[m]));
            }
        }
        assert forall|k: int| 0 <= k < sort_desc(s).len() implies s.contains(#[trigger] sort_desc(s)[k]) by {
            let r = sort_desc(s);
            if r[k] == s.last() {
                assert(s[s.len() - 1] == s.last());
            } else {
                assert(si.contains(r[k]));
                let m = choose|m: int| 0 <= m < si.len() && si[m] == r[k];
                assert(init.contains(si[m]));
                let q = choose|q: int| 0 <= q < init.len() && init[q] == si[m];
                assert(s[q] == init[q]);
            }
        }
    }
}

} // verus!
