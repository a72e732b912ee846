//! Tags: texts filed under text keys, one value per key, as traces, spans and
//! trace errors carry them.
use vstd::prelude::*;
use crate::listing::{
    first_at, first_index, lemma_first_index, lemma_first_index_none, lemma_first_index_push,
    lemma_first_index_push_new, lemma_no_first_index,
};

verus! {

/// The keys of a list of tag entries, in order.
pub open spec fn tag_keys(s: Seq<(String, String)>) -> Seq<Seq<char>> {
    s.map_values(|e: (String, String)| e.0@)
}

/// The map of a list of tag entries: each key to the value of its first entry.
pub open spec fn tag_map(s: Seq<(String, String)>) -> Map<Seq<char>, Seq<char>> {
    Map::new(
        |k: Seq<char>| first_index(tag_keys(s), k) is Some,
        |k: Seq<char>| s[first_index(tag_keys(s), k)->0].1@,
    )
}

/// Adding an entry under a new key adds that key and value to the map.
proof fn lemma_tag_map_push(s: Seq<(String, String)>, e: (String, String))
    requires
        first_index(tag_keys(s), e.0@) is None,
    ensures
        tag_map(s.push(e)) == tag_map(s).insert(e.0@, e.1@),
        tag_keys(s.push(e)) == tag_keys(s).push(e.0@),
{
    let t = s.push(e);
    assert(tag_keys(t) =~= tag_keys(s).push(e.0@));
    lemma_first_index_push_new(tag_keys(s), e.0@);
    assert forall|k: Seq<char>| k != e.0@ implies #[trigger] first_index(tag_keys(t), k) == first_index(tag_keys(s), k) by {
        lemma_first_index_push(tag_keys(s), e.0@, k);
    }
    assert forall|k: Seq<char>| #[trigger] tag_map(t).contains_key(k) && k != e.0@ implies tag_map(t)[k] == tag_map(s)[k] by {
        let j = first_index(tag_keys(s), k)->0;
        assert(first_at(tag_keys(s), k, j)) by {
            assert(exists|x: int| first_at(tag_keys(s), k, x));
        }
        assert(t[j] == s[j]);
    }
    assert(tag_map(t) =~= tag_map(s).insert(e.0@, e.1@));
}

/// Texts filed under text keys, one value per key, kept in the order their
/// keys were first added.
#[derive(Debug)]
pub struct Tags {
    entries: Vec<(String, String)>,
}

impl Tags {
    /// No key occurs twice.
    #[verifier::type_invariant]
    spec fn keys_unique(self) -> bool {
        tag_keys(self.entries@).no_duplicates()
    }
}

impl View for Tags {
    type V = Map<Seq<char>, Seq<char>>;

    closed spec fn view(&self) -> Map<Seq<char>, Seq<char>> {
        tag_map(self.entries@)
    }
}

/// The position of the first entry under `key`, if any.
fn position_of(entries: &Vec<(String, String)>, key: &str) -> (r: Option<usize>)
    ensures
        match r {
            Some(i) => first_at(tag_keys(entries@), key@, i as int)
                && first_index(tag_keys(entries@), key@) == Some(i as int),
            None => first_index(tag_keys(entries@), key@) is None,
        },
{
    let ghost keys = tag_keys(entries@);
    let mut i: usize = 0;
    while i < entries.len()
        invariant
            keys == tag_keys(entries@),
            i <= entries@.len(),
            forall|j: int| 0 <= j < i ==> keys[j] != key@,
        decreases entries@.len() - i,
    {
        if crate::text::same_text(entries[i].0.as_str(), key) {
            proof {
                assert(first_at(keys, key@, i as int));
                lemma_first_index(keys, key@, i as int);
            }
            return Some(i);
        }
        i = i + 1;
    }
    proof {
        lemma_no_first_index(keys, key@);
    }
    None
}

impl Tags {
    /// No tags.
    pub fn new() -> (r: Self)
        ensures
            r@ == Map::<Seq<char>, Seq<char>>::empty(),
    {
        let r = Tags { entries: Vec::new() };
        assert(r@ =~= Map::<Seq<char>, Seq<char>>::empty());
        r
    }

    /// Files `value` under `key`, in place of the value filed there before.
    pub fn insert(&mut self, key: String, value: String)
        ensures
            final(self)@ == old(self)@.insert(key@, value@),
    {
        proof {
            use_type_invariant(&*self);
        }
        let ghost before = self.entries@;
        let mut entries: Vec<(String, String)> = Vec::new();
        std::mem::swap(&mut entries, &mut self.entries);
        match position_of(&entries, key.as_str()) {
            Some(i) => {
                let ghost k = key@;
                let ghost v = value@;
                entries.set(i, (key, value));
                proof {
                    let after = entries@;
                    assert(tag_keys(after) =~= tag_keys(before));
                    assert forall|x: Seq<char>| #[trigger] tag_map(after).contains_key(x) && x != k
                        implies tag_map(after)[x] == tag_map(before)[x] by {
                        let j = first_index(tag_keys(before), x)->0;
                        assert(first_at(tag_keys(before), x, j)) by {
                            assert(exists|y: int| first_at(tag_keys(before), x, y));
                        }
                        assert(j != i);
                    }
                    assert(tag_map(after) =~= tag_map(before).insert(k, v));
                }
            },
            None => {
                let ghost e = (key, value);
                proof {
                    lemma_tag_map_push(before, e);
                    lemma_first_index_none(tag_keys(before), key@);
                }
                entries.push((key, value));
                proof {
                    assert(entries@ == before.push(e));
                    assert forall|a: int, b: int| 0 <= a < b < tag_keys(entries@).len()
                        implies tag_keys(entries@)[a] != tag_keys(entries@)[b] by {
                        if b == before.len() {
                            assert(tag_keys(before)[a] != e.0@);
                        } else {
                            assert(tag_keys(before)[a] != tag_keys(before)[b]);
                        }
                    }
                }
            },
        }
        self.entries = entries;
    }

    /// The value filed under `key`, if any.
    pub fn get(&self, key: &str) -> (r: Option<&String>)
        ensures
            r is Some <==> self@.contains_key(key@),
            r matches Some(v) ==> v@ == self@[key@],
    {
        match position_of(&self.entries, key) {
            Some(i) => Some(&self.entries[i].1),
            None => None,
        }
    }

    /// Files every tag of `other` here, in place of the values filed under
    /// the same keys.
    pub fn extend(&mut self, other: Tags)
        ensures
            final(self)@ == old(self)@.union_prefer_right(other@),
    {
        proof {
            use_type_invariant(&other);
        }
        let ghost start = self@;
        let ghost all = other.entries@;
        let mut i: usize = 0;
        while i < other.entries.len()
            invariant
                all == other.entries@,
                tag_keys(all).no_duplicates(),
                i <= all.len(),
                self@ == start.union_prefer_right(tag_map(all.take(i as int))),
            decreases all.len() - i,
        {
            let key = other.entries[i].0.clone();
            let value = other.entries[i].1.clone();
            proof {
                let pre = all.take(i as int);
                assert(all.take(i + 1) == pre.push(all[i as int]));
                assert forall|j: int| 0 <= j < tag_keys(pre).len() implies tag_keys(pre)[j] != all[i as int].0@ by {
                    assert(tag_keys(all)[j] != tag_keys(all)[i as int]);
                }
                lemma_no_first_index(tag_keys(pre), all[i as int].0@);
                lemma_tag_map_push(pre, all[i as int]);
            }
            self.insert(key, value);
            proof {
                let pre = all.take(i as int);
                assert(self@ =~= start.union_prefer_right(tag_map(pre).insert(all[i as int].0@, all[i as int].1@)));
            }
            i = i + 1;
        }
        proof {
            assert(all.take(all.len() as int) =~= all);
        }
    }
}

impl Clone for Tags {
    fn clone(&self) -> (r: Self)
        ensures
            r@ == self@,
    {
        proof {
            use_type_invariant(self);
        }
        let mut out: Vec<(String, String)> = Vec::new();
        let mut i: usize = 0;
        while i < self.entries.len()
            invariant
                i <= self.entries@.len(),
                out@ == self.entries@.take(i as int),
            decreases self.entries@.len() - i,
        {
            out.push((self.entries[i].0.clone(), self.entries[i].1.clone()));
            i = i + 1;
            assert(out@ =~= self.entries@.take(i as int));
        }
        assert(self.entries@.take(i as int) =~= self.entries@);
        Tags { entries: out }
    }
}

impl Default for Tags {
    fn default() -> (r: Self)
        ensures
            r@ == Map::<Seq<char>, Seq<char>>::empty(),
    {
        Tags::new()
    }
}

} // verus!
