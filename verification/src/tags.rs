//! The tag store: an unordered mapping from tag key to tag value, one per
//! record. It is backed by a sequence of entries whose keys stay pairwise
//! distinct, so the store is a mapping and never a multimap; iteration
//! order is unspecified.

use vstd::prelude::*;

verus! {

/// The ghost entries that a sequence of owned key/value pairs stands for.
pub open spec fn entries_view(es: Seq<(String, String)>) -> Seq<(Seq<char>, Seq<char>)> {
    Seq::new(es.len(), |i: int| (es[i].0@, es[i].1@))
}

/// The keys of a tag-entry sequence are pairwise distinct.
pub open spec fn keys_distinct(s: Seq<(Seq<char>, Seq<char>)>) -> bool {
    forall|i: int, j: int| 0 <= i < j < s.len() ==> (#[trigger] s[i]).0 != (#[trigger] s[j]).0
}

/// Some entry of the sequence carries the key.
pub open spec fn has_key(s: Seq<(Seq<char>, Seq<char>)>, k: Seq<char>) -> bool {
    exists|i: int| 0 <= i < s.len() && (#[trigger] s[i]).0 == k
}

/// The mapping that a tag-entry sequence stands for; on duplicate keys the
/// later entry wins (the store never holds duplicates).
pub open spec fn map_of(s: Seq<(Seq<char>, Seq<char>)>) -> Map<Seq<char>, Seq<char>>
    decreases s.len(),
{
    if s.len() == 0 {
        Map::<Seq<char>, Seq<char>>::empty()
    } else {
        map_of(s.drop_last()).insert(s.last().0, s.last().1)
    }
}

/// The mapping of a tag-entry sequence contains exactly the keys of its
/// entries, and under distinct keys each entry's key maps to its value.
pub proof fn lemma_map_of_props(s: Seq<(Seq<char>, Seq<char>)>)
    ensures
        forall|k: Seq<char>| #[trigger] map_of(s).contains_key(k) <==> has_key(s, k),
        keys_distinct(s) ==> forall|i: int|
            0 <= i < s.len() ==> map_of(s).contains_key((#[trigger] s[i]).0) && map_of(s)[s[i].0]
                == s[i].1,
    decreases s.len(),
{
    if s.len() == 0 {
    } else {
        let dl = s.drop_last();
        lemma_map_of_props(dl);
        assert(forall|i: int| 0 <= i < dl.len() ==> dl[i] == s[i]);
        assert forall|k: Seq<char>| #[trigger] map_of(s).contains_key(k) <==> has_key(s, k) by {
            if map_of(s).contains_key(k) {
                if k == s.last().0 {
                    assert(s[s.len() - 1].0 == k);
                } else {
                    assert(map_of(dl).contains_key(k));
                    let i = choose|i: int| 0 <= i < dl.len() && dl[i].0 == k;
                    assert(s[i].0 == k);
                }
            }
            if has_key(s, k) {
                let i = choose|i: int| 0 <= i < s.len() && s[i].0 == k;
                if i == s.len() - 1 {
                    assert(map_of(s).contains_key(k));
                } else {
                    assert(dl[i].0 == k);
                    assert(has_key(dl, k));
                    assert(map_of(dl).contains_key(k));
                }
            }
        }
        if keys_distinct(s) {
            assert forall|i: int| 0 <= i < s.len() implies map_of(s).contains_key(
                (#[trigger] s[i]).0,
            ) && map_of(s)[s[i].0] == s[i].1 by {
                if i < s.len() - 1 {
                    assert(s[i].0 != s[s.len() - 1].0);
                    assert(map_of(dl)[dl[i].0] == dl[i].1);
                }
            }
        }
    }
}

/// Appending an entry updates the mapping at the entry's key.
pub proof fn lemma_map_of_push(s: Seq<(Seq<char>, Seq<char>)>, k: Seq<char>, v: Seq<char>)
    ensures
        map_of(s.push((k, v))) == map_of(s).insert(k, v),
{
    let t = s.push((k, v));
    assert(t.drop_last() =~= s);
    assert(t.last() == (k, v));
}

/// Removing the one entry that carries a key removes that key from the
/// mapping and keeps the remaining keys distinct.
pub proof fn lemma_map_of_remove(s: Seq<(Seq<char>, Seq<char>)>, i: int)
    requires
        keys_distinct(s),
        0 <= i < s.len(),
    ensures
        keys_distinct(s.remove(i)),
        !has_key(s.remove(i), s[i].0),
        map_of(s.remove(i)) == map_of(s).remove(s[i].0),
{
    let t = s.remove(i);
    s.remove_ensures(i);
    assert forall|p: int, q: int| 0 <= p < q < t.len() implies (#[trigger] t[p]).0 != (
    #[trigger] t[q]).0 by {
        let sp = if p < i {
            p
        } else {
            p + 1
        };
        let sq = if q < i {
            q
        } else {
            q + 1
        };
        assert(t[p] == s[sp]);
        assert(t[q] == s[sq]);
        assert(s[sp].0 != s[sq].0);
    }
    assert(!has_key(t, s[i].0)) by {
        if has_key(t, s[i].0) {
            let j = choose|j: int| 0 <= j < t.len() && t[j].0 == s[i].0;
            let sj = if j < i {
                j
            } else {
                j + 1
            };
            assert(t[j] == s[sj]);
            if sj < i {
                assert(s[sj].0 != s[i].0);
            } else {
                assert(s[i].0 != s[sj].0);
            }
        }
    }
    lemma_map_of_props(s);
    lemma_map_of_props(t);
    let m = map_of(s).remove(s[i].0);
    assert forall|k: Seq<char>| #[trigger] map_of(t).contains_key(k) <==> m.contains_key(k) by {
        if map_of(t).contains_key(k) {
            let j = choose|j: int| 0 <= j < t.len() && t[j].0 == k;
            let sj = if j < i {
                j
            } else {
                j + 1
            };
            assert(t[j] == s[sj]);
            assert(s[sj].0 == k);
            assert(has_key(s, k));
            assert(k != s[i].0);
        }
        if m.contains_key(k) {
            assert(map_of(s).contains_key(k) && k != s[i].0);
            let j = choose|j: int| 0 <= j < s.len() && s[j].0 == k;
            assert(j != i);
            let tj = if j < i {
                j
            } else {
                j - 1
            };
            assert(t[tj] == s[j]);
            assert(has_key(t, k));
        }
    }
    assert forall|k: Seq<char>| #[trigger] map_of(t).contains_key(k) implies map_of(t)[k] == m[k] by {
        let j = choose|j: int| 0 <= j < t.len() && t[j].0 == k;
        assert(map_of(t)[t[j].0] == t[j].1);
        let sj = if j < i {
            j
        } else {
            j + 1
        };
        assert(t[j] == s[sj]);
        assert(map_of(s)[s[sj].0] == s[sj].1);
        assert(k != s[i].0);
    }
    assert(map_of(t) =~= m);
}

/// Appending an entry whose key is absent keeps the keys distinct.
proof fn lemma_distinct_push(s: Seq<(Seq<char>, Seq<char>)>, k: Seq<char>, v: Seq<char>)
    requires
        keys_distinct(s),
        !has_key(s, k),
    ensures
        keys_distinct(s.push((k, v))),
{
    let t = s.push((k, v));
    assert forall|p: int, q: int| 0 <= p < q < t.len() implies (#[trigger] t[p]).0 != (
    #[trigger] t[q]).0 by {
        if q < s.len() {
            assert(t[p] == s[p]);
            assert(t[q] == s[q]);
        } else {
            assert(t[p] == s[p]);
            assert(t[q] == (k, v));
            if s[p].0 == k {
                assert(has_key(s, k));
            }
        }
    }
}

/// Pushing a pair appends its ghost entry.
proof fn lemma_entries_view_push(es: Seq<(String, String)>, p: (String, String))
    ensures
        entries_view(es.push(p)) == entries_view(es).push((p.0@, p.1@)),
{
    let a = entries_view(es.push(p));
    let b = entries_view(es).push((p.0@, p.1@));
    assert forall|i: int| 0 <= i < a.len() implies a[i] == b[i] by {
        if i < es.len() {
            assert(es.push(p)[i] == es[i]);
        } else {
            assert(es.push(p)[i] == p);
        }
    }
    assert(a =~= b);
}

/// Removing a pair removes its ghost entry.
proof fn lemma_entries_view_remove(es: Seq<(String, String)>, i: int)
    requires
        0 <= i < es.len(),
    ensures
        entries_view(es.remove(i)) == entries_view(es).remove(i),
{
    let a = entries_view(es.remove(i));
    let b = entries_view(es).remove(i);
    es.remove_ensures(i);
    entries_view(es).remove_ensures(i);
    assert forall|j: int| 0 <= j < a.len() implies a[j] == b[j] by {
        if j < i {
            assert(es.remove(i)[j] == es[j]);
            assert(entries_view(es).remove(i)[j] == entries_view(es)[j]);
        } else {
            assert(es.remove(i)[j] == es[j + 1]);
            assert(entries_view(es).remove(i)[j] == entries_view(es)[j + 1]);
        }
    }
    assert(a =~= b);
}

/// An unordered key-to-value store of owned strings with unique keys.
pub struct TagMap {
    entries: Vec<(String, String)>,
}

impl View for TagMap {
    type V = Seq<(Seq<char>, Seq<char>)>;

    closed spec fn view(&self) -> Seq<(Seq<char>, Seq<char>)> {
        entries_view(self.entries@)
    }
}

impl TagMap {
    /// Keys stay pairwise distinct: the store is a mapping, never a multimap.
    #[verifier::type_invariant]
    spec fn wf(self) -> bool {
        keys_distinct(self@)
    }

    /// An empty tag store.
    pub fn new() -> (r: TagMap)
        ensures
            r@ == Seq::<(Seq<char>, Seq<char>)>::empty(),
    {
        let entries: Vec<(String, String)> = Vec::new();
        let r = TagMap { entries };
        proof {
            assert(r@ =~= Seq::<(Seq<char>, Seq<char>)>::empty());
        }
        r
    }

    /// The index of the entry carrying the key, if one does.
    fn index_of(&self, key: &str) -> (r: Option<usize>)
        ensures
            match r {
                Some(i) => i < self@.len() && self@[i as int].0 == key@,
                None => !has_key(self@, key@),
            },
    {
        let owned: String = key.to_owned();
        let n: usize = self.entries.len();
        let mut i: usize = 0;
        while i < n
            invariant
                n == self.entries@.len(),
                owned@ == key@,
                i <= n,
                forall|j: int| 0 <= j < i ==> (#[trigger] self@[j]).0 != key@,
            decreases n - i,
        {
            if self.entries[i].0 == owned {
                assert(self@[i as int].0 == key@);
                return Some(i);
            }
            i += 1;
        }
        proof {
            if has_key(self@, key@) {
                let j = choose|j: int| 0 <= j < self@.len() && self@[j].0 == key@;
                assert(false);
            }
        }
        None
    }

    /// Exact-match lookup of a value by key; an absent key is reported as
    /// absent, never as an error.
    pub fn get(&self, key: &str) -> (r: Option<&str>)
        ensures
            match r {
                Some(v) => map_of(self@).contains_key(key@) && v@ == map_of(self@)[key@],
                None => !map_of(self@).contains_key(key@),
            },
    {
        proof {
            use_type_invariant(&*self);
            lemma_map_of_props(self@);
        }
        match self.index_of(key) {
            Some(i) => {
                let v: &str = self.entries[i].1.as_str();
                assert(map_of(self@)[key@] == self@[i as int].1);
                Some(v)
            },
            None => None,
        }
    }

    /// Inserts or overwrites: afterwards the store maps `key` to `value`
    /// and every other key to what it mapped to before.
    pub fn insert(&mut self, key: &str, value: &str)
        ensures
            map_of(final(self)@) == map_of(old(self)@).insert(key@, value@),
            keys_distinct(final(self)@),
    {
        proof {
            use_type_invariant(&*self);
        }
        let idx = self.index_of(key);
        let ghost before = self@;
        let pair = (key.to_owned(), value.to_owned());
        let ghost gpair = pair;
        let mut es: Vec<(String, String)> = Vec::new();
        std::mem::swap(&mut es, &mut self.entries);
        match idx {
            Some(i) => {
                let _replaced = es.remove(i);
                es.push(pair);
                proof {
                    let mid = before.remove(i as int);
                    lemma_entries_view_remove(old(self).entries@, i as int);
                    lemma_map_of_remove(before, i as int);
                    lemma_entries_view_push(old(self).entries@.remove(i as int), gpair);
                    lemma_distinct_push(mid, key@, value@);
                    lemma_map_of_push(mid, key@, value@);
                    assert(entries_view(es@) == mid.push((key@, value@)));
                    assert(map_of(before).remove(key@).insert(key@, value@) =~= map_of(
                        before,
                    ).insert(key@, value@));
                }
            },
            None => {
                es.push(pair);
                proof {
                    lemma_entries_view_push(old(self).entries@, gpair);
                    lemma_distinct_push(before, key@, value@);
                    lemma_map_of_push(before, key@, value@);
                }
            },
        }
        std::mem::swap(&mut es, &mut self.entries);
    }

    /// Removes a key if one is stored; an absent key is no error and the
    /// store is left as it was.
    pub fn remove(&mut self, key: &str)
        ensures
            map_of(final(self)@) == map_of(old(self)@).remove(key@),
            keys_distinct(final(self)@),
    {
        proof {
            use_type_invariant(&*self);
        }
        let idx = self.index_of(key);
        match idx {
            Some(i) => {
                let ghost before = self@;
                let mut es: Vec<(String, String)> = Vec::new();
                std::mem::swap(&mut es, &mut self.entries);
                let _removed = es.remove(i);
                proof {
                    lemma_entries_view_remove(old(self).entries@, i as int);
                    lemma_map_of_remove(before, i as int);
                }
                std::mem::swap(&mut es, &mut self.entries);
            },
            None => {
                proof {
                    lemma_map_of_props(self@);
                    assert(map_of(self@).remove(key@) =~= map_of(self@));
                }
            },
        }
    }

    /// Read-only access to the entries: finite, re-iterable, order
    /// unspecified.
    pub fn entries(&self) -> (r: &Vec<(String, String)>)
        ensures
            entries_view(r@) == self@,
            keys_distinct(self@),
    {
        proof {
            use_type_invariant(&*self);
        }
        &self.entries
    }
}

} // verus!
