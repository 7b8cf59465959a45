//! A string-keyed record store, the crate's model of one external store: a
//! registry hive holding one record per key path, or a folder holding one
//! file per path.
//!
//! The store is a vector of key/record pairs with distinct keys, viewed as a
//! `Map` from key characters to record views. Every operation is proved to
//! act on that map exactly as the corresponding create, read or
//! delete-subtree operation of the external store acts on its records.

use vstd::prelude::*;

verus! {

/// The map that a sequence of key/record pairs denotes; a later pair with the
/// same key would shadow an earlier one, though stores keep keys distinct.
spec fn entries_map<V: View>(entries: Seq<(String, V)>) -> Map<Seq<char>, V::V>
    decreases entries.len(),
{
    if entries.len() == 0 {
        Map::empty()
    } else {
        entries_map(entries.drop_last()).insert(entries.last().0@, entries.last().1@)
    }
}

/// No two pairs share a key.
spec fn distinct_keys<V>(entries: Seq<(String, V)>) -> bool {
    forall|i: int, j: int| 0 <= i < j < entries.len() ==> entries[i].0@ != entries[j].0@
}

/// A key is in the denoted map exactly when some pair holds it.
proof fn lemma_entries_map_domain<V: View>(entries: Seq<(String, V)>, k: Seq<char>)
    ensures
        entries_map(entries).contains_key(k) <==> exists|i: int|
            0 <= i < entries.len() && #[trigger] entries[i].0@ == k,
    decreases entries.len(),
{
    if entries.len() > 0 {
        lemma_entries_map_domain(entries.drop_last(), k);
        if entries.last().0@ == k {
            assert(entries[entries.len() - 1].0@ == k);
        } else {
            assert forall|i: int| 0 <= i < entries.drop_last().len() && #[trigger] entries.drop_last()[i].0@ == k implies
                entries[i].0@ == k by {}
            assert forall|i: int| 0 <= i < entries.len() && #[trigger] entries[i].0@ == k implies
                0 <= i < entries.drop_last().len() && entries.drop_last()[i].0@ == k by {}
        }
    }
}

/// With distinct keys, the pair at any index is what the denoted map holds
/// for its key.
proof fn lemma_entries_map_at<V: View>(entries: Seq<(String, V)>, i: int)
    requires
        distinct_keys(entries),
        0 <= i < entries.len(),
    ensures
        entries_map(entries).contains_key(entries[i].0@),
        entries_map(entries)[entries[i].0@] == entries[i].1@,
    decreases entries.len(),
{
    if i < entries.len() - 1 {
        assert(distinct_keys(entries.drop_last())) by {
            assert forall|a: int, b: int|
                0 <= a < b < entries.drop_last().len() implies #[trigger] entries.drop_last()[a].0@
                != #[trigger] entries.drop_last()[b].0@ by {
                assert(entries[a].0@ != entries[b].0@);
            }
        }
        lemma_entries_map_at(entries.drop_last(), i);
        assert(entries.drop_last()[i] == entries[i]);
        assert(entries.last().0@ != entries[i].0@);
    }
}

/// Appending a pair inserts its record into the denoted map.
proof fn lemma_entries_map_push<V: View>(entries: Seq<(String, V)>, p: (String, V))
    ensures
        entries_map(entries.push(p)) == entries_map(entries).insert(p.0@, p.1@),
{
    assert(entries.push(p).drop_last() =~= entries);
    assert(entries.push(p).last() == p);
}

/// With distinct keys, removing the pair at an index removes its key from
/// the denoted map.
proof fn lemma_entries_map_remove<V: View>(entries: Seq<(String, V)>, i: int)
    requires
        distinct_keys(entries),
        0 <= i < entries.len(),
    ensures
        entries_map(entries.remove(i)) =~= entries_map(entries).remove(entries[i].0@),
    decreases entries.len(),
{
    let k = entries[i].0@;
    entries.remove_ensures(i);
    if i == entries.len() - 1 {
        assert(entries.remove(i) =~= entries.drop_last());
        lemma_entries_map_domain(entries.drop_last(), k);
        assert forall|j: int| 0 <= j < entries.drop_last().len() implies #[trigger] entries.drop_last()[j].0@
            != k by {
            assert(entries[j].0@ != entries[entries.len() - 1].0@);
        }
        assert(!entries_map(entries.drop_last()).contains_key(k));
        assert(entries_map(entries.drop_last()).insert(k, entries.last().1@).remove(k)
            =~= entries_map(entries.drop_last()));
    } else {
        let shorter = entries.drop_last();
        assert(distinct_keys(shorter)) by {
            assert forall|a: int, b: int| 0 <= a < b < shorter.len() implies #[trigger] shorter[a].0@
                != #[trigger] shorter[b].0@ by {
                assert(entries[a].0@ != entries[b].0@);
            }
        }
        lemma_entries_map_remove(shorter, i);
        assert(entries.remove(i).drop_last() =~= shorter.remove(i)) by {
            shorter.remove_ensures(i);
        }
        assert(entries.remove(i).last() == entries.last());
        let last_k = entries.last().0@;
        let last_v = entries.last().1@;
        assert(entries_map(entries.remove(i)) == entries_map(shorter.remove(i)).insert(
            last_k,
            last_v,
        ));
        assert(k != last_k) by {
            assert(entries[i].0@ != entries[entries.len() - 1].0@);
        }
        assert(entries_map(shorter).remove(k).insert(last_k, last_v) =~= entries_map(
            shorter,
        ).insert(last_k, last_v).remove(k));
    }
}

/// A store of records, one per string key, modelling an external key-value
/// store under the operations registration needs: lookup, create-or-replace,
/// and delete.
pub struct StringMap<V> {
    entries: Vec<(String, V)>,
}

impl<V: View> View for StringMap<V> {
    type V = Map<Seq<char>, V::V>;

    closed spec fn view(&self) -> Map<Seq<char>, V::V> {
        entries_map(self.entries@)
    }
}

impl<V: View> StringMap<V> {
    /// The store's keys are distinct; constructors establish this and every
    /// operation preserves it.
    pub closed spec fn wf(&self) -> bool {
        distinct_keys(self.entries@)
    }

    /// An empty store.
    pub fn new() -> (r: Self)
        ensures
            r.wf(),
            r@ == Map::<Seq<char>, V::V>::empty(),
    {
        StringMap { entries: Vec::new() }
    }

    /// The position of the pair holding a key, if any.
    fn position_of(&self, key: &String) -> (r: Option<usize>)
        requires
            self.wf(),
        ensures
            match r {
                Some(i) => i < self.entries@.len() && self.entries@[i as int].0@ == key@,
                None => !self@.contains_key(key@),
            },
    {
        let n = self.entries.len();
        let mut i: usize = 0;
        while i < n
            invariant
                n == self.entries@.len(),
                i <= n,
                forall|j: int| 0 <= j < i ==> #[trigger] self.entries@[j].0@ != key@,
            decreases n - i,
        {
            if self.entries[i].0 == *key {
                return Some(i);
            }
            i = i + 1;
        }
        proof {
            lemma_entries_map_domain(self.entries@, key@);
        }
        None
    }

    /// Whether a record exists under a key.
    pub fn contains(&self, key: &String) -> (r: bool)
        requires
            self.wf(),
        ensures
            r == self@.contains_key(key@),
    {
        match self.position_of(key) {
            Some(i) => {
                proof {
                    lemma_entries_map_at(self.entries@, i as int);
                }
                true
            },
            None => false,
        }
    }

    /// The record under a key, if any.
    pub fn get(&self, key: &String) -> (r: Option<&V>)
        requires
            self.wf(),
        ensures
            match r {
                Some(v) => self@.contains_key(key@) && v@ == self@[key@],
                None => !self@.contains_key(key@),
            },
    {
        match self.position_of(key) {
            Some(i) => {
                proof {
                    lemma_entries_map_at(self.entries@, i as int);
                }
                Some(&self.entries[i].1)
            },
            None => None,
        }
    }

    /// Creates the record under a key, replacing any record already there.
    pub fn insert(&mut self, key: String, value: V)
        requires
            old(self).wf(),
        ensures
            final(self).wf(),
            final(self)@ == old(self)@.insert(key@, value@),
    {
        let ghost pre = self.entries@;
        match self.position_of(&key) {
            Some(i) => {
                self.entries.remove(i);
                proof {
                    lemma_entries_map_remove(pre, i as int);
                    pre.remove_ensures(i as int);
                    assert(distinct_keys(self.entries@)) by {
                        assert forall|a: int, b: int|
                            0 <= a < b < self.entries@.len() implies #[trigger] self.entries@[a].0@
                            != #[trigger] self.entries@[b].0@ by {
                            let pa: int = if a < i { a } else { a + 1 };
                            let pb: int = if b < i { b } else { b + 1 };
                            assert(pre[pa].0@ != pre[pb].0@);
                        }
                    }
                }
            },
            None => {},
        }
        let ghost mid = self.entries@;
        proof {
            lemma_entries_map_domain(mid, key@);
        }
        self.entries.push((key, value));
        proof {
            lemma_entries_map_push(mid, (key, value));
            assert(distinct_keys(self.entries@)) by {
                assert forall|a: int, b: int|
                    0 <= a < b < self.entries@.len() implies #[trigger] self.entries@[a].0@
                    != #[trigger] self.entries@[b].0@ by {
                    if b == self.entries@.len() - 1 {
                        assert(mid[a].0@ != key@);
                    } else {
                        assert(mid[a].0@ != mid[b].0@);
                    }
                }
            }
            assert(self@ =~= old(self)@.insert(key@, value@));
        }
    }

    /// Deletes the record under a key; reports whether one was there.
    pub fn remove(&mut self, key: &String) -> (r: bool)
        requires
            old(self).wf(),
        ensures
            final(self).wf(),
            r == old(self)@.contains_key(key@),
            final(self)@ == old(self)@.remove(key@),
    {
        let ghost pre = self.entries@;
        match self.position_of(key) {
            Some(i) => {
                proof {
                    lemma_entries_map_at(pre, i as int);
                }
                self.entries.remove(i);
                proof {
                    lemma_entries_map_remove(pre, i as int);
                    pre.remove_ensures(i as int);
                    assert(distinct_keys(self.entries@)) by {
                        assert forall|a: int, b: int|
                            0 <= a < b < self.entries@.len() implies #[trigger] self.entries@[a].0@
                            != #[trigger] self.entries@[b].0@ by {
                            let pa: int = if a < i { a } else { a + 1 };
                            let pb: int = if b < i { b } else { b + 1 };
                            assert(pre[pa].0@ != pre[pb].0@);
                        }
                    }
                }
                true
            },
            None => {
                proof {
                    assert(self@ =~= old(self)@.remove(key@));
                }
                false
            },
        }
    }
}

} // verus!
