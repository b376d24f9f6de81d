//! A map from strings to values that keeps its entries in insertion order.

use vstd::prelude::*;
use crate::text::str_eq;

verus! {

/// Whether no key occurs twice in `ps`.
pub open spec fn distinct_keys<V>(ps: Seq<(Seq<char>, V)>) -> bool {
    forall|i: int, j: int| 0 <= i < ps.len() && 0 <= j < ps.len() && i != j ==> #[trigger] ps[i].0 != #[trigger] ps[j].0
}

/// Whether `k` is a key of `ps`.
pub open spec fn has_key<V>(ps: Seq<(Seq<char>, V)>, k: Seq<char>) -> bool {
    exists|i: int| 0 <= i < ps.len() && #[trigger] ps[i].0 == k
}

/// The position of the key `k` in `ps`, where it is a key.
pub open spec fn key_index<V>(ps: Seq<(Seq<char>, V)>, k: Seq<char>) -> int {
    choose|i: int| 0 <= i < ps.len() && #[trigger] ps[i].0 == k
}

/// The value stored under `k` in `ps`, if any.
pub open spec fn lookup<V>(ps: Seq<(Seq<char>, V)>, k: Seq<char>) -> Option<V> {
    if has_key(ps, k) {
        Some(ps[key_index(ps, k)].1)
    } else {
        None
    }
}

/// `ps` with `v` stored under `k`: an existing entry keeps its place and takes
/// the new value; a new key goes last.
pub open spec fn insert_entry<V>(ps: Seq<(Seq<char>, V)>, k: Seq<char>, v: V) -> Seq<(Seq<char>, V)> {
    if has_key(ps, k) {
        ps.update(key_index(ps, k), (k, v))
    } else {
        ps.push((k, v))
    }
}

/// A value that can be copied into an equal one.
pub trait Duplicate: Sized {
    fn duplicate(&self) -> (r: Self)
        ensures
            r == *self;
}

impl Duplicate for String {
    fn duplicate(&self) -> (r: Self)
        ensures
            r == *self,
    {
        self.clone()
    }
}

/// Reading back a key just stored gives the stored value, every other key
/// keeps its value, and no key comes to occur twice.
pub proof fn lemma_lookup_insert<V>(ps: Seq<(Seq<char>, V)>, k: Seq<char>, v: V, other: Seq<char>)
    requires
        distinct_keys(ps),
    ensures
        distinct_keys(insert_entry(ps, k, v)),
        lookup(insert_entry(ps, k, v), k) == Some(v),
        other != k ==> lookup(insert_entry(ps, k, v), other) == lookup(ps, other),
{
    let qs = insert_entry(ps, k, v);
    if has_key(ps, k) {
        let i = key_index(ps, k);
        assert(qs[i].0 == k);
        assert forall|a: int, b: int| 0 <= a < qs.len() && 0 <= b < qs.len() && a != b implies #[trigger] qs[a].0 != #[trigger] qs[b].0 by {
            if a != i && b != i {
                assert(qs[a] == ps[a] && qs[b] == ps[b]);
            } else if a == i {
                assert(qs[b] == ps[b]);
            } else {
                assert(qs[a] == ps[a]);
            }
        }
        assert(has_key(qs, k));
        let j = key_index(qs, k);
        assert(qs[j].0 == k);
        if other != k {
            if has_key(ps, other) {
                let m = key_index(ps, other);
                assert(m != i);
                assert(qs[m] == ps[m]);
                let n = key_index(qs, other);
                assert(qs[n].0 == other);
                assert(n != i);
                assert(qs[n] == ps[n]);
            } else {
                assert forall|m: int| 0 <= m < qs.len() implies qs[m].0 != other by {
                    if m != i {
                        assert(qs[m] == ps[m]);
                    }
                }
            }
        }
    } else {
        let i = ps.len() as int;
        assert(qs[i].0 == k);
        assert forall|a: int, b: int| 0 <= a < qs.len() && 0 <= b < qs.len() && a != b implies #[trigger] qs[a].0 != #[trigger] qs[b].0 by {
            if a < i && b < i {
                assert(qs[a] == ps[a] && qs[b] == ps[b]);
            } else if a < i {
                assert(qs[a] == ps[a]);
            } else {
                assert(qs[b] == ps[b]);
            }
        }
        assert(has_key(qs, k));
        let j = key_index(qs, k);
        if other != k {
            if has_key(ps, other) {
                let m = key_index(ps, other);
                assert(qs[m] == ps[m]);
                let n = key_index(qs, other);
                assert(n != i);
                assert(qs[n] == ps[n]);
            } else {
                assert forall|m: int| 0 <= m < qs.len() implies qs[m].0 != other by {
                    if m < i {
                        assert(qs[m] == ps[m]);
                    }
                }
            }
        }
    }
}

/// String-keyed map. Its model is the sequence of its entries in insertion
/// order; no key occurs twice.
pub struct StrMap<V> {
    entries: Vec<(String, V)>,
}

impl<V> View for StrMap<V> {
    type V = Seq<(Seq<char>, V)>;

    closed spec fn view(&self) -> Seq<(Seq<char>, V)> {
        self.entries@.map_values(|e: (String, V)| (e.0@, e.1))
    }
}

impl<V> StrMap<V> {
    #[verifier::type_invariant]
    closed spec fn keys_distinct(self) -> bool {
        distinct_keys(self@)
    }

    /// An empty map.
    pub fn new() -> (m: Self)
        ensures
            m@ == Seq::<(Seq<char>, V)>::empty(),
            distinct_keys(m@),
    {
        let m = StrMap { entries: Vec::new() };
        assert(m@ =~= Seq::<(Seq<char>, V)>::empty());
        m
    }

    /// Number of entries.
    pub fn len(&self) -> (n: usize)
        ensures
            n == self@.len(),
            distinct_keys(self@),
    {
        proof {
            use_type_invariant(self);
        }
        self.entries.len()
    }

    /// Whether the map has no entries.
    pub fn is_empty(&self) -> (b: bool)
        ensures
            b == (self@.len() == 0),
    {
        self.entries.len() == 0
    }

    /// The key of the `i`-th entry.
    pub fn key_at(&self, i: usize) -> (k: &String)
        requires
            i < self@.len(),
        ensures
            k@ == self@[i as int].0,
    {
        &self.entries[i].0
    }

    /// The value of the `i`-th entry.
    pub fn value_at(&self, i: usize) -> (v: &V)
        requires
            i < self@.len(),
        ensures
            *v == self@[i as int].1,
    {
        &self.entries[i].1
    }

    /// Position of `key`, if it is a key.
    fn find(&self, key: &str) -> (r: Option<usize>)
        ensures
            r is Some <==> has_key(self@, key@),
            r matches Some(i) ==> i == key_index(self@, key@) && i < self@.len() && self@[i as int].0 == key@,
    {
        proof {
            use_type_invariant(self);
        }
        let mut i: usize = 0;
        while i < self.entries.len()
            invariant
                i <= self@.len(),
                self@.len() == self.entries@.len(),
                distinct_keys(self@),
                forall|j: int| 0 <= j < i ==> self@[j].0 != key@,
            decreases self.entries.len() - i,
        {
            if str_eq(self.entries[i].0.as_str(), key) {
                assert(self@[i as int].0 == key@);
                assert(has_key(self@, key@));
                let ghost c = key_index(self@, key@);
                assert(self@[c].0 == key@);
                return Some(i);
            }
            i += 1;
        }
        None
    }

    /// The value stored under `key`, if any.
    pub fn get(&self, key: &str) -> (r: Option<&V>)
        ensures
            r matches Some(v) ==> lookup(self@, key@) == Some(*v),
            r is None ==> lookup(self@, key@) is None,
    {
        match self.find(key) {
            Some(i) => Some(&self.entries[i].1),
            None => None,
        }
    }

    /// Whether `key` is a key.
    pub fn contains_key(&self, key: &str) -> (b: bool)
        ensures
            b == has_key(self@, key@),
    {
        self.find(key).is_some()
    }

    /// Stores `value` under `key`.
    pub fn insert(&mut self, key: String, value: V)
        ensures
            final(self)@ == insert_entry(old(self)@, key@, value),
            distinct_keys(final(self)@),
    {
        proof {
            use_type_invariant(&*self);
        }
        let ghost old_view = self@;
        match self.find(key.as_str()) {
            Some(i) => {
                let ghost k = key@;
                let mut entries: Vec<(String, V)> = Vec::new();
                std::mem::swap(&mut entries, &mut self.entries);
                entries.set(i, (key, value));
                let ghost nv = entries@.map_values(|e: (String, V)| (e.0@, e.1));
                assert(nv =~= old_view.update(i as int, (k, value)));
                assert(distinct_keys(nv)) by {
                    assert forall|a: int, b: int| 0 <= a < nv.len() && 0 <= b < nv.len() && a != b implies #[trigger] nv[a].0 != #[trigger] nv[b].0 by {
                        if a != i && b != i {
                            assert(nv[a] == old_view[a] && nv[b] == old_view[b]);
                        } else if a == i {
                            assert(nv[b] == old_view[b]);
                            assert(old_view[a].0 == k);
                        } else {
                            assert(nv[a] == old_view[a]);
                            assert(old_view[b].0 == k);
                        }
                    }
                }
                self.entries = entries;
            },
            None => {
                let ghost k = key@;
                let mut entries: Vec<(String, V)> = Vec::new();
                std::mem::swap(&mut entries, &mut self.entries);
                entries.push((key, value));
                let ghost nv = entries@.map_values(|e: (String, V)| (e.0@, e.1));
                assert(nv =~= old_view.push((k, value)));
                assert(distinct_keys(nv)) by {
                    assert forall|a: int, b: int| 0 <= a < nv.len() && 0 <= b < nv.len() && a != b implies #[trigger] nv[a].0 != #[trigger] nv[b].0 by {
                        if a < old_view.len() && b < old_view.len() {
                            assert(nv[a] == old_view[a] && nv[b] == old_view[b]);
                        } else if a < old_view.len() {
                            assert(nv[a] == old_view[a]);
                            assert(!has_key(old_view, k));
                            assert(old_view[a].0 != k);
                        } else {
                            assert(nv[b] == old_view[b]);
                            assert(old_view[b].0 != k);
                        }
                    }
                }
                self.entries = entries;
            },
        }
    }
}

impl<V: Duplicate> Clone for StrMap<V> {
    fn clone(&self) -> (r: Self)
        ensures
            r@ == self@,
    {
        proof {
            use_type_invariant(self);
        }
        let mut entries: Vec<(String, V)> = Vec::new();
        let mut i: usize = 0;
        while i < self.entries.len()
            invariant
                i <= self.entries@.len(),
                distinct_keys(self@),
                entries@.map_values(|e: (String, V)| (e.0@, e.1)) =~= self@.take(i as int),
            decreases self.entries.len() - i,
        {
            let k = self.entries[i].0.clone();
            let v = self.entries[i].1.duplicate();
            assert(self@[i as int] == (k@, v));
            let ghost before = entries@;
            entries.push((k, v));
            assert(entries@.map_values(|e: (String, V)| (e.0@, e.1)) =~= before.map_values(|e: (String, V)| (e.0@, e.1)).push((k@, v)));
            assert(entries@.map_values(|e: (String, V)| (e.0@, e.1)) =~= self@.take(i + 1));
            i += 1;
        }
        assert(self@.take(i as int) =~= self@);
        StrMap { entries }
    }
}

} // verus!
