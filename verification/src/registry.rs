//! A table from strings to values that keeps its entries in the order in
//! which their keys first arrived, and that can be walked entry by entry. It
//! holds what the library has to walk: the sessions and the cache, which the
//! sweeps go through, and the headers of a request, which the transport
//! takes one by one.
//!
//! The table is modelled twice: by `entries()`, the ordered sequence of
//! key/value pairs, and by its view, the finite map that the sequence stands
//! for. No key occurs twice (`wf`).

use vstd::prelude::*;

verus! {

/// No key occurs at two positions.
pub open spec fn distinct_keys<V>(s: Seq<(Seq<char>, V)>) -> bool {
    forall|i: int, j: int| 0 <= i < j < s.len() ==> (#[trigger] s[i]).0 != (#[trigger] s[j]).0
}

/// `k` is the key of some entry.
pub open spec fn has_key<V>(s: Seq<(Seq<char>, V)>, k: Seq<char>) -> bool {
    exists|i: int| 0 <= i < s.len() && (#[trigger] s[i]).0 == k
}

/// A position at which `k` is the key (meaningful where `has_key`).
pub open spec fn slot_of<V>(s: Seq<(Seq<char>, V)>, k: Seq<char>) -> int {
    choose|i: int| 0 <= i < s.len() && (#[trigger] s[i]).0 == k
}

/// The finite map that a sequence of entries stands for.
pub open spec fn entries_map<V>(s: Seq<(Seq<char>, V)>) -> Map<Seq<char>, V> {
    Map::new(|k: Seq<char>| has_key(s, k), |k: Seq<char>| s[slot_of(s, k)].1)
}

/// The entry at position `i` is what the map holds under its key.
pub proof fn lemma_entry_in_map<V>(s: Seq<(Seq<char>, V)>, i: int)
    requires
        distinct_keys(s),
        0 <= i < s.len(),
    ensures
        entries_map(s).contains_key(s[i].0),
        entries_map(s)[s[i].0] == s[i].1,
        slot_of(s, s[i].0) == i,
{
    let k = s[i].0;
    assert(has_key(s, k));
    let j = slot_of(s, k);
    assert(0 <= j < s.len() && s[j].0 == k);
    if j < i {
        assert(s[j].0 != s[i].0);
    } else if i < j {
        assert(s[i].0 != s[j].0);
    }
}

/// A key of the map sits at exactly one position.
pub proof fn lemma_key_has_slot<V>(s: Seq<(Seq<char>, V)>, k: Seq<char>)
    requires
        entries_map(s).contains_key(k),
    ensures
        0 <= slot_of(s, k) < s.len(),
        s[slot_of(s, k)].0 == k,
        entries_map(s)[k] == s[slot_of(s, k)].1,
{
    assert(has_key(s, k));
}

/// Appending an entry under a new key inserts it into the map.
pub proof fn lemma_push_entry<V>(s: Seq<(Seq<char>, V)>, k: Seq<char>, v: V)
    requires
        distinct_keys(s),
        !has_key(s, k),
    ensures
        distinct_keys(s.push((k, v))),
        entries_map(s.push((k, v))) == entries_map(s).insert(k, v),
{
    let t = s.push((k, v));
    assert forall|i: int, j: int| 0 <= i < j < t.len() implies (#[trigger] t[i]).0 != (
    #[trigger] t[j]).0 by {
        if j < s.len() {
            assert(s[i].0 != s[j].0);
        } else {
            assert(t[i] == s[i]);
            if s[i].0 == k {
                assert(has_key(s, k));
            }
        }
    }
    let m = entries_map(s).insert(k, v);
    assert forall|q: Seq<char>| entries_map(t).contains_key(q) <==> m.contains_key(q) by {
        if has_key(t, q) {
            let i = slot_of(t, q);
            if i < s.len() {
                assert(s[i] == t[i]);
                assert(has_key(s, q));
            }
        }
        if has_key(s, q) {
            let i = slot_of(s, q);
            assert(t[i] == s[i]);
            assert(has_key(t, q));
        }
        if q == k {
            assert(t[s.len() as int].0 == k);
            assert(has_key(t, q));
        }
    }
    assert forall|q: Seq<char>| entries_map(t).contains_key(q) implies entries_map(t)[q]
        == m[q] by {
        let i = slot_of(t, q);
        assert(has_key(t, q));
        lemma_entry_in_map(t, i);
        if i < s.len() {
            assert(t[i] == s[i]);
            lemma_entry_in_map(s, i);
        }
    }
    assert(entries_map(t) =~= m);
}

/// Replacing the value at the position of a key updates the map there.
pub proof fn lemma_update_entry<V>(s: Seq<(Seq<char>, V)>, i: int, v: V)
    requires
        distinct_keys(s),
        0 <= i < s.len(),
    ensures
        distinct_keys(s.update(i, (s[i].0, v))),
        entries_map(s.update(i, (s[i].0, v))) == entries_map(s).insert(s[i].0, v),
{
    let k = s[i].0;
    let t = s.update(i, (k, v));
    assert forall|a: int, b: int| 0 <= a < b < t.len() implies (#[trigger] t[a]).0 != (
    #[trigger] t[b]).0 by {
        assert(t[a].0 == s[a].0);
        assert(t[b].0 == s[b].0);
        assert(s[a].0 != s[b].0);
    }
    let m = entries_map(s).insert(k, v);
    assert forall|q: Seq<char>| entries_map(t).contains_key(q) <==> m.contains_key(q) by {
        if has_key(t, q) {
            let j = slot_of(t, q);
            assert(s[j].0 == t[j].0);
            assert(has_key(s, q));
        }
        if has_key(s, q) {
            let j = slot_of(s, q);
            assert(t[j].0 == s[j].0);
            assert(has_key(t, q));
        }
        lemma_entry_in_map(s, i);
    }
    assert forall|q: Seq<char>| entries_map(t).contains_key(q) implies entries_map(t)[q]
        == m[q] by {
        assert(has_key(t, q));
        let j = slot_of(t, q);
        lemma_entry_in_map(t, j);
        if j != i {
            assert(t[j] == s[j]);
            lemma_entry_in_map(s, j);
        }
    }
    assert(entries_map(t) =~= m);
}

/// Taking out the entry at a position removes its key from the map.
pub proof fn lemma_remove_entry<V>(s: Seq<(Seq<char>, V)>, i: int)
    requires
        distinct_keys(s),
        0 <= i < s.len(),
    ensures
        distinct_keys(s.remove(i)),
        !has_key(s.remove(i), s[i].0),
        entries_map(s.remove(i)) == entries_map(s).remove(s[i].0),
{
    let k = s[i].0;
    let t = s.remove(i);
    assert forall|a: int, b: int| 0 <= a < b < t.len() implies (#[trigger] t[a]).0 != (
    #[trigger] t[b]).0 by {
        let a0 = if a < i { a } else { a + 1 };
        let b0 = if b < i { b } else { b + 1 };
        assert(t[a] == s[a0]);
        assert(t[b] == s[b0]);
        assert(s[a0].0 != s[b0].0);
    }
    if has_key(t, k) {
        let j = slot_of(t, k);
        let j0 = if j < i { j } else { j + 1 };
        assert(t[j] == s[j0]);
        if j0 < i {
            assert(s[j0].0 != s[i].0);
        } else {
            assert(s[i].0 != s[j0].0);
        }
    }
    let m = entries_map(s).remove(k);
    assert forall|q: Seq<char>| entries_map(t).contains_key(q) <==> m.contains_key(q) by {
        if has_key(t, q) {
            let j = slot_of(t, q);
            let j0 = if j < i { j } else { j + 1 };
            assert(t[j] == s[j0]);
            assert(has_key(s, q));
        }
        if has_key(s, q) && q != k {
            let j = slot_of(s, q);
            let j1 = if j < i { j } else { j - 1 };
            assert(t[j1] == s[j]);
            assert(has_key(t, q));
        }
    }
    assert forall|q: Seq<char>| entries_map(t).contains_key(q) implies entries_map(t)[q]
        == m[q] by {
        assert(has_key(t, q));
        let j = slot_of(t, q);
        lemma_entry_in_map(t, j);
        let j0 = if j < i { j } else { j + 1 };
        assert(t[j] == s[j0]);
        lemma_entry_in_map(s, j0);
    }
    assert(entries_map(t) =~= m);
}

/// Filtering keeps distinct keys distinct, and the map of what is kept holds
/// exactly the keys whose entry passes, each with its old value.
pub proof fn lemma_filter_entries<V>(s: Seq<(Seq<char>, V)>, p: spec_fn((Seq<char>, V)) -> bool)
    requires
        distinct_keys(s),
    ensures
        distinct_keys(s.filter(p)),
        forall|k: Seq<char>| #[trigger]
            entries_map(s.filter(p)).contains_key(k) <==> (entries_map(s).contains_key(k) && p(
                (k, entries_map(s)[k]),
            )),
        forall|k: Seq<char>| #[trigger]
            entries_map(s.filter(p)).contains_key(k) ==> entries_map(s.filter(p))[k]
                == entries_map(s)[k],
    decreases s.len(),
{
    reveal(Seq::filter);
    if s.len() == 0 {
        assert forall|k: Seq<char>| !(#[trigger] entries_map(s.filter(p)).contains_key(k)) by {
            if has_key(s.filter(p), k) {
                let i = slot_of(s.filter(p), k);
            }
        }
        assert forall|k: Seq<char>| !(#[trigger] entries_map(s).contains_key(k)) by {
            if has_key(s, k) {
                let i = slot_of(s, k);
            }
        }
    } else {
        let r = s.drop_last();
        let e = s.last();
        assert forall|i: int, j: int| 0 <= i < j < r.len() implies (#[trigger] r[i]).0 != (
        #[trigger] r[j]).0 by {
            assert(r[i] == s[i]);
            assert(r[j] == s[j]);
        }
        lemma_filter_entries(r, p);
        assert(!has_key(r, e.0)) by {
            if has_key(r, e.0) {
                let i = slot_of(r, e.0);
                assert(r[i] == s[i]);
                assert(s[i].0 != s[s.len() - 1].0);
            }
        }
        assert(s =~= r.push(e));
        lemma_push_entry(r, e.0, e.1);
        let fr = r.filter(p);
        assert(!has_key(fr, e.0)) by {
            if has_key(fr, e.0) {
                assert(entries_map(fr).contains_key(e.0));
                assert(entries_map(r).contains_key(e.0));
            }
        }
        if p(e) {
            assert(s.filter(p) == fr.push(e));
            lemma_push_entry(fr, e.0, e.1);
            assert forall|k: Seq<char>| #[trigger]
                entries_map(s.filter(p)).contains_key(k) <==> (entries_map(s).contains_key(k)
                    && p((k, entries_map(s)[k]))) by {
                if k != e.0 {
                    assert(entries_map(fr).contains_key(k) <==> (entries_map(r).contains_key(k)
                        && p((k, entries_map(r)[k]))));
                }
            }
            assert forall|k: Seq<char>| #[trigger]
                entries_map(s.filter(p)).contains_key(k) implies entries_map(s.filter(p))[k]
                == entries_map(s)[k] by {
                if k != e.0 {
                    assert(entries_map(fr).contains_key(k));
                }
            }
        } else {
            assert(s.filter(p) == fr);
            assert forall|k: Seq<char>| #[trigger]
                entries_map(s.filter(p)).contains_key(k) <==> (entries_map(s).contains_key(k)
                    && p((k, entries_map(s)[k]))) by {
                if k != e.0 {
                    assert(entries_map(fr).contains_key(k) <==> (entries_map(r).contains_key(k)
                        && p((k, entries_map(r)[k]))));
                } else {
                    assert(!entries_map(fr).contains_key(k));
                }
            }
            assert forall|k: Seq<char>| #[trigger]
                entries_map(s.filter(p)).contains_key(k) implies entries_map(s.filter(p))[k]
                == entries_map(s)[k] by {
                assert(entries_map(fr).contains_key(k));
                assert(k != e.0);
            }
        }
    }
}

/// A table has as many entries as its map has keys.
pub proof fn lemma_entries_count<V>(s: Seq<(Seq<char>, V)>)
    requires
        distinct_keys(s),
    ensures
        entries_map(s).dom().finite(),
        entries_map(s).dom().len() == s.len(),
    decreases s.len(),
{
    if s.len() == 0 {
        assert(entries_map(s).dom() =~= Set::<Seq<char>>::empty()) by {
            assert forall|k: Seq<char>| !entries_map(s).dom().contains(k) by {
                if has_key(s, k) {
                    let i = slot_of(s, k);
                }
            }
        }
    } else {
        let r = s.drop_last();
        let e = s.last();
        assert forall|i: int, j: int| 0 <= i < j < r.len() implies (#[trigger] r[i]).0 != (
        #[trigger] r[j]).0 by {
            assert(r[i] == s[i]);
            assert(r[j] == s[j]);
        }
        lemma_entries_count(r);
        assert(!has_key(r, e.0)) by {
            if has_key(r, e.0) {
                let i = slot_of(r, e.0);
                assert(r[i] == s[i]);
                assert(s[i].0 != s[s.len() - 1].0);
            }
        }
        assert(s =~= r.push(e));
        lemma_push_entry(r, e.0, e.1);
        assert(entries_map(s).dom() =~= entries_map(r).dom().insert(e.0));
    }
}

/// Filtering one entry more: the filter of the first `j + 1` entries is the
/// filter of the first `j`, with entry `j` behind it where that one passes.
pub proof fn lemma_filter_next<A>(s: Seq<A>, j: int, p: spec_fn(A) -> bool)
    requires
        0 <= j < s.len(),
    ensures
        s.take(j + 1).filter(p) == if p(s[j]) {
            s.take(j).filter(p).push(s[j])
        } else {
            s.take(j).filter(p)
        },
{
    assert(s.take(j + 1) =~= s.take(j).push(s[j]));
    s.take(j).lemma_filter_push(s[j], p);
}

/// A table keyed by strings.
#[derive(Debug)]
pub struct StringMap<V> {
    slots: Vec<(String, V)>,
}

impl<V> View for StringMap<V> {
    type V = Map<Seq<char>, V>;

    open spec fn view(&self) -> Map<Seq<char>, V> {
        entries_map(self.entries())
    }
}

impl<V> StringMap<V> {
    /// The entries in the order in which their keys first arrived, each key
    /// by its characters.
    pub closed spec fn entries(&self) -> Seq<(Seq<char>, V)> {
        Seq::new(self.slots@.len(), |i: int| (self.slots@[i].0@, self.slots@[i].1))
    }

    /// No key occurs twice.
    pub open spec fn wf(&self) -> bool {
        distinct_keys(self.entries())
    }

    /// An empty table.
    pub fn new() -> (m: Self)
        ensures
            m.wf(),
            m.entries() == Seq::<(Seq<char>, V)>::empty(),
            m@ == Map::<Seq<char>, V>::empty(),
    {
        let m = StringMap { slots: Vec::new() };
        proof {
            assert(m.entries() =~= Seq::<(Seq<char>, V)>::empty());
            assert forall|k: Seq<char>| !(#[trigger] m@.contains_key(k)) by {
                if has_key(m.entries(), k) {
                    let i = slot_of(m.entries(), k);
                }
            }
            assert(m@ =~= Map::<Seq<char>, V>::empty());
        }
        m
    }

    /// The number of entries.
    pub fn len(&self) -> (n: usize)
        ensures
            n == self.entries().len(),
    {
        self.slots.len()
    }

    /// The key at position `i`.
    pub fn key_at(&self, i: usize) -> (k: &String)
        requires
            i < self.entries().len(),
        ensures
            k@ == self.entries()[i as int].0,
    {
        &self.slots[i].0
    }

    /// The value at position `i`.
    pub fn value_at(&self, i: usize) -> (v: &V)
        requires
            i < self.entries().len(),
        ensures
            *v == self.entries()[i as int].1,
    {
        &self.slots[i].1
    }

    /// The position of `key`, if the table holds it.
    pub fn position(&self, key: &String) -> (r: Option<usize>)
        ensures
            match r {
                Some(i) => i < self.entries().len() && self.entries()[i as int].0 == key@,
                None => !has_key(self.entries(), key@),
            },
    {
        let mut i: usize = 0;
        while i < self.slots.len()
            invariant
                i <= self.slots.len(),
                forall|j: int| 0 <= j < i ==> (#[trigger] self.entries()[j]).0 != key@,
            decreases self.slots.len() - i,
        {
            if self.slots[i].0 == *key {
                return Some(i);
            }
            i = i + 1;
        }
        proof {
            if has_key(self.entries(), key@) {
                let j = slot_of(self.entries(), key@);
                assert(self.entries()[j].0 != key@);
            }
        }
        None
    }

    /// Whether the table holds `key`.
    pub fn contains_key(&self, key: &String) -> (b: bool)
        ensures
            b == self@.contains_key(key@),
    {
        self.position(key).is_some()
    }

    /// The value under `key`, if any.
    pub fn get(&self, key: &String) -> (r: Option<&V>)
        requires
            self.wf(),
        ensures
            match r {
                Some(v) => self@.contains_key(key@) && *v == self@[key@],
                None => !self@.contains_key(key@),
            },
    {
        match self.position(key) {
            Some(i) => {
                proof {
                    lemma_entry_in_map(self.entries(), i as int);
                }
                Some(&self.slots[i].1)
            },
            None => None,
        }
    }

    /// Puts `value` under `key`: a new key goes to the end, a known key keeps
    /// its position and gets the new value.
    pub fn insert(&mut self, key: String, value: V)
        requires
            old(self).wf(),
        ensures
            final(self).wf(),
            final(self)@ == old(self)@.insert(key@, value),
            match slot_if_present(old(self).entries(), key@) {
                Some(i) => final(self).entries() == old(self).entries().update(i, (key@, value)),
                None => final(self).entries() == old(self).entries().push((key@, value)),
            },
    {
        let ghost before = self.entries();
        match self.position(&key) {
            Some(i) => {
                proof {
                    lemma_update_entry(before, i as int, value);
                    lemma_entry_in_map(before, i as int);
                    assert(has_key(before, key@));
                }
                self.slots.set(i, (key, value));
                assert(self.entries() =~= before.update(i as int, (key@, value)));
            },
            None => {
                proof {
                    lemma_push_entry(before, key@, value);
                }
                self.slots.push((key, value));
                assert(self.entries() =~= before.push((key@, value)));
            },
        }
    }

    /// Takes the entry of `key` out and returns its value, if there was one.
    pub fn remove(&mut self, key: &String) -> (r: Option<V>)
        requires
            old(self).wf(),
        ensures
            final(self).wf(),
            final(self)@ == old(self)@.remove(key@),
            match r {
                Some(v) => old(self)@.contains_key(key@) && v == old(self)@[key@],
                None => !old(self)@.contains_key(key@),
            },
            match slot_if_present(old(self).entries(), key@) {
                Some(i) => final(self).entries() == old(self).entries().remove(i),
                None => final(self).entries() == old(self).entries(),
            },
    {
        let ghost before = self.entries();
        match self.position(key) {
            Some(i) => {
                proof {
                    lemma_remove_entry(before, i as int);
                    lemma_entry_in_map(before, i as int);
                    assert(has_key(before, key@));
                }
                let pair = self.slots.remove(i);
                assert(self.entries() =~= before.remove(i as int));
                Some(pair.1)
            },
            None => {
                assert(self@ =~= self@.remove(key@));
                None
            },
        }
    }

    /// Takes out the entry at position `i` and returns it.
    pub fn remove_at(&mut self, i: usize) -> (r: (String, V))
        requires
            old(self).wf(),
            i < old(self).entries().len(),
        ensures
            final(self).wf(),
            final(self).entries() == old(self).entries().remove(i as int),
            final(self)@ == old(self)@.remove(r.0@),
            r.0@ == old(self).entries()[i as int].0,
            r.1 == old(self).entries()[i as int].1,
    {
        let ghost before = self.entries();
        proof {
            lemma_remove_entry(before, i as int);
        }
        let pair = self.slots.remove(i);
        assert(self.entries() =~= before.remove(i as int));
        pair
    }
}

/// The position of `k` among the entries, or `None` where no entry has it.
pub open spec fn slot_if_present<V>(s: Seq<(Seq<char>, V)>, k: Seq<char>) -> Option<int> {
    if has_key(s, k) {
        Some(slot_of(s, k))
    } else {
        None
    }
}

} // verus!
