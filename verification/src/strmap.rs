//! A map keyed by strings, kept as a vector of entries whose keys are distinct.

use vstd::prelude::*;
use vstd::string::*;

verus! {

/// Compares two string slices by their contents, byte for byte: equal UTF-8 bytes are equal
/// character sequences and unequal ones are not.
pub fn str_eq(a: &str, b: &str) -> (r: bool)
    ensures
        r == (a@ == b@),
{
    broadcast use vstd::utf8::encode_utf8_decode_utf8;

    let x = a.as_bytes();
    let y = b.as_bytes();
    if x.len() != y.len() {
        return false;
    }
    let mut i: usize = 0;
    while i < x.len()
        invariant
            x@ == a.spec_bytes(),
            y@ == b.spec_bytes(),
            x@.len() == y@.len(),
            i <= x@.len(),
            forall|j: int| 0 <= j < i ==> x@[j] == y@[j],
        decreases x@.len() - i,
    {
        if x[i] != y[i] {
            return false;
        }
        i += 1;
    }
    assert(x@ =~= y@);
    assert(a@ == vstd::utf8::decode_utf8(vstd::utf8::encode_utf8(a@)));
    assert(b@ == vstd::utf8::decode_utf8(vstd::utf8::encode_utf8(b@)));
    true
}

#[derive(Clone, Debug)]
pub struct StrMap<V> {
    entries: Vec<(String, V)>,
}

/// The keys of a list of entries, in order.
pub open spec fn entry_keys<V>(es: Seq<(String, V)>) -> Seq<Seq<char>> {
    es.map_values(|e: (String, V)| e.0@)
}

/// No key occurs twice.
pub open spec fn keys_distinct(ks: Seq<Seq<char>>) -> bool {
    forall|i: int, j: int| 0 <= i < j < ks.len() ==> ks[i] != ks[j]
}

/// A position whose entry has key `k`, if there is one.
pub open spec fn entry_index<V>(es: Seq<(String, V)>, k: Seq<char>) -> int {
    choose|i: int| 0 <= i < es.len() && es[i].0@ == k
}

/// The map that a list of entries with distinct keys stands for.
pub open spec fn entries_map<V>(es: Seq<(String, V)>) -> Map<Seq<char>, V> {
    Map::new(
        |k: Seq<char>| exists|i: int| 0 <= i < es.len() && es[i].0@ == k,
        |k: Seq<char>| es[entry_index(es, k)].1,
    )
}

pub proof fn lemma_keys_differ(ks: Seq<Seq<char>>, a: int, b: int)
    requires
        keys_distinct(ks),
        0 <= a < ks.len(),
        0 <= b < ks.len(),
        a != b,
    ensures
        ks[a] != ks[b],
{
    if a < b {
        assert(ks[a] != ks[b]);
    } else {
        assert(ks[b] != ks[a]);
    }
}

pub proof fn lemma_entries_map_at<V>(es: Seq<(String, V)>, i: int)
    requires
        keys_distinct(entry_keys(es)),
        0 <= i < es.len(),
    ensures
        entries_map(es).contains_key(es[i].0@),
        entries_map(es)[es[i].0@] == es[i].1,
{
    let k = es[i].0@;
    assert(entry_keys(es)[i] == k);
    let j = entry_index(es, k);
    assert(0 <= j < es.len() && es[j].0@ == k);
    assert(entry_keys(es)[j] == k);
    if j < i {
        assert(entry_keys(es)[j] != entry_keys(es)[i]);
    } else if i < j {
        assert(entry_keys(es)[i] != entry_keys(es)[j]);
    }
    assert(j == i);
}

impl<V> View for StrMap<V> {
    type V = Map<Seq<char>, V>;

    closed spec fn view(&self) -> Map<Seq<char>, V> {
        entries_map(self.entries@)
    }
}

impl<V> StrMap<V> {
    /// The keys in the order in which they were first inserted.
    pub closed spec fn key_seq(&self) -> Seq<Seq<char>> {
        entry_keys(self.entries@)
    }

    /// The entries, in the order in which their keys were first inserted.
    pub closed spec fn entry_seq(&self) -> Seq<(String, V)> {
        self.entries@
    }

    pub closed spec fn wf(&self) -> bool {
        keys_distinct(self.key_seq())
    }

    pub fn new() -> (m: Self)
        ensures
            m.wf(),
            m@ == Map::<Seq<char>, V>::empty(),
            m.key_seq() == Seq::<Seq<char>>::empty(),
    {
        let m = StrMap { entries: Vec::new() };
        assert(m@ =~= Map::<Seq<char>, V>::empty());
        assert(m.key_seq() =~= Seq::<Seq<char>>::empty());
        m
    }

    pub fn len(&self) -> (n: usize)
        requires
            self.wf(),
        ensures
            n == self.entry_seq().len(),
            n == self@.dom().len(),
    {
        proof {
            self.lemma_dom_len();
        }
        self.entries.len()
    }

    pub fn is_empty(&self) -> (b: bool)
        requires
            self.wf(),
        ensures
            b == (self@ == Map::<Seq<char>, V>::empty()),
    {
        proof {
            if self.entries@.len() > 0 {
                lemma_entries_map_at(self.entries@, 0);
                assert(!self@.dom().contains(self.entries@[0].0@) || self@ != Map::<
                    Seq<char>,
                    V,
                >::empty());
            } else {
                assert(self@ =~= Map::<Seq<char>, V>::empty());
            }
        }
        self.entries.len() == 0
    }

    proof fn lemma_dom_len(&self)
        requires
            self.wf(),
        ensures
            self@.dom().len() == self.entries@.len(),
            self@.dom().finite(),
    {
        let es = self.entries@;
        let ks = self.key_seq();
        assert(self@.dom() =~= ks.to_set()) by {
            assert forall|k: Seq<char>| self@.dom().contains(k) implies ks.to_set().contains(k) by {
                let i = choose|i: int| 0 <= i < es.len() && es[i].0@ == k;
                assert(ks[i] == k);
            }
            assert forall|k: Seq<char>| ks.to_set().contains(k) implies self@.dom().contains(k) by {
                let i = choose|i: int| 0 <= i < ks.len() && ks[i] == k;
                assert(es[i].0@ == k);
            }
        }
        assert(ks.no_duplicates());
        ks.unique_seq_to_set();
    }

    /// Position of `key` among the entries.
    pub fn find(&self, key: &str) -> (r: Option<usize>)
        requires
            self.wf(),
        ensures
            r.is_some() <==> self@.contains_key(key@),
            r matches Some(i) ==> i < self.entry_seq().len() && self.entry_seq()[i as int].0@ == key@,
    {
        let mut i: usize = 0;
        while i < self.entries.len()
            invariant
                self.wf(),
                i <= self.entries@.len(),
                forall|j: int| 0 <= j < i ==> self.entries@[j].0@ != key@,
            decreases self.entries@.len() - i,
        {
            if str_eq(self.entries[i].0.as_str(), key) {
                proof {
                    lemma_entries_map_at(self.entries@, i as int);
                }
                return Some(i);
            }
            i = i + 1;
        }
        None
    }

    pub fn get(&self, key: &str) -> (r: Option<&V>)
        requires
            self.wf(),
        ensures
            r.is_some() <==> self@.contains_key(key@),
            r matches Some(v) ==> *v == self@[key@],
    {
        match self.find(key) {
            Some(i) => {
                proof {
                    lemma_entries_map_at(self.entries@, i as int);
                }
                Some(&self.entries[i].1)
            },
            None => None,
        }
    }

    pub fn contains_key(&self, key: &str) -> (b: bool)
        requires
            self.wf(),
        ensures
            b == self@.contains_key(key@),
    {
        self.find(key).is_some()
    }

    /// Sets `key` to `value`; returns the value it had before, if any. A new key goes last.
    pub fn insert(&mut self, key: String, value: V) -> (r: Option<V>)
        requires
            old(self).wf(),
        ensures
            final(self).wf(),
            final(self)@ == old(self)@.insert(key@, value),
            r.is_some() <==> old(self)@.contains_key(key@),
            r matches Some(v) ==> v == old(self)@[key@],
            old(self)@.contains_key(key@) ==> final(self).key_seq() == old(self).key_seq(),
            !old(self)@.contains_key(key@) ==> final(self).key_seq() == old(self).key_seq().push(
                key@,
            ),
    {
        let ghost k = key@;
        match self.find(key.as_str()) {
            Some(i) => {
                let ghost old_es = self.entries@;
                proof {
                    lemma_entries_map_at(old_es, i as int);
                }
                let (_, old_value) = self.entries.remove(i);
                self.entries.insert(i, (key, value));
                proof {
                    let es = self.entries@;
                    assert(es =~= old_es.update(i as int, es[i as int]));
                    assert(entry_keys(es) =~= entry_keys(old_es));
                    assert forall|k2: Seq<char>|
                        self@.contains_key(k2) == old(self)@.insert(k, value).contains_key(
                            k2,
                        ) by {
                        if self@.contains_key(k2) {
                            let j = choose|j: int| 0 <= j < es.len() && es[j].0@ == k2;
                            assert(entry_keys(es)[j] == k2);
                            assert(old_es[j].0@ == k2);
                        }
                        if old(self)@.contains_key(k2) {
                            let j = choose|j: int| 0 <= j < old_es.len() && old_es[j].0@ == k2;
                            assert(entry_keys(old_es)[j] == k2);
                            assert(es[j].0@ == k2);
                        }
                    }
                    assert forall|k2: Seq<char>| #[trigger]
                        self@.contains_key(k2) implies self@[k2] == old(self)@.insert(
                        k,
                        value,
                    )[k2] by {
                        let j = choose|j: int| 0 <= j < es.len() && es[j].0@ == k2;
                        assert(entry_keys(es)[j] == k2);
                        lemma_entries_map_at(es, j);
                        if j == i {
                            assert(es[i as int] == (key, value));
                        } else {
                            assert(old_es[j] == es[j]);
                            lemma_entries_map_at(old_es, j);
                            lemma_keys_differ(entry_keys(es), i as int, j);
                        }
                    }
                    assert(self@ =~= old(self)@.insert(k, value));
                }
                Some(old_value)
            },
            None => {
                let ghost old_es = self.entries@;
                self.entries.push((key, value));
                proof {
                    let es = self.entries@;
                    assert(entry_keys(es) =~= entry_keys(old_es).push(k));
                    assert(keys_distinct(entry_keys(es))) by {
                        assert forall|a: int, b: int|
                            0 <= a < b < entry_keys(es).len() implies entry_keys(es)[a]
                            != entry_keys(es)[b] by {
                            if b == old_es.len() {
                                assert(old_es[a].0@ != k);
                            } else {
                                assert(entry_keys(old_es)[a] != entry_keys(old_es)[b]);
                            }
                        }
                    }
                    assert forall|k2: Seq<char>|
                        self@.contains_key(k2) == old(self)@.insert(k, value).contains_key(
                            k2,
                        ) by {
                        if self@.contains_key(k2) {
                            let j = choose|j: int| 0 <= j < es.len() && es[j].0@ == k2;
                            if j < old_es.len() {
                                assert(old_es[j].0@ == k2);
                            }
                        }
                        if old(self)@.contains_key(k2) {
                            let j = choose|j: int| 0 <= j < old_es.len() && old_es[j].0@ == k2;
                            assert(es[j].0@ == k2);
                        }
                        if k2 == k {
                            assert(es[old_es.len() as int].0@ == k2);
                        }
                    }
                    assert forall|k2: Seq<char>| #[trigger]
                        self@.contains_key(k2) implies self@[k2] == old(self)@.insert(
                        k,
                        value,
                    )[k2] by {
                        let j = choose|j: int| 0 <= j < es.len() && es[j].0@ == k2;
                        assert(entry_keys(es)[j] == k2);
                        lemma_entries_map_at(es, j);
                        if j < old_es.len() {
                            assert(old_es[j] == es[j]);
                            lemma_entries_map_at(old_es, j);
                        }
                    }
                    assert(self@ =~= old(self)@.insert(k, value));
                }
                None
            },
        }
    }

    /// Removes `key`; returns the value it had, if any.
    pub fn remove(&mut self, key: &str) -> (r: Option<V>)
        requires
            old(self).wf(),
        ensures
            final(self).wf(),
            final(self)@ == old(self)@.remove(key@),
            r.is_some() <==> old(self)@.contains_key(key@),
            r matches Some(v) ==> v == old(self)@[key@],
    {
        let ghost k = key@;
        match self.find(key) {
            Some(i) => {
                let ghost old_es = self.entries@;
                proof {
                    lemma_entries_map_at(old_es, i as int);
                }
                let (_, value) = self.entries.remove(i);
                proof {
                    let es = self.entries@;
                    assert(es =~= old_es.remove(i as int));
                    assert(keys_distinct(entry_keys(es))) by {
                        assert forall|a: int, b: int|
                            0 <= a < b < entry_keys(es).len() implies entry_keys(es)[a]
                            != entry_keys(es)[b] by {
                            let a0 = if a < i { a } else { a + 1 };
                            let b0 = if b < i { b } else { b + 1 };
                            assert(entry_keys(old_es)[a0] != entry_keys(old_es)[b0]);
                        }
                    }
                    assert forall|k2: Seq<char>|
                        self@.contains_key(k2) == old(self)@.remove(k).contains_key(k2) by {
                        if self@.contains_key(k2) {
                            let j = choose|j: int| 0 <= j < es.len() && es[j].0@ == k2;
                            let j0 = if j < i { j } else { j + 1 };
                            assert(old_es[j0].0@ == k2);
                            assert(entry_keys(old_es)[j0] != entry_keys(old_es)[i as int]);
                        }
                        if old(self)@.remove(k).contains_key(k2) {
                            let j = choose|j: int| 0 <= j < old_es.len() && old_es[j].0@ == k2;
                            assert(j != i);
                            let j1 = if j < i { j } else { j - 1 };
                            assert(es[j1].0@ == k2);
                        }
                    }
                    assert forall|k2: Seq<char>| #[trigger]
                        self@.contains_key(k2) implies self@[k2] == old(self)@.remove(k)[k2] by {
                        let j = choose|j: int| 0 <= j < es.len() && es[j].0@ == k2;
                        assert(entry_keys(es)[j] == k2);
                        lemma_entries_map_at(es, j);
                        let j0 = if j < i { j } else { j + 1 };
                        assert(old_es[j0] == es[j]);
                        lemma_entries_map_at(old_es, j0);
                    }
                    assert(self@ =~= old(self)@.remove(k));
                }
                Some(value)
            },
            None => {
                proof {
                    assert(self@ =~= old(self)@.remove(k));
                }
                None
            },
        }
    }

    /// The entry at position `i`, in insertion order.
    pub fn entry_at(&self, i: usize) -> (r: &(String, V))
        requires
            i < self.entry_seq().len(),
        ensures
            *r == self.entry_seq()[i as int],
    {
        &self.entries[i]
    }

    /// Replaces the value at position `i`, keeping its key.
    pub fn set_value_at(&mut self, i: usize, value: V)
        requires
            old(self).wf(),
            i < old(self).entry_seq().len(),
        ensures
            final(self).wf(),
            final(self).key_seq() == old(self).key_seq(),
            final(self)@ == old(self)@.insert(old(self).entry_seq()[i as int].0@, value),
            final(self).entry_seq().len() == old(self).entry_seq().len(),
            final(self).entry_seq()[i as int].1 == value,
            forall|j: int|
                0 <= j < old(self).entry_seq().len() && j != i ==> final(self).entry_seq()[j]
                    == old(self).entry_seq()[j],
    {
        let ghost old_es = self.entries@;
        let ghost k = old_es[i as int].0@;
        proof {
            lemma_entries_map_at(old_es, i as int);
        }
        let (key, _) = self.entries.remove(i);
        self.entries.insert(i, (key, value));
        proof {
            let es = self.entries@;
            assert(entry_keys(es) =~= entry_keys(old_es));
            assert forall|k2: Seq<char>|
                self@.contains_key(k2) == old(self)@.insert(k, value).contains_key(k2) by {
                if self@.contains_key(k2) {
                    let j = choose|j: int| 0 <= j < es.len() && es[j].0@ == k2;
                    assert(entry_keys(es)[j] == k2);
                    assert(old_es[j].0@ == k2);
                }
                if old(self)@.contains_key(k2) {
                    let j = choose|j: int| 0 <= j < old_es.len() && old_es[j].0@ == k2;
                    assert(entry_keys(old_es)[j] == k2);
                    assert(es[j].0@ == k2);
                }
            }
            assert forall|k2: Seq<char>| #[trigger]
                self@.contains_key(k2) implies self@[k2] == old(self)@.insert(k, value)[k2] by {
                let j = choose|j: int| 0 <= j < es.len() && es[j].0@ == k2;
                assert(entry_keys(es)[j] == k2);
                lemma_entries_map_at(es, j);
                if j != i {
                    assert(old_es[j] == es[j]);
                    lemma_entries_map_at(old_es, j);
                    lemma_keys_differ(entry_keys(es), i as int, j);
                }
            }
            assert(self@ =~= old(self)@.insert(k, value));
        }
    }

    /// All entries, in insertion order.
    pub fn into_entries(self) -> (r: Vec<(String, V)>)
        ensures
            r@ == self.entry_seq(),
    {
        self.entries
    }
}

impl<V> StrMap<V> {
    /// The view, the keys and well-formedness in terms of the entries.
    pub proof fn lemma_view(&self)
        ensures
            self@ == entries_map(self.entry_seq()),
            self.key_seq() == entry_keys(self.entry_seq()),
            self.wf() == keys_distinct(self.key_seq()),
    {
    }

    /// Every entry of a well-formed map stands for one key of its view, and every key of the
    /// view comes from an entry.
    pub proof fn lemma_entries(&self)
        requires
            self.wf(),
        ensures
            forall|i: int|
                0 <= i < self.entry_seq().len() ==> #[trigger] self@.contains_key(
                    self.entry_seq()[i].0@,
                ) && self@[self.entry_seq()[i].0@] == self.entry_seq()[i].1,
            forall|k: Seq<char>|
                #[trigger] self@.contains_key(k) ==> exists|i: int|
                    0 <= i < self.entry_seq().len() && self.entry_seq()[i].0@ == k,
    {
        assert forall|i: int| 0 <= i < self.entry_seq().len() implies #[trigger] self@.contains_key(
            self.entry_seq()[i].0@,
        ) && self@[self.entry_seq()[i].0@] == self.entry_seq()[i].1 by {
            lemma_entries_map_at(self.entries@, i);
        }
        assert forall|k: Seq<char>| #[trigger] self@.contains_key(k) implies exists|i: int|
            0 <= i < self.entry_seq().len() && self.entry_seq()[i].0@ == k by {
            let i = choose|i: int| 0 <= i < self.entries@.len() && self.entries@[i].0@ == k;
            assert(0 <= i < self.entry_seq().len() && self.entry_seq()[i].0@ == k);
        }
    }
}

} // verus!
