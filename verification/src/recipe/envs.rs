//! Environment variables that a recipe sets for its scripts.

use crate::strmap::StrMap;
use crate::text::{append_str, push_char, string_views, trim_char, trim_char_spec};
use crate::value::Value;
use vstd::prelude::*;

verus! {

/// Variables by name.
pub type EnvMap = Map<Seq<char>, Seq<char>>;

/// The variables a table of a recipe document sets: every entry whose key and value are both
/// strings, a later entry replacing an earlier one of the same name; other entries are skipped.
pub open spec fn env_from_entries(es: Seq<(Value, Value)>) -> EnvMap
    decreases es.len(),
{
    if es.len() == 0 {
        Map::empty()
    } else {
        let m = env_from_entries(es.drop_last());
        match (es.last().0, es.last().1) {
            (Value::String(k), Value::String(v)) => m.insert(k@, v@),
            _ => m,
        }
    }
}

/// The variables a TOML table sets, each value given by its TOML text with the quotes at
/// either end taken away; a later entry replaces an earlier one of the same name.
pub open spec fn env_from_toml(es: Seq<(String, String)>) -> EnvMap
    decreases es.len(),
{
    if es.len() == 0 {
        Map::empty()
    } else {
        env_from_toml(es.drop_last()).insert(es.last().0@, trim_char_spec(es.last().1@, '"'))
    }
}

/// The line `key=value` that sets one variable.
pub open spec fn kv_line(key: Seq<char>, value: Seq<char>) -> Seq<char> {
    key + seq!['='] + value
}

/// The views of the values of a string map.
pub open spec fn env_view(m: StrMap<String>) -> EnvMap {
    m@.map_values(|v: String| v@)
}

/// A variable that was set reads back its value, and unsetting a variable that was not set
/// before gives back the variables as they were.
pub proof fn lemma_insert_then_remove(m: EnvMap, key: Seq<char>, value: Seq<char>)
    ensures
        m.insert(key, value).contains_key(key),
        m.insert(key, value)[key] == value,
        !m.contains_key(key) ==> m.insert(key, value).remove(key) == m,
        forall|k: Seq<char>| k != key ==> m.insert(key, value).remove(key).contains_key(k)
            == m.contains_key(k),
{
    if !m.contains_key(key) {
        assert(m.insert(key, value).remove(key) =~= m);
    }
}

#[derive(Clone, Debug)]
pub struct Env {
    vars: StrMap<String>,
}

impl View for Env {
    type V = EnvMap;

    closed spec fn view(&self) -> EnvMap {
        env_view(self.vars)
    }
}

impl Env {
    pub closed spec fn wf(&self) -> bool {
        self.vars.wf()
    }

    /// The names of the variables, in the order in which they were first set.
    pub closed spec fn names(&self) -> Seq<Seq<char>> {
        self.vars.key_seq()
    }

    /// The names are those of the view, each once.
    pub proof fn lemma_names(&self)
        requires
            self.wf(),
        ensures
            forall|i: int| 0 <= i < self.names().len() ==> #[trigger] self@.contains_key(
                self.names()[i],
            ),
            forall|k: Seq<char>| #[trigger] self@.contains_key(k) ==> self.names().contains(k),
            forall|i: int, j: int|
                0 <= i < j < self.names().len() ==> self.names()[i] != self.names()[j],
    {
        self.vars.lemma_entries();
        self.vars.lemma_view();
        assert forall|i: int| 0 <= i < self.names().len() implies #[trigger] self@.contains_key(
            self.names()[i],
        ) by {
            assert(self.names()[i] == self.vars.entry_seq()[i].0@);
        }
        assert forall|k: Seq<char>| #[trigger] self@.contains_key(k) implies self.names().contains(
            k,
        ) by {
            assert(self.vars@.contains_key(k));
            let i = choose|i: int|
                0 <= i < self.vars.entry_seq().len() && self.vars.entry_seq()[i].0@ == k;
            assert(self.names()[i] == k);
        }
    }

    /// No variables.
    pub fn new() -> (e: Self)
        ensures
            e.wf(),
            e@ == EnvMap::empty(),
            e.names() == Seq::<Seq<char>>::empty(),
    {
        let e = Env { vars: StrMap::new() };
        assert(e@ =~= EnvMap::empty());
        e
    }

    /// The variables of a recipe's `env` table, if it has one.
    pub fn from(env: Option<Vec<(Value, Value)>>) -> (e: Self)
        ensures
            e.wf(),
            e@ == match env {
                Some(es) => env_from_entries(es@),
                None => EnvMap::empty(),
            },
    {
        let mut e = Env::new();
        if let Some(es) = env {
            let mut i: usize = 0;
            assert(es@.take(0) =~= Seq::<(Value, Value)>::empty());
            while i < es.len()
                invariant
                    i <= es@.len(),
                    e.wf(),
                    e@ == env_from_entries(es@.take(i as int)),
                decreases es@.len() - i,
            {
                assert(es@.take(i + 1).drop_last() =~= es@.take(i as int));
                match &es[i] {
                    (Value::String(k), Value::String(v)) => {
                        e.insert(k.clone(), v.clone());
                    },
                    _ => {},
                }
                i += 1;
            }
            assert(es@.take(i as int) =~= es@);
        }
        e
    }

    /// The variables of a recipe's TOML `env` table, if it has one; each value is given by its
    /// TOML text.
    pub fn from_toml(env: Option<Vec<(String, String)>>) -> (e: Self)
        ensures
            e.wf(),
            e@ == match env {
                Some(es) => env_from_toml(es@),
                None => EnvMap::empty(),
            },
    {
        let mut e = Env::new();
        if let Some(es) = env {
            let mut i: usize = 0;
            assert(es@.take(0) =~= Seq::<(String, String)>::empty());
            while i < es.len()
                invariant
                    i <= es@.len(),
                    e.wf(),
                    e@ == env_from_toml(es@.take(i as int)),
                decreases es@.len() - i,
            {
                assert(es@.take(i + 1).drop_last() =~= es@.take(i as int));
                let (k, v) = &es[i];
                let value = trim_char(v.as_str(), '"');
                e.insert(k.clone(), value);
                i += 1;
            }
            assert(es@.take(i as int) =~= es@);
        }
        e
    }

    /// A copy of the variables.
    pub fn clone_env(&self) -> (e: Self)
        requires
            self.wf(),
        ensures
            e.wf(),
            e@ == self@,
            e.names() == self.names(),
    {
        let mut e = Env::new();
        let n = self.vars.len();
        let mut i: usize = 0;
        proof {
            self.vars.lemma_view();
            self.vars.lemma_entries();
        }
        while i < n
            invariant
                i <= n,
                n == self.vars.entry_seq().len(),
                self.wf(),
                e.wf(),
                e.names() == self.names().take(i as int),
                forall|k: Seq<char>| e@.contains_key(k) <==> self.names().take(i as int).contains(k),
                forall|k: Seq<char>| #[trigger] e@.contains_key(k) ==> e@[k] == self@[k],
            decreases n - i,
        {
            let (k, v) = self.vars.entry_at(i);
            proof {
                self.vars.lemma_view();
                self.vars.lemma_entries();
                assert(self.names()[i as int] == k@);
                assert(!self.names().take(i as int).contains(k@)) by {
                    if self.names().take(i as int).contains(k@) {
                        let j = choose|j: int| 0 <= j < i && self.names().take(i as int)[j] == k@;
                        assert(self.names()[j] == self.names()[i as int]);
                    }
                }
            }
            let ghost before = e@;
            let ghost prev = self.names().take(i as int);
            e.insert(k.clone(), v.clone());
            proof {
                assert(self.names().take(i + 1) =~= prev.push(k@));
                assert(self.vars.entry_seq()[i as int] == (*k, *v));
                assert(self.vars@.contains_key(k@) && self.vars@[k@] == *v);
                assert(self@[k@] == v@);
                assert forall|x: Seq<char>| e@.contains_key(x) <==> prev.push(k@).contains(x) by {
                    if x == k@ {
                        assert(prev.push(k@)[i as int] == x);
                    } else {
                        if prev.push(k@).contains(x) {
                            let j = choose|j: int| 0 <= j < prev.push(k@).len() && prev.push(k@)[j] == x;
                            assert(prev[j] == x);
                        }
                        if prev.contains(x) {
                            let j = choose|j: int| 0 <= j < prev.len() && prev[j] == x;
                            assert(prev.push(k@)[j] == x);
                        }
                    }
                }
            }
            i += 1;
        }
        proof {
            assert(self.names().take(n as int) =~= self.names());
            self.lemma_names();
            assert(e@ =~= self@);
        }
        e
    }

    /// Sets `key` to `value`; returns the value it had before, if any.
    pub fn insert(&mut self, key: String, value: String) -> (r: Option<String>)
        requires
            old(self).wf(),
        ensures
            final(self).wf(),
            final(self)@ == old(self)@.insert(key@, value@),
            r.is_some() <==> old(self)@.contains_key(key@),
            r matches Some(v) ==> v@ == old(self)@[key@],
            old(self)@.contains_key(key@) ==> final(self).names() == old(self).names(),
            !old(self)@.contains_key(key@) ==> final(self).names() == old(self).names().push(
                key@,
            ),
    {
        let ghost k = key@;
        let ghost vv = value@;
        let r = self.vars.insert(key, value);
        assert(self@ =~= old(self)@.insert(k, vv));
        r
    }

    pub fn is_empty(&self) -> (b: bool)
        requires
            self.wf(),
        ensures
            b == (self@ == EnvMap::empty()),
    {
        let b = self.vars.is_empty();
        proof {
            if !b {
                if self@ == EnvMap::empty() {
                    assert(self.vars@.dom() =~= self@.dom());
                    assert(self.vars@ =~= Map::<Seq<char>, String>::empty());
                }
            } else {
                assert(self@ =~= EnvMap::empty());
            }
        }
        b
    }

    /// Unsets `key`; returns the value it had, if any.
    pub fn remove(&mut self, key: &str) -> (r: Option<String>)
        requires
            old(self).wf(),
        ensures
            final(self).wf(),
            final(self)@ == old(self)@.remove(key@),
            r.is_some() <==> old(self)@.contains_key(key@),
            r matches Some(v) ==> v@ == old(self)@[key@],
    {
        let r = self.vars.remove(key);
        assert(self@ =~= old(self)@.remove(key@));
        r
    }

    /// One `key=value` line per variable, in the order in which the variables were first set.
    pub fn kv_vec(self) -> (r: Vec<String>)
        requires
            self.wf(),
        ensures
            string_views(r@) == self.names().map_values(|k: Seq<char>| kv_line(k, self@[k])),
            r@.len() == self@.dom().len(),
    {
        let ghost names = self.names();
        let ghost view = self@;
        proof {
            self.vars.lemma_view();
            self.vars.lemma_entries();
        }
        let n = self.vars.len();
        assert(view.dom() == self.vars@.dom());
        let entries = self.vars.into_entries();
        proof {
            assert forall|j: int| 0 <= j < names.len() implies #[trigger] names[j]
                == entries@[j].0@ by {
                assert(names == crate::strmap::entry_keys(entries@));
            }
            assert forall|j: int| 0 <= j < names.len() implies view[#[trigger] names[j]]
                == entries@[j].1@ by {
                assert(names == crate::strmap::entry_keys(entries@));
                assert(self.vars@.contains_key(entries@[j].0@));
            }
        }
        let mut out: Vec<String> = Vec::new();
        let mut i: usize = 0;
        while i < entries.len()
            invariant
                i <= entries@.len(),
                entries@.len() == names.len(),
                entries@.len() == view.dom().len(),
                out@.len() == i,
                forall|j: int| 0 <= j < names.len() ==> #[trigger] names[j] == entries@[j].0@,
                forall|j: int|
                    0 <= j < names.len() ==> view[#[trigger] names[j]] == entries@[j].1@,
                string_views(out@) == names.take(i as int).map_values(
                    |k: Seq<char>| kv_line(k, view[k]),
                ),
            decreases entries@.len() - i,
        {
            let ghost before = out@;
            let (k, v) = &entries[i];
            let mut line = k.clone();
            push_char(&mut line, '=');
            append_str(&mut line, v.as_str());
            assert(names[i as int] == k@);
            assert(line@ == kv_line(names[i as int], view[names[i as int]]));
            out.push(line);
            assert(string_views(out@) =~= string_views(before).push(line@));
            assert(names.take(i + 1) =~= names.take(i as int).push(names[i as int]));
            assert(string_views(out@) =~= names.take(i + 1).map_values(
                |k: Seq<char>| kv_line(k, view[k]),
            ));
            i += 1;
        }
        assert(names.take(i as int) =~= names);
        out
    }

    /// The same lines as `kv_vec`.
    pub fn to_kv_vec(self) -> (r: Vec<String>)
        requires
            self.wf(),
        ensures
            string_views(r@) == self.names().map_values(|k: Seq<char>| kv_line(k, self@[k])),
            r@.len() == self@.dom().len(),
    {
        self.kv_vec()
    }
}

} // verus!
