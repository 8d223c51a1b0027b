//! Dependencies of a recipe, common to all images or given per image.

use super::os::str_views;
use crate::strmap::{str_eq, StrMap};
use crate::text::{split_char, split_char_str, string_views};
use crate::value::{
    collect_strings, lemma_string_items_list, string_items, string_list, ParseError, Value,
};
use vstd::prelude::*;

verus! {

/// The key under which the dependencies of every image are kept.
pub const COMMON_DEPS_KEY: &'static str = "all";

/// Dependencies by image name.
pub type DepsMap = Map<Seq<char>, Set<Seq<char>>>;

/// The dependencies a list holds, as a set.
pub open spec fn set_of(v: Vec<String>) -> Set<Seq<char>> {
    string_views(v@).to_set()
}

/// The view of a map of dependency lists.
pub open spec fn deps_view(m: StrMap<Vec<String>>) -> DepsMap {
    m@.map_values(|v: Vec<String>| set_of(v))
}

/// Dependencies before any are given: an empty common set.
pub open spec fn default_deps() -> DepsMap {
    map![COMMON_DEPS_KEY@ => Set::<Seq<char>>::empty()]
}

/// The dependencies stored for `image`, empty when it has none.
pub open spec fn deps_of(m: DepsMap, image: Seq<char>) -> Set<Seq<char>> {
    if m.contains_key(image) {
        m[image]
    } else {
        Set::empty()
    }
}

/// What an image depends on: the common dependencies and its own.
pub open spec fn resolved(m: DepsMap, image: Seq<char>) -> Set<Seq<char>> {
    deps_of(m, COMMON_DEPS_KEY@).union(deps_of(m, image))
}

/// `m` with `deps` added to the dependencies of `image`.
pub open spec fn merged(m: DepsMap, image: Seq<char>, deps: Set<Seq<char>>) -> DepsMap {
    m.insert(image, deps_of(m, image).union(deps))
}

/// `m` with `deps` added to each image of `parts`, in order.
pub open spec fn merge_parts(m: DepsMap, parts: Seq<Seq<char>>, deps: Set<Seq<char>>) -> DepsMap
    decreases parts.len(),
{
    if parts.len() == 0 {
        m
    } else {
        merged(merge_parts(m, parts.drop_last(), deps), parts.last(), deps)
    }
}

/// Adds one entry of a dependency table: its key names one image, or several joined by `+`,
/// and its value lists the dependencies, all strings.
pub open spec fn deps_add_entry(m: DepsMap, e: (Value, Value)) -> Result<DepsMap, ParseError> {
    match e.1 {
        Value::Sequence(items) => match string_items(items@) {
            None => Err(ParseError::DependencyNotString),
            Some(set) => match e.0 {
                Value::String(name) => Ok(merge_parts(m, split_char(name@, '+'), set)),
                _ => Err(ParseError::ImageNameNotString),
            },
        },
        _ => Err(ParseError::DependenciesNotSequence),
    }
}

/// The dependencies a table gives, entry after entry; the first bad entry decides the error.
pub open spec fn deps_from_entries(es: Seq<(Value, Value)>) -> Result<DepsMap, ParseError>
    decreases es.len(),
{
    if es.len() == 0 {
        Ok(default_deps())
    } else {
        match deps_from_entries(es.drop_last()) {
            Ok(m) => deps_add_entry(m, es.last()),
            Err(e) => Err(e),
        }
    }
}

/// The dependencies a document value gives: a table by image, or a list common to all images.
pub open spec fn spec_deps_from_value(v: Value) -> Result<DepsMap, ParseError> {
    match v {
        Value::Mapping(es) => deps_from_entries(es@),
        Value::Sequence(items) => match string_items(items@) {
            Some(set) => Ok(map![COMMON_DEPS_KEY@ => set]),
            None => Err(ParseError::DependencyNotString),
        },
        _ => Err(ParseError::NotMappingOrSequence),
    }
}

#[derive(Clone, Debug)]
pub struct Dependencies {
    inner: StrMap<Vec<String>>,
}

impl View for Dependencies {
    type V = DepsMap;

    closed spec fn view(&self) -> DepsMap {
        deps_view(self.inner)
    }
}

/// Appends to `out` every item of `items` that it does not hold yet.
pub fn push_unique<'a>(out: &mut Vec<&'a str>, items: &'a Vec<String>)
    requires
        str_views(old(out)@).no_duplicates(),
    ensures
        str_views(final(out)@).no_duplicates(),
        str_views(final(out)@).to_set() == str_views(old(out)@).to_set().union(
            set_of(*items),
        ),
{
    let ghost start = str_views(old(out)@).to_set();
    let mut i: usize = 0;
    assert(string_views(items@).take(0).to_set() =~= Set::<Seq<char>>::empty());
    assert(start.union(Set::<Seq<char>>::empty()) =~= start);
    while i < items.len()
        invariant
            i <= items@.len(),
            str_views(out@).no_duplicates(),
            str_views(out@).to_set() == start.union(
                string_views(items@).take(i as int).to_set(),
            ),
        decreases items@.len() - i,
    {
        let item = items[i].as_str();
        let found = str_list_contains(out, item);
        let ghost views = str_views(out@);
        proof {
            assert(string_views(items@).take(i + 1) =~= string_views(items@).take(i as int).push(
                item@,
            ));
            string_views(items@).take(i as int).lemma_push_to_set_commute(item@);
        }
        if !found {
            out.push(item);
            proof {
                assert(str_views(out@) =~= views.push(item@));
                views.lemma_push_to_set_commute(item@);
                assert(views.push(item@).no_duplicates());
            }
        }
        assert(str_views(out@).to_set() =~= start.union(
            string_views(items@).take(i + 1).to_set(),
        ));
        i += 1;
    }
    assert(string_views(items@).take(items@.len() as int) =~= string_views(items@));
}

/// Whether a list of string slices holds `item`.
pub fn str_list_contains(v: &Vec<&str>, item: &str) -> (b: bool)
    ensures
        b == str_views(v@).contains(item@),
{
    let mut j: usize = 0;
    while j < v.len()
        invariant
            j <= v@.len(),
            forall|k: int| 0 <= k < j ==> v@[k]@ != item@,
        decreases v@.len() - j,
    {
        if str_eq(v[j], item) {
            assert(str_views(v@)[j as int] == item@);
            return true;
        }
        j += 1;
    }
    assert(!str_views(v@).contains(item@)) by {
        if str_views(v@).contains(item@) {
            let k = choose|k: int|
                0 <= k < str_views(v@).len() && str_views(v@)[k]
                    == item@;
            assert(v@[k]@ == item@);
        }
    }
    false
}

impl Dependencies {
    pub closed spec fn wf(&self) -> bool {
        self.inner.wf()
    }

    /// Dependencies with an empty common set.
    pub fn default() -> (d: Self)
        ensures
            d.wf(),
            d@ == default_deps(),
    {
        let mut inner = StrMap::new();
        let empty: Vec<String> = Vec::new();
        assert(string_views(empty@) =~= Seq::<Seq<char>>::empty());
        assert(set_of(empty) =~= Set::<Seq<char>>::empty());
        let ghost before = inner@;
        inner.insert(String::from_str(COMMON_DEPS_KEY), empty);
        let d = Dependencies { inner };
        assert(inner@ =~= before.insert(COMMON_DEPS_KEY@, empty));
        assert(d@ =~= default_deps());
        d
    }

    /// Adds `deps` to the dependencies of `image`, creating its entry when there is none.
    pub fn update_or_insert(&mut self, image: String, deps: &Vec<String>)
        requires
            old(self).wf(),
        ensures
            final(self).wf(),
            final(self)@ == merged(old(self)@, image@, set_of(*deps)),
    {
        let ghost old_view = self@;
        let mut current = match self.inner.remove(image.as_str()) {
            Some(v) => v,
            None => Vec::new(),
        };
        let ghost before = current;
        assert(set_of(before) == deps_of(old_view, image@)) by {
            if !old_view.contains_key(image@) {
                assert(string_views(before@) =~= Seq::<Seq<char>>::empty());
                assert(set_of(before) =~= Set::<Seq<char>>::empty());
            }
        }
        let mut i: usize = 0;
        assert(string_views(deps@).take(0).to_set() =~= Set::<Seq<char>>::empty());
        assert(set_of(current) =~= set_of(before).union(string_views(deps@).take(0).to_set()));
        while i < deps.len()
            invariant
                i <= deps@.len(),
                set_of(current) == set_of(before).union(string_views(deps@).take(i as int).to_set()),
            decreases deps@.len() - i,
        {
            let ghost prev = current;
            current.push(deps[i].clone());
            proof {
                assert(string_views(current@) =~= string_views(prev@).push(deps@[i as int]@));
                string_views(prev@).lemma_push_to_set_commute(deps@[i as int]@);
                assert(string_views(deps@).take(i + 1) =~= string_views(deps@).take(
                    i as int,
                ).push(deps@[i as int]@));
                string_views(deps@).take(i as int).lemma_push_to_set_commute(deps@[i as int]@);
            }
            assert(set_of(current) =~= set_of(before).union(
                string_views(deps@).take(i + 1).to_set(),
            ));
            i += 1;
        }
        assert(string_views(deps@).take(deps@.len() as int) =~= string_views(deps@));
        let ghost k = image@;
        let ghost cur = current;
        self.inner.insert(image, current);
        assert(self@ =~= merged(old_view, k, set_of(*deps))) by {
            assert(self.inner@ == old(self).inner@.remove(k).insert(k, cur));
        }
    }

    /// Reads dependencies from a document value: a table of lists by image name (where
    /// `a+b` stands for both `a` and `b`), or a list common to all images.
    pub fn from_value(value: &Value) -> (r: Result<Self, ParseError>)
        ensures
            match spec_deps_from_value(*value) {
                Ok(m) => r matches Ok(d) && d.wf() && d@ == m,
                Err(e) => r == Err::<Self, ParseError>(e),
            },
    {
        match value {
            Value::Mapping(es) => {
                let mut deps = Self::default();
                let mut i: usize = 0;
                assert(es@.take(0) =~= Seq::<(Value, Value)>::empty());
                while i < es.len()
                    invariant
                        *value == Value::Mapping(*es),
                        i <= es@.len(),
                        deps.wf(),
                        deps_from_entries(es@.take(i as int)) == Ok::<DepsMap, ParseError>(deps@),
                    decreases es@.len() - i,
                {
                    let ghost m = deps@;
                    assert(es@.take(i + 1).drop_last() =~= es@.take(i as int));
                    assert(es@.take(i + 1).last() == es@[i as int]);
                    let (image, image_deps) = &es[i];
                    match image_deps {
                        Value::Sequence(items) => {
                            proof {
                                lemma_string_items_list(items@);
                            }
                            let deps_set = match collect_strings(items) {
                                Some(v) => v,
                                None => {
                                    proof {
                                        lemma_deps_prefix_err(es@, i as int + 1);
                                    }
                                    return Err(ParseError::DependencyNotString);
                                },
                            };
                            let name = match image {
                                Value::String(name) => name,
                                _ => {
                                    proof {
                                        lemma_deps_prefix_err(es@, i as int + 1);
                                    }
                                    return Err(ParseError::ImageNameNotString);
                                },
                            };
                            let parts = split_char_str(name.as_str(), '+');
                            let ghost set = set_of(deps_set);
                            let mut j: usize = 0;
                            assert(string_views(parts@).take(0) =~= Seq::<Seq<char>>::empty());
                            while j < parts.len()
                                invariant
                                    j <= parts@.len(),
                                    deps.wf(),
                                    deps@ == merge_parts(
                                        m,
                                        string_views(parts@).take(j as int),
                                        set,
                                    ),
                                    set == set_of(deps_set),
                                decreases parts@.len() - j,
                            {
                                assert(string_views(parts@).take(j + 1).drop_last()
                                    =~= string_views(parts@).take(j as int));
                                deps.update_or_insert(parts[j].clone(), &deps_set);
                                j += 1;
                            }
                            assert(string_views(parts@).take(parts@.len() as int) =~= string_views(
                                parts@,
                            ));
                        },
                        _ => {
                            proof {
                                lemma_deps_prefix_err(es@, i as int + 1);
                            }
                            return Err(ParseError::DependenciesNotSequence);
                        },
                    }
                    i += 1;
                }
                assert(es@.take(i as int) =~= es@);
                Ok(deps)
            },
            Value::Sequence(array) => {
                proof {
                    lemma_string_items_list(array@);
                }
                match collect_strings(array) {
                    Some(dep_set) => {
                        let mut deps = Self::default();
                        let ghost old_inner = deps.inner@;
                        let ghost ds = dep_set;
                        assert(deps@.dom() == old_inner.dom());
                        assert(default_deps().dom() =~= set![COMMON_DEPS_KEY@]);
                        deps.inner.insert(String::from_str(COMMON_DEPS_KEY), dep_set);
                        assert(deps.inner@ == old_inner.insert(COMMON_DEPS_KEY@, ds));
                        assert(deps_view(deps.inner).dom() =~= set![COMMON_DEPS_KEY@]);
                        assert(deps@ =~= map![COMMON_DEPS_KEY@ => set_of(ds)]);
                        Ok(deps)
                    },
                    None => Err(ParseError::DependencyNotString),
                }
            },
            _ => Err(ParseError::NotMappingOrSequence),
        }
    }

    /// The dependencies of `image`, its own and the common ones, each once.
    pub fn resolve_names(&self, image: &str) -> (r: Vec<&str>)
        requires
            self.wf(),
        ensures
            str_views(r@).no_duplicates(),
            str_views(r@).to_set() == resolved(self@, image@),
    {
        let mut deps: Vec<&str> = Vec::new();
        assert(str_views(deps@) =~= Seq::<Seq<char>>::empty());
        assert(str_views(deps@).to_set() =~= Set::<Seq<char>>::empty());
        if let Some(common_deps) = self.inner.get(COMMON_DEPS_KEY) {
            push_unique(&mut deps, common_deps);
        }
        if let Some(image_deps) = self.inner.get(image) {
            push_unique(&mut deps, image_deps);
        }
        assert(str_views(deps@).to_set() =~= resolved(self@, image@));
        deps
    }

    /// Whether `image` depends on `dependency`, directly or through the common dependencies.
    pub fn depends_on(&self, image: &str, dependency: &str) -> (b: bool)
        requires
            self.wf(),
        ensures
            b == resolved(self@, image@).contains(dependency@),
    {
        if let Some(common_deps) = self.inner.get(COMMON_DEPS_KEY) {
            if list_contains(common_deps, dependency) {
                return true;
            }
        }
        if let Some(image_deps) = self.inner.get(image) {
            return list_contains(image_deps, dependency);
        }
        false
    }

    pub fn inner(&self) -> (r: &StrMap<Vec<String>>)
        ensures
            deps_view(*r) == self@,
            r.wf() == self.wf(),
    {
        &self.inner
    }

    pub fn inner_mut(&mut self) -> (r: &mut StrMap<Vec<String>>)
        ensures
            deps_view(*r) == old(self)@,
            r.wf() == old(self).wf(),
            deps_view(*final(r)) == final(self)@,
            final(r).wf() == final(self).wf(),
    {
        &mut self.inner
    }
}

/// Whether `v` holds `item`.
pub fn list_contains(v: &Vec<String>, item: &str) -> (b: bool)
    ensures
        b == set_of(*v).contains(item@),
{
    let mut i: usize = 0;
    while i < v.len()
        invariant
            i <= v@.len(),
            forall|k: int| 0 <= k < i ==> v@[k]@ != item@,
        decreases v@.len() - i,
    {
        if str_eq(v[i].as_str(), item) {
            assert(string_views(v@)[i as int] == item@);
            return true;
        }
        i += 1;
    }
    assert(!string_views(v@).contains(item@)) by {
        if string_views(v@).contains(item@) {
            let k = choose|k: int| 0 <= k < string_views(v@).len() && string_views(v@)[k] == item@;
            assert(v@[k]@ == item@);
        }
    }
    false
}

/// Once a prefix of a dependency table fails, the whole table fails with the same error.
pub proof fn lemma_deps_prefix_err(es: Seq<(Value, Value)>, k: int)
    requires
        0 <= k <= es.len(),
        deps_from_entries(es.take(k)) is Err,
    ensures
        deps_from_entries(es) == deps_from_entries(es.take(k)),
    decreases es.len() - k,
{
    if k < es.len() {
        assert(es.take(k + 1).drop_last() =~= es.take(k));
        lemma_deps_prefix_err(es, k + 1);
    } else {
        assert(es.take(k) =~= es);
    }
}

/// Laws of dependencies.
///
/// An image depends on a dependency exactly when the dependency is among the names that
/// `resolve_names` gives for it.
pub proof fn lemma_depends_on_agrees_with_resolve_names(
    deps: Dependencies,
    image: Seq<char>,
    dependency: Seq<char>,
)
    ensures
        resolved(deps@, image).contains(dependency) <==> (deps_of(deps@, COMMON_DEPS_KEY@).contains(
            dependency,
        ) || deps_of(deps@, image).contains(dependency)),
{
}

/// The common dependencies belong to every image.
pub proof fn lemma_common_deps_in_every_image(m: DepsMap, image: Seq<char>)
    ensures
        deps_of(m, COMMON_DEPS_KEY@).subset_of(resolved(m, image)),
{
}

/// After dependencies are added to an image, it depends on them and on all it depended on
/// before; other images are unchanged.
pub proof fn lemma_update_or_insert_adds(
    m: DepsMap,
    image: Seq<char>,
    deps: Set<Seq<char>>,
    other: Seq<char>,
)
    requires
        other != image,
        other != COMMON_DEPS_KEY@,
    ensures
        deps.subset_of(resolved(merged(m, image, deps), image)),
        resolved(m, image).subset_of(resolved(merged(m, image, deps), image)),
        deps_of(merged(m, image, deps), other) == deps_of(m, other),
{
}

/// `m` after adding, in order, each group of dependencies to its image, as
/// `Dependencies::update_or_insert` does.
pub open spec fn updated(m: DepsMap, updates: Seq<(Seq<char>, Set<Seq<char>>)>) -> DepsMap
    decreases updates.len(),
{
    if updates.len() == 0 {
        m
    } else {
        merged(updated(m, updates.drop_last()), updates.last().0, updates.last().1)
    }
}

proof fn lemma_updated_keeps_key(
    m: DepsMap,
    updates: Seq<(Seq<char>, Set<Seq<char>>)>,
    key: Seq<char>,
)
    requires
        m.contains_key(key),
    ensures
        updated(m, updates).contains_key(key),
    decreases updates.len(),
{
    if updates.len() > 0 {
        lemma_updated_keeps_key(m, updates.drop_last(), key);
    }
}

proof fn lemma_merge_parts_keeps_key(
    m: DepsMap,
    parts: Seq<Seq<char>>,
    deps: Set<Seq<char>>,
    key: Seq<char>,
)
    requires
        m.contains_key(key),
    ensures
        merge_parts(m, parts, deps).contains_key(key),
    decreases parts.len(),
{
    if parts.len() > 0 {
        lemma_merge_parts_keeps_key(m, parts.drop_last(), deps, key);
    }
}

proof fn lemma_entries_keep_common_key(es: Seq<(Value, Value)>)
    ensures
        deps_from_entries(es) matches Ok(m) ==> m.contains_key(COMMON_DEPS_KEY@),
    decreases es.len(),
{
    if es.len() > 0 {
        lemma_entries_keep_common_key(es.drop_last());
        if let Ok(m) = deps_from_entries(es.drop_last()) {
            let e = es.last();
            if let Value::Sequence(items) = e.1 {
                if let Some(set) = string_items(items@) {
                    if let Value::String(name) = e.0 {
                        lemma_merge_parts_keeps_key(m, split_char(name@, '+'), set, COMMON_DEPS_KEY@);
                    }
                }
            }
        }
    }
}

/// Dependencies always hold an entry for the common key: the defaults have it, every
/// successful read of a document gives it, and adding dependencies to images keeps it, however
/// many times.
pub proof fn lemma_common_key_always_present(
    value: Value,
    updates: Seq<(Seq<char>, Set<Seq<char>>)>,
)
    ensures
        updated(default_deps(), updates).contains_key(COMMON_DEPS_KEY@),
        spec_deps_from_value(value) matches Ok(m) ==> updated(m, updates).contains_key(
            COMMON_DEPS_KEY@,
        ),
{
    assert(default_deps().contains_key(COMMON_DEPS_KEY@));
    lemma_updated_keeps_key(default_deps(), updates, COMMON_DEPS_KEY@);
    match value {
        Value::Mapping(es) => {
            lemma_entries_keep_common_key(es@);
        },
        _ => {},
    }
    if let Ok(m) = spec_deps_from_value(value) {
        lemma_updated_keeps_key(m, updates, COMMON_DEPS_KEY@);
    }
}

} // verus!
