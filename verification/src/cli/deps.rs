//! Dependencies of a TOML recipe, common to all images or given per image.

use crate::recipe::metadata::deps::{
    default_deps, deps_view, push_unique, resolved, set_of, DepsMap, COMMON_DEPS_KEY,
};
use crate::recipe::metadata::os::str_views;
use crate::strmap::StrMap;
use crate::text::string_views;
use crate::value::{collect_strings, lemma_string_items_list, string_items, ParseError, Value};
use vstd::prelude::*;

verus! {

/// Adds one entry of a dependency table: its key names an image, its value lists the
/// dependencies of that image, all strings, and replaces any list given before.
pub open spec fn table_add_entry(m: DepsMap, e: (Value, Value)) -> Result<DepsMap, ParseError> {
    match e.1 {
        Value::Sequence(items) => match string_items(items@) {
            None => Err(ParseError::DependencyNotString),
            Some(set) => match e.0 {
                Value::String(name) => Ok(m.insert(name@, set)),
                _ => Err(ParseError::ImageNameNotString),
            },
        },
        _ => Err(ParseError::DependenciesNotSequence),
    }
}

/// The dependencies a table gives, entry after entry; the first bad entry decides the error.
pub open spec fn table_from_entries(es: Seq<(Value, Value)>) -> Result<DepsMap, ParseError>
    decreases es.len(),
{
    if es.len() == 0 {
        Ok(default_deps())
    } else {
        match table_from_entries(es.drop_last()) {
            Ok(m) => table_add_entry(m, es.last()),
            Err(e) => Err(e),
        }
    }
}

/// The dependencies a TOML value gives: a table by image, or an array common to all images.
pub open spec fn spec_toml_deps(v: Value) -> Result<DepsMap, ParseError> {
    match v {
        Value::Mapping(es) => table_from_entries(es@),
        Value::Sequence(items) => match string_items(items@) {
            Some(set) => Ok(map![COMMON_DEPS_KEY@ => set]),
            None => Err(ParseError::DependencyNotString),
        },
        _ => Err(ParseError::NotMappingOrSequence),
    }
}

/// Once a prefix of a dependency table fails, the whole table fails with the same error.
pub proof fn lemma_table_prefix_err(es: Seq<(Value, Value)>, k: int)
    requires
        0 <= k <= es.len(),
        table_from_entries(es.take(k)) is Err,
    ensures
        table_from_entries(es) == table_from_entries(es.take(k)),
    decreases es.len() - k,
{
    if k < es.len() {
        assert(es.take(k + 1).drop_last() =~= es.take(k));
        lemma_table_prefix_err(es, k + 1);
    } else {
        assert(es.take(k) =~= es);
    }
}

#[derive(Clone, Debug)]
pub struct Dependencies {
    inner: StrMap<Vec<String>>,
}

impl View for Dependencies {
    type V = DepsMap;

    closed spec fn view(&self) -> DepsMap {
        deps_view(self.inner)
    }
}

impl Dependencies {
    pub closed spec fn wf(&self) -> bool {
        self.inner.wf()
    }

    /// Dependencies with an empty common set.
    pub fn default() -> (d: Self)
        ensures
            d.wf(),
            d@ == default_deps(),
    {
        let mut inner = StrMap::new();
        let empty: Vec<String> = Vec::new();
        assert(set_of(empty) =~= Set::<Seq<char>>::empty());
        let ghost before = inner@;
        inner.insert(String::from_str(COMMON_DEPS_KEY), empty);
        let d = Dependencies { inner };
        assert(inner@ =~= before.insert(COMMON_DEPS_KEY@, empty));
        assert(d@ =~= default_deps());
        d
    }

    /// Reads dependencies from a TOML value: a table of arrays by image name, or an array
    /// common to all images.
    pub fn from_value(value: &Value) -> (r: Result<Self, ParseError>)
        ensures
            match spec_toml_deps(*value) {
                Ok(m) => r matches Ok(d) && d.wf() && d@ == m,
                Err(e) => r == Err::<Self, ParseError>(e),
            },
    {
        match value {
            Value::Mapping(es) => {
                let mut deps = Self::default();
                let mut i: usize = 0;
                assert(es@.take(0) =~= Seq::<(Value, Value)>::empty());
                while i < es.len()
                    invariant
                        *value == Value::Mapping(*es),
                        i <= es@.len(),
                        deps.wf(),
                        table_from_entries(es@.take(i as int)) == Ok::<DepsMap, ParseError>(
                            deps@,
                        ),
                    decreases es@.len() - i,
                {
                    let ghost m = deps@;
                    assert(es@.take(i + 1).drop_last() =~= es@.take(i as int));
                    assert(es@.take(i + 1).last() == es@[i as int]);
                    let (image, image_deps) = &es[i];
                    match image_deps {
                        Value::Sequence(items) => {
                            proof {
                                lemma_string_items_list(items@);
                            }
                            let deps_set = match collect_strings(items) {
                                Some(v) => v,
                                None => {
                                    proof {
                                        lemma_table_prefix_err(es@, i as int + 1);
                                    }
                                    return Err(ParseError::DependencyNotString);
                                },
                            };
                            let name = match image {
                                Value::String(name) => name.clone(),
                                _ => {
                                    proof {
                                        lemma_table_prefix_err(es@, i as int + 1);
                                    }
                                    return Err(ParseError::ImageNameNotString);
                                },
                            };
                            let ghost old_inner = deps.inner@;
                            let ghost k = name@;
                            let ghost l = deps_set;
                            deps.inner.insert(name, deps_set);
                            assert(deps.inner@ == old_inner.insert(k, l));
                            assert(deps@ =~= m.insert(k, set_of(l)));
                        },
                        _ => {
                            proof {
                                lemma_table_prefix_err(es@, i as int + 1);
                            }
                            return Err(ParseError::DependenciesNotSequence);
                        },
                    }
                    i += 1;
                }
                assert(es@.take(i as int) =~= es@);
                Ok(deps)
            },
            Value::Sequence(array) => {
                proof {
                    lemma_string_items_list(array@);
                }
                match collect_strings(array) {
                    Some(dep_set) => {
                        let mut deps = Self::default();
                        let ghost old_inner = deps.inner@;
                        let ghost ds = dep_set;
                        assert(deps@.dom() == old_inner.dom());
                        assert(default_deps().dom() =~= set![COMMON_DEPS_KEY@]);
                        deps.inner.insert(String::from_str(COMMON_DEPS_KEY), dep_set);
                        assert(deps.inner@ == old_inner.insert(COMMON_DEPS_KEY@, ds));
                        assert(deps_view(deps.inner).dom() =~= set![COMMON_DEPS_KEY@]);
                        assert(deps@ =~= map![COMMON_DEPS_KEY@ => set_of(ds)]);
                        Ok(deps)
                    },
                    None => Err(ParseError::DependencyNotString),
                }
            },
            _ => Err(ParseError::NotMappingOrSequence),
        }
    }

    /// The dependencies of `image`, its own and the common ones, each once.
    pub fn resolve_names(&self, image: &str) -> (r: Vec<&str>)
        requires
            self.wf(),
        ensures
            str_views(r@).no_duplicates(),
            str_views(r@).to_set() == resolved(self@, image@),
    {
        let mut deps: Vec<&str> = Vec::new();
        assert(str_views(deps@) =~= Seq::<Seq<char>>::empty());
        assert(str_views(deps@).to_set() =~= Set::<Seq<char>>::empty());
        if let Some(common_deps) = self.inner.get(COMMON_DEPS_KEY) {
            push_unique(&mut deps, common_deps);
        }
        if let Some(image_deps) = self.inner.get(image) {
            push_unique(&mut deps, image_deps);
        }
        assert(str_views(deps@).to_set() =~= resolved(self@, image@));
        deps
    }

    pub fn inner(&self) -> (r: &StrMap<Vec<String>>)
        ensures
            deps_view(*r) == self@,
            r.wf() == self.wf(),
    {
        &self.inner
    }

    pub fn inner_mut(&mut self) -> (r: &mut StrMap<Vec<String>>)
        ensures
            deps_view(*r) == old(self)@,
            r.wf() == old(self).wf(),
            deps_view(*final(r)) == final(self)@,
            final(r).wf() == final(self).wf(),
    {
        &mut self.inner
    }
}

} // verus!
