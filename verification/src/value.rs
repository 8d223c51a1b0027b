//! A document value as recipe files hold them (YAML or TOML), and the errors met while reading
//! recipe data out of one.

use crate::strmap::str_eq;
use vstd::prelude::*;

verus! {

/// A value of a recipe document. Floating-point numbers and other kinds of values (tagged
/// YAML values, TOML dates) are kept only as the fact that such a value stood there.
#[derive(Debug)]
pub enum Value {
    Null,
    Bool(bool),
    Int(i128),
    Float,
    String(String),
    Sequence(Vec<Value>),
    Mapping(Vec<(Value, Value)>),
    Other,
}

/// Why recipe data could not be read from a document value.
#[derive(Clone, Copy, Debug, PartialEq, Eq, Structural)]
pub enum ParseError {
    /// A dependency in a list is not a string.
    DependencyNotString,
    /// The dependencies of an image are not a list.
    DependenciesNotSequence,
    /// A key of a dependency or patch table is not a string.
    ImageNameNotString,
    /// Dependencies or patches are neither a table nor a list.
    NotMappingOrSequence,
    /// A git table has no `url` entry.
    MissingUrl,
    /// The `url` of a git table is not a string.
    UrlNotString,
    /// The `branch` of a git table is not a string.
    BranchNotString,
    /// A git source is neither a table nor a string.
    GitNotMappingOrString,
    /// An image table has no `name` entry.
    MissingImageName,
    /// The `name` of an image table is not a string.
    ImageNameFieldNotString,
    /// The `target` of an image table is not a string.
    TargetNotString,
    /// The `os` of an image table is not a string.
    OsNotString,
    /// An image is neither a table nor a string.
    ImageNotMappingOrString,
    /// The `os` of an image names no known distribution.
    UnknownOs,
    /// A build target name that is not one of `rpm`, `deb`, `gzip`, `pkg`, `apk`, in any case.
    UnknownBuildTarget,
    /// A patch is neither a string nor a table.
    PatchNotStringOrMapping,
    /// A patch table lacks a string `patch` entry.
    PatchNameMissing,
    /// The `strip` level of a patch is not an integer from 0 to 255.
    InvalidStripLevel,
    /// The `images` of a patch are not a list of strings.
    InvalidPatchImages,
    /// The patches of an image are not a list.
    PatchesNotSequence,
    /// A step table has no `cmd` entry.
    MissingCmd,
    /// The `cmd` of a step table is not a string.
    CmdNotString,
    /// The `images` of a step table are not a list.
    ImagesNotSequence,
    /// An image named by a step table is not a string.
    ImageNotString,
    /// A target flag of a step table (`rpm`, `deb`, `pkg` or `gzip`) is not a boolean.
    FlagNotBool,
    /// A step is neither a string nor a table.
    StepNotStringOrMapping,
}

/// The value stored under the string key `key` in mapping entries: the first entry whose key is
/// that string.
pub open spec fn lookup(es: Seq<(Value, Value)>, key: Seq<char>) -> Option<Value>
    decreases es.len(),
{
    if es.len() == 0 {
        None
    } else {
        match es[0].0 {
            Value::String(k) => if k@ == key {
                Some(es[0].1)
            } else {
                lookup(es.drop_first(), key)
            },
            _ => lookup(es.drop_first(), key),
        }
    }
}

impl Value {
    pub fn is_null(&self) -> (b: bool)
        ensures
            b == (*self is Null),
    {
        match self {
            Value::Null => true,
            _ => false,
        }
    }

    /// The string of a string value.
    pub fn as_str(&self) -> (r: Option<&str>)
        ensures
            match *self {
                Value::String(s) => r matches Some(x) && x@ == s@,
                _ => r is None,
            },
    {
        match self {
            Value::String(s) => Some(s.as_str()),
            _ => None,
        }
    }

    /// For a mapping, the value stored under the string key `key`.
    pub fn get(&self, key: &str) -> (r: Option<&Value>)
        ensures
            match *self {
                Value::Mapping(es) => match lookup(es@, key@) {
                    Some(v) => r matches Some(x) && *x == v,
                    None => r is None,
                },
                _ => r is None,
            },
    {
        match self {
            Value::Mapping(es) => {
                let mut i: usize = 0;
                assert(es@.skip(0) =~= es@);
                while i < es.len()
                    invariant
                        *self == Value::Mapping(*es),
                        i <= es@.len(),
                        lookup(es@, key@) == lookup(es@.skip(i as int), key@),
                    decreases es@.len() - i,
                {
                    let ghost rest = es@.skip(i as int);
                    assert(rest.drop_first() =~= es@.skip(i + 1));
                    assert(rest[0] == es@[i as int]);
                    match &es[i].0 {
                        Value::String(k) => {
                            if str_eq(k.as_str(), key) {
                                return Some(&es[i].1);
                            }
                        },
                        _ => {},
                    }
                    i += 1;
                }
                assert(es@.skip(i as int) =~= Seq::<(Value, Value)>::empty());
                None
            },
            _ => None,
        }
    }
}


/// The strings held by a list of values, as a set; `None` when one of them is not a string.
pub open spec fn string_items(items: Seq<Value>) -> Option<Set<Seq<char>>>
    decreases items.len(),
{
    if items.len() == 0 {
        Some(Set::empty())
    } else {
        match string_items(items.drop_last()) {
            None => None,
            Some(s) => match items.last() {
                Value::String(x) => Some(s.insert(x@)),
                _ => None,
            },
        }
    }
}

/// The strings held by a list of values, in order; `None` when one of them is not a string.
pub open spec fn string_list(items: Seq<Value>) -> Option<Seq<Seq<char>>>
    decreases items.len(),
{
    if items.len() == 0 {
        Some(Seq::empty())
    } else {
        match string_list(items.drop_last()) {
            None => None,
            Some(s) => match items.last() {
                Value::String(x) => Some(s.push(x@)),
                _ => None,
            },
        }
    }
}

pub proof fn lemma_string_items_list(items: Seq<Value>)
    ensures
        string_items(items) is Some <==> string_list(items) is Some,
        string_list(items) matches Some(l) ==> string_items(items) == Some(l.to_set()),
    decreases items.len(),
{
    if items.len() > 0 {
        lemma_string_items_list(items.drop_last());
        if let Some(l) = string_list(items.drop_last()) {
            if let Value::String(x) = items.last() {
                l.lemma_push_to_set_commute(x@);
            }
        }
    } else {
        assert(Seq::<Seq<char>>::empty().to_set() =~= Set::<Seq<char>>::empty());
    }
}

/// The strings of a list of values, when every value is a string.
pub fn collect_strings(items: &Vec<Value>) -> (r: Option<Vec<String>>)
    ensures
        match string_list(items@) {
            Some(l) => r matches Some(v) && crate::text::string_views(v@) == l,
            None => r is None,
        },
{
    let mut out: Vec<String> = Vec::new();
    let mut i: usize = 0;
    assert(items@.take(0) =~= Seq::<Value>::empty());
    assert(crate::text::string_views(out@) =~= Seq::<Seq<char>>::empty());
    while i < items.len()
        invariant
            i <= items@.len(),
            string_list(items@.take(i as int)) == Some(crate::text::string_views(out@)),
        decreases items@.len() - i,
    {
        assert(items@.take(i + 1).drop_last() =~= items@.take(i as int));
        assert(items@.take(i + 1).last() == items@[i as int]);
        match &items[i] {
            Value::String(s) => {
                out.push(s.clone());
                assert(crate::text::string_views(out@) =~= crate::text::string_views(
                    out@.drop_last(),
                ).push(s@));
            },
            _ => {
                proof {
                    lemma_string_list_prefix_none(items@, i as int + 1);
                }
                return None;
            },
        }
        i += 1;
    }
    assert(items@.take(i as int) =~= items@);
    Some(out)
}

/// Once a prefix holds a non-string, so does every longer prefix.
pub proof fn lemma_string_list_prefix_none(items: Seq<Value>, k: int)
    requires
        0 <= k <= items.len(),
        string_list(items.take(k)) is None,
    ensures
        string_list(items) is None,
    decreases items.len() - k,
{
    if k < items.len() {
        assert(items.take(k + 1).drop_last() =~= items.take(k));
        lemma_string_list_prefix_none(items, k + 1);
    } else {
        assert(items.take(k) =~= items);
    }
}

} // verus!
