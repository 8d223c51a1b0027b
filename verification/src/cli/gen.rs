//! A recipe written from the options of the `gen-recipe` command.

use crate::recipe::document::{spec_check_sections, RecipeRep};
use crate::recipe::metadata::metadata_error;
use crate::recipe::metadata::{ApkRep, DebRep, MetadataRep, PkgRep, RpmRep};
use crate::recipe::scripts::ScriptRep;
use crate::text::{split_char, split_char_str, string_views};
use crate::recipe::metadata::git::{spec_git_from_value, SpecGitSource};
use crate::value::{lookup, string_list, Value};
use vstd::prelude::*;

verus! {

/// The options of the `gen-recipe` command.
#[derive(Clone, Debug)]
pub struct GenRecipeOpts {
    pub name: String,
    pub version: Option<String>,
    pub description: Option<String>,
    pub license: Option<String>,
    pub maintainer: Option<String>,
    pub url: Option<String>,
    pub arch: Option<String>,
    pub source: Option<String>,
    pub git_url: Option<String>,
    pub git_branch: Option<String>,
    pub skip_default_deps: Option<bool>,
    pub exclude: Option<Vec<String>>,
    pub group: Option<String>,
    pub release: Option<String>,
    pub epoch: Option<String>,
    pub build_depends: Vec<String>,
    pub depends: Vec<String>,
    pub conflicts: Vec<String>,
    pub provides: Vec<String>,
    /// Variables as `KEY=VALUE` pairs separated by commas
    pub env: Option<String>,
    pub priority: Option<String>,
    pub built_using: Option<String>,
    pub essential: Option<bool>,
    pub pre_depends: Vec<String>,
    pub recommended: Vec<String>,
    pub suggests: Vec<String>,
    pub breaks: Vec<String>,
    pub replaces: Vec<String>,
    pub enhances: Vec<String>,
    pub obsoletes: Vec<String>,
    pub vendor: Option<String>,
    pub icon: Option<String>,
    pub summary: Option<String>,
    pub config_noreplace: Option<String>,
    pub install_script: Option<String>,
    pub backup_files: Vec<String>,
    pub optdepends: Vec<String>,
}

/// The variables that `KEY=VALUE` pairs separated by commas set, in order: a pair without `=`
/// sets nothing, and a pair with more than one `=` ends its value at the second.
pub open spec fn env_pairs(pieces: Seq<Seq<char>>) -> Seq<(Seq<char>, Seq<char>)>
    decreases pieces.len(),
{
    if pieces.len() == 0 {
        Seq::empty()
    } else {
        let pre = env_pairs(pieces.drop_last());
        let kv = split_char(pieces.last(), '=');
        if kv.len() >= 2 {
            pre.push((kv[0], kv[1]))
        } else {
            pre
        }
    }
}

/// The pairs of a table whose keys and values are strings.
pub open spec fn string_pairs(es: Seq<(Value, Value)>) -> Option<Seq<(Seq<char>, Seq<char>)>>
    decreases es.len(),
{
    if es.len() == 0 {
        Some(Seq::empty())
    } else {
        match (string_pairs(es.drop_last()), es.last()) {
            (Some(pre), (Value::String(k), Value::String(v))) => Some(pre.push((k@, v@))),
            _ => None,
        }
    }
}

/// Reading string pairs keeps their number.
pub proof fn lemma_string_pairs_len(es: Seq<(Value, Value)>)
    ensures
        string_pairs(es) matches Some(p) ==> p.len() == es.len(),
    decreases es.len(),
{
    if es.len() > 0 {
        lemma_string_pairs_len(es.drop_last());
    }
}

/// A list of dependencies as a document value: null when empty, otherwise a list of strings.
pub open spec fn deps_value_of(r: Value, v: Seq<String>) -> bool {
    if v.len() == 0 {
        r is Null
    } else {
        r matches Value::Sequence(items) && string_list(items@) == Some(string_views(v))
    }
}

/// The document value of a list of dependencies.
pub fn deps_value(v: &Vec<String>) -> (r: Value)
    ensures
        deps_value_of(r, v@),
{
    if v.len() == 0 {
        return Value::Null;
    }
    let mut items: Vec<Value> = Vec::new();
    let mut i: usize = 0;
    assert(items@ =~= Seq::<Value>::empty());
    assert(string_views(v@.take(0)) =~= Seq::<Seq<char>>::empty());
    while i < v.len()
        invariant
            i <= v@.len(),
            items@.len() == i,
            string_list(items@) == Some(string_views(v@.take(i as int))),
        decreases v@.len() - i,
    {
        let ghost before = items@;
        items.push(Value::String(v[i].clone()));
        assert(items@.drop_last() =~= before);
        assert(string_views(v@.take(i + 1)) =~= string_views(v@.take(i as int)).push(v@[i as int]@));
        i += 1;
    }
    assert(v@.take(i as int) =~= v@);
    Value::Sequence(items)
}

/// The git source of a generated recipe: a table with the URL and, when given, the branch.
pub open spec fn git_value_of(r: Value, url: Option<String>, branch: Option<String>) -> bool {
    match url {
        None => r is Null,
        Some(u) => r matches Value::Mapping(es) && es@.len() == (if branch is Some {
            2int
        } else {
            1
        }) && lookup(es@, "url"@) == Some(Value::String(u)) && match branch {
            Some(b) => lookup(es@, "branch"@) == Some(Value::String(b)),
            None => lookup(es@, "branch"@) is None,
        },
    }
}

/// The git source of a generated recipe reads back as the URL and branch given, on branch
/// `master` when none is.
pub proof fn lemma_gen_git_reads_back(r: Value, url: String, branch: Option<String>)
    requires
        git_value_of(r, Some(url), branch),
    ensures
        spec_git_from_value(r) == Ok::<SpecGitSource, crate::value::ParseError>(
            SpecGitSource {
                url: url@,
                branch: match branch {
                    Some(b) => b@,
                    None => "master"@,
                },
            },
        ),
{
}

/// A generated recipe is a valid base recipe: its sections check out and its metadata has
/// every required field.
pub proof fn lemma_generated_recipe_is_valid(r: RecipeRep, o: GenRecipeOpts)
    requires
        gen_recipe_of(r, o),
    ensures
        spec_check_sections(r) == Ok::<bool, crate::recipe::error::RecipeError>(false),
        metadata_error(r.metadata.unwrap()) is None,
{
}

/// `r` is the recipe the options describe: the metadata given, version `1.0.0` and
/// description and license `missing` unless given, the dependency lists as values (null when
/// empty), the git source as a table, the DEB, RPM and PKG sections from their options, the
/// variables of `env` when it sets any, and an empty build script.
pub open spec fn gen_recipe_of(r: RecipeRep, o: GenRecipeOpts) -> bool {
    &&& r.from is None
    &&& r.configure is None
    &&& r.install is None
    &&& r.build matches Some(b) && b.steps@.len() == 0 && b.working_dir is None && b.shell is None
    &&& match o.env {
        None => r.env is None,
        Some(e) => {
            let pairs = env_pairs(split_char(e@, ','));
            if pairs.len() == 0 {
                r.env is None
            } else {
                r.env matches Some(es) && string_pairs(es@) == Some(pairs)
            }
        },
    }
    &&& r.metadata matches Some(m) && {
        &&& m.name == Some(o.name)
        &&& m.version matches Some(v) && v@ == match o.version {
            Some(x) => x@,
            None => "1.0.0"@,
        }
        &&& m.description matches Some(v) && v@ == match o.description {
            Some(x) => x@,
            None => "missing"@,
        }
        &&& m.license matches Some(v) && v@ == match o.license {
            Some(x) => x@,
            None => "missing"@,
        }
        &&& !m.all_images && m.images@.len() == 0
        &&& m.maintainer == o.maintainer && m.url == o.url && m.arch == o.arch
        &&& m.source == o.source
        &&& git_value_of(m.git, o.git_url, o.git_branch)
        &&& m.skip_default_deps == o.skip_default_deps
        &&& match o.exclude {
            Some(v) => m.exclude matches Some(w) && w@ == v@,
            None => m.exclude is None,
        }
        &&& m.group == o.group && m.release == o.release && m.epoch == o.epoch
        &&& deps_value_of(m.build_depends, o.build_depends@)
        &&& deps_value_of(m.depends, o.depends@)
        &&& deps_value_of(m.conflicts, o.conflicts@)
        &&& deps_value_of(m.provides, o.provides@)
        &&& m.patches is Null
        &&& m.deb matches Some(d) && d.priority == o.priority && d.built_using == o.built_using
            && d.essential == o.essential && deps_value_of(d.pre_depends, o.pre_depends@)
            && deps_value_of(d.recommended, o.recommended@) && deps_value_of(d.suggests, o.suggests@)
            && deps_value_of(d.breaks, o.breaks@) && deps_value_of(d.replaces, o.replaces@)
            && deps_value_of(d.enhances, o.enhances@)
        &&& m.rpm matches Some(x) && deps_value_of(x.obsoletes, o.obsoletes@) && x.vendor
            == o.vendor && x.icon == o.icon && x.summary == o.summary && x.auto_req_prov is None
            && x.pre_script is None && x.post_script is None && x.preun_script is None
            && x.postun_script is None && x.config_noreplace == o.config_noreplace
        &&& m.pkg matches Some(x) && x.install == o.install_script && x.backup@ == o.backup_files@
            && deps_value_of(x.replaces, o.replaces@) && x.optdepends@ == o.optdepends@
        &&& m.apk is None
    }
}

/// A copy of an optional string.
fn opt_clone(o: &Option<String>) -> (r: Option<String>)
    ensures
        r == *o,
{
    match o {
        Some(s) => Some(s.clone()),
        None => None,
    }
}

/// The variables of `KEY=VALUE` pairs separated by commas, as table entries.
fn env_entries(env: &str) -> (r: Vec<(Value, Value)>)
    ensures
        string_pairs(r@) == Some(env_pairs(split_char(env@, ','))),
{
    let pieces = split_char_str(env, ',');
    let ghost ps = split_char(env@, ',');
    let mut out: Vec<(Value, Value)> = Vec::new();
    let mut i: usize = 0;
    assert(ps.take(0) =~= Seq::<Seq<char>>::empty());
    while i < pieces.len()
        invariant
            i <= pieces@.len(),
            string_views(pieces@) == ps,
            string_pairs(out@) == Some(env_pairs(ps.take(i as int))),
        decreases pieces@.len() - i,
    {
        assert(ps.take(i + 1).drop_last() =~= ps.take(i as int));
        assert(ps.take(i + 1).last() == pieces@[i as int]@);
        let kv = split_char_str(pieces[i].as_str(), '=');
        if kv.len() >= 2 {
            let ghost before = out@;
            let k = kv[0].clone();
            let v = kv[1].clone();
            assert(string_views(kv@)[0] == k@ && string_views(kv@)[1] == v@);
            out.push((Value::String(k), Value::String(v)));
            assert(out@.drop_last() =~= before);
        }
        i += 1;
    }
    assert(ps.take(i as int) =~= ps);
    out
}

/// The git source table of a generated recipe.
fn git_value(url: &Option<String>, branch: &Option<String>) -> (r: Value)
    ensures
        git_value_of(r, *url, *branch),
{
    match url {
        None => Value::Null,
        Some(u) => {
            let mut es: Vec<(Value, Value)> = Vec::new();
            es.push((Value::String("url".to_owned()), Value::String(u.clone())));
            proof {
                reveal_strlit("url");
                reveal_strlit("branch");
                assert("url"@.len() != "branch"@.len());
            }
            match branch {
                Some(b) => {
                    es.push((Value::String("branch".to_owned()), Value::String(b.clone())));
                    assert(es@.drop_first().drop_first() =~= Seq::<(Value, Value)>::empty());
                    assert(lookup(es@.drop_first(), "branch"@) == Some(Value::String(*b)));
                    assert(lookup(es@, "branch"@) == Some(Value::String(*b)));
                    assert(lookup(es@, "url"@) == Some(Value::String(*u)));
                },
                None => {
                    assert(es@.drop_first() =~= Seq::<(Value, Value)>::empty());
                    assert(lookup(es@.drop_first(), "branch"@) is None);
                    assert(lookup(es@, "branch"@) is None);
                    assert(lookup(es@, "url"@) == Some(Value::String(*u)));
                },
            }
            Value::Mapping(es)
        },
    }
}

/// Writes the recipe the options describe.
pub fn gen_recipe(o: &GenRecipeOpts) -> (r: RecipeRep)
    ensures
        gen_recipe_of(r, *o),
{
    let env = match &o.env {
        Some(e) => {
            let es = env_entries(e.as_str());
            proof {
                lemma_string_pairs_len(es@);
            }
            if es.len() == 0 {
                None
            } else {
                Some(es)
            }
        },
        None => None,
    };
    let deb = DebRep {
        priority: opt_clone(&o.priority),
        built_using: opt_clone(&o.built_using),
        essential: o.essential,
        pre_depends: deps_value(&o.pre_depends),
        recommended: deps_value(&o.recommended),
        suggests: deps_value(&o.suggests),
        breaks: deps_value(&o.breaks),
        replaces: deps_value(&o.replaces),
        enhances: deps_value(&o.enhances),
    };
    let rpm = RpmRep {
        obsoletes: deps_value(&o.obsoletes),
        vendor: opt_clone(&o.vendor),
        icon: opt_clone(&o.icon),
        summary: opt_clone(&o.summary),
        auto_req_prov: None,
        pre_script: None,
        post_script: None,
        preun_script: None,
        postun_script: None,
        config_noreplace: opt_clone(&o.config_noreplace),
    };
    let pkg = PkgRep {
        install: opt_clone(&o.install_script),
        backup: crate::recipe::package::clone_strings(&o.backup_files),
        replaces: deps_value(&o.replaces),
        optdepends: crate::recipe::package::clone_strings(&o.optdepends),
    };
    let metadata = MetadataRep {
        name: Some(o.name.clone()),
        version: Some(
            match &o.version {
                Some(v) => v.clone(),
                None => "1.0.0".to_owned(),
            },
        ),
        description: Some(
            match &o.description {
                Some(v) => v.clone(),
                None => "missing".to_owned(),
            },
        ),
        license: Some(
            match &o.license {
                Some(v) => v.clone(),
                None => "missing".to_owned(),
            },
        ),
        all_images: false,
        images: Vec::new(),
        maintainer: opt_clone(&o.maintainer),
        url: opt_clone(&o.url),
        arch: opt_clone(&o.arch),
        source: opt_clone(&o.source),
        git: git_value(&o.git_url, &o.git_branch),
        skip_default_deps: o.skip_default_deps,
        exclude: match &o.exclude {
            Some(v) => Some(crate::recipe::package::clone_strings(v)),
            None => None,
        },
        group: opt_clone(&o.group),
        release: opt_clone(&o.release),
        epoch: opt_clone(&o.epoch),
        build_depends: deps_value(&o.build_depends),
        depends: deps_value(&o.depends),
        conflicts: deps_value(&o.conflicts),
        provides: deps_value(&o.provides),
        patches: Value::Null,
        deb: Some(deb),
        rpm: Some(rpm),
        pkg: Some(pkg),
        apk: None,
    };
    let r = RecipeRep {
        from: None,
        metadata: Some(metadata),
        env,
        configure: None,
        build: Some(ScriptRep { steps: Vec::new(), working_dir: None, shell: None }),
        install: None,
    };
    r
}

} // verus!
