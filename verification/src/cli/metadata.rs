//! The metadata of a TOML recipe: the images it is built on, its sources and dependencies.

use crate::cli::control::{deb_arch, opt_view, rpm_arch, spec_deb_arch, spec_rpm_arch};
use crate::cli::deps::{spec_toml_deps, Dependencies};
use crate::recipe::metadata::git::{spec_git_from_value, GitSource};
use crate::recipe::metadata::BuildTarget;
use crate::strmap::str_eq;
use crate::text::{spec_to_lowercase, to_lowercase};
use crate::value::{lookup, ParseError, Value};
use vstd::prelude::*;

verus! {

/// The target a lowercased name stands for in a TOML recipe: `rpm`, `deb` or `gzip`.
pub open spec fn toml_target(name: Seq<char>) -> Option<BuildTarget> {
    if name == "rpm"@ {
        Some(BuildTarget::Rpm)
    } else if name == "deb"@ {
        Some(BuildTarget::Deb)
    } else if name == "gzip"@ {
        Some(BuildTarget::Gzip)
    } else {
        None
    }
}

/// Reads the target of an image, ignoring case.
fn target_from_name(s: &str) -> (r: Result<BuildTarget, ParseError>)
    ensures
        r == match toml_target(spec_to_lowercase(s@)) {
            Some(t) => Ok(t),
            None => Err(ParseError::UnknownBuildTarget),
        },
{
    let l = to_lowercase(s);
    if str_eq(l.as_str(), "rpm") {
        Ok(BuildTarget::Rpm)
    } else if str_eq(l.as_str(), "deb") {
        Ok(BuildTarget::Deb)
    } else if str_eq(l.as_str(), "gzip") {
        Ok(BuildTarget::Gzip)
    } else {
        Err(ParseError::UnknownBuildTarget)
    }
}

/// An image a TOML recipe is built on, with the target it builds there.
#[derive(Clone, Debug)]
pub struct ImageTarget {
    pub image: String,
    pub target: BuildTarget,
}

/// The image a TOML value names: a string is an image building GZIP; a table needs a string
/// `name` and may give a string `target` among `rpm`, `deb` and `gzip` in any case.
pub open spec fn spec_toml_image(v: Value) -> Result<(Seq<char>, BuildTarget), ParseError> {
    match v {
        Value::Mapping(es) => match lookup(es@, "name"@) {
            Some(Value::String(image)) => match lookup(es@, "target"@) {
                Some(Value::String(t)) => match toml_target(spec_to_lowercase(t@)) {
                    Some(target) => Ok((image@, target)),
                    None => Err(ParseError::UnknownBuildTarget),
                },
                Some(_) => Err(ParseError::TargetNotString),
                None => Ok((image@, BuildTarget::Gzip)),
            },
            Some(_) => Err(ParseError::ImageNameFieldNotString),
            None => Err(ParseError::MissingImageName),
        },
        Value::String(image) => Ok((image@, BuildTarget::Gzip)),
        _ => Err(ParseError::ImageNotMappingOrString),
    }
}

impl ImageTarget {
    pub fn new(image: String, target: BuildTarget) -> (r: Self)
        ensures
            r.image == image,
            r.target == target,
    {
        ImageTarget { image, target }
    }

    /// Reads an image of a TOML recipe.
    pub fn from_value(value: &Value) -> (r: Result<Self, ParseError>)
        ensures
            match spec_toml_image(*value) {
                Ok((image, target)) => r matches Ok(t) && t.image@ == image && t.target == target,
                Err(e) => r == Err::<Self, ParseError>(e),
            },
    {
        match value {
            Value::Mapping(_) => match value.get("name") {
                Some(Value::String(image)) => match value.get("target") {
                    Some(Value::String(t)) => match target_from_name(t.as_str()) {
                        Ok(target) => Ok(ImageTarget::new(image.clone(), target)),
                        Err(e) => Err(e),
                    },
                    Some(_) => Err(ParseError::TargetNotString),
                    None => Ok(ImageTarget::new(image.clone(), BuildTarget::default())),
                },
                Some(_) => Err(ParseError::ImageNameFieldNotString),
                None => Err(ParseError::MissingImageName),
            },
            Value::String(image) => Ok(ImageTarget::new(image.clone(), BuildTarget::default())),
            _ => Err(ParseError::ImageNotMappingOrString),
        }
    }
}

/// The images of a list, in order; the first bad one decides the error.
pub open spec fn toml_images(items: Seq<Value>) -> Result<Seq<(Seq<char>, BuildTarget)>, ParseError>
    decreases items.len(),
{
    if items.len() == 0 {
        Ok(Seq::empty())
    } else {
        match toml_images(items.drop_last()) {
            Ok(l) => match spec_toml_image(items.last()) {
                Ok(i) => Ok(l.push(i)),
                Err(e) => Err(e),
            },
            Err(e) => Err(e),
        }
    }
}

/// The views of a list of images.
pub open spec fn image_views(v: Seq<ImageTarget>) -> Seq<(Seq<char>, BuildTarget)> {
    v.map_values(|t: ImageTarget| (t.image@, t.target))
}

proof fn lemma_images_prefix_err(items: Seq<Value>, k: int)
    requires
        0 <= k <= items.len(),
        toml_images(items.take(k)) is Err,
    ensures
        toml_images(items) == toml_images(items.take(k)),
    decreases items.len() - k,
{
    if k < items.len() {
        assert(items.take(k + 1).drop_last() =~= items.take(k));
        lemma_images_prefix_err(items, k + 1);
    } else {
        assert(items.take(k) =~= items);
    }
}

/// Reads every image of a list.
fn read_images(items: &Vec<Value>) -> (r: Result<Vec<ImageTarget>, ParseError>)
    ensures
        match toml_images(items@) {
            Ok(l) => r matches Ok(v) && image_views(v@) == l,
            Err(e) => r == Err::<Vec<ImageTarget>, ParseError>(e),
        },
{
    let mut out: Vec<ImageTarget> = Vec::new();
    let mut i: usize = 0;
    assert(items@.take(0) =~= Seq::<Value>::empty());
    assert(image_views(out@) =~= Seq::<(Seq<char>, BuildTarget)>::empty());
    while i < items.len()
        invariant
            i <= items@.len(),
            toml_images(items@.take(i as int)) == Ok::<Seq<(Seq<char>, BuildTarget)>, ParseError>(
                image_views(out@),
            ),
        decreases items@.len() - i,
    {
        assert(items@.take(i + 1).drop_last() =~= items@.take(i as int));
        assert(items@.take(i + 1).last() == items@[i as int]);
        let ghost before = out@;
        match ImageTarget::from_value(&items[i]) {
            Ok(t) => {
                out.push(t);
                assert(image_views(out@) =~= image_views(before).push((t.image@, t.target)));
            },
            Err(e) => {
                proof {
                    lemma_images_prefix_err(items@, i as int + 1);
                }
                return Err(e);
            },
        }
        i += 1;
    }
    assert(items@.take(i as int) =~= items@);
    Ok(out)
}

/// The metadata of a TOML recipe as written.
#[derive(Debug)]
pub struct MetadataRep {
    pub name: String,
    pub version: String,
    pub description: String,
    pub license: String,
    pub images: Vec<Value>,
    pub maintainer: Option<String>,
    pub arch: Option<String>,
    /// http/https or file system source pointing to a tar.gz or tar.xz package
    pub source: Option<String>,
    /// Git repository as source
    pub git: Option<Value>,
    /// Whether to install the default dependencies before the build
    pub skip_default_deps: Option<bool>,
    /// Directories to leave out of the package
    pub exclude: Option<Vec<String>>,
    pub build_depends: Option<Value>,
    pub depends: Option<Value>,
    pub conflicts: Option<Value>,
    pub provides: Option<Value>,
    pub section: Option<String>,
    pub priority: Option<String>,
    pub release: Option<String>,
    pub obsoletes: Option<Value>,
    pub summary: Option<String>,
}

/// The metadata of a TOML recipe.
#[derive(Clone, Debug)]
pub struct Metadata {
    pub name: String,
    pub version: String,
    pub description: String,
    pub license: String,
    pub images: Vec<ImageTarget>,
    pub maintainer: Option<String>,
    pub arch: Option<String>,
    pub source: Option<String>,
    pub git: Option<GitSource>,
    pub skip_default_deps: Option<bool>,
    pub exclude: Option<Vec<String>>,
    pub build_depends: Option<Dependencies>,
    pub depends: Option<Dependencies>,
    pub conflicts: Option<Dependencies>,
    pub provides: Option<Dependencies>,
    pub section: Option<String>,
    pub priority: Option<String>,
    pub release: Option<String>,
    pub obsoletes: Option<Dependencies>,
    pub summary: Option<String>,
}

/// The error an optional dependency value meets, if any.
pub open spec fn opt_deps_error(v: Option<Value>) -> Option<ParseError> {
    match v {
        Some(x) => match spec_toml_deps(x) {
            Err(e) => Some(e),
            Ok(_) => None,
        },
        None => None,
    }
}

/// `o` holds the dependencies that the optional value gives.
pub open spec fn opt_deps_of(o: Option<Dependencies>, v: Option<Value>) -> bool {
    match v {
        Some(x) => match spec_toml_deps(x) {
            Ok(m) => o matches Some(d) && d.wf() && d@ == m,
            Err(_) => false,
        },
        None => o is None,
    }
}

/// The first error reading the metadata meets: the dependency lists (build, runtime,
/// obsoleted, conflicting, provided), then the images, then the git source.
pub open spec fn toml_metadata_error(rep: MetadataRep) -> Option<ParseError> {
    if opt_deps_error(rep.build_depends) is Some {
        opt_deps_error(rep.build_depends)
    } else if opt_deps_error(rep.depends) is Some {
        opt_deps_error(rep.depends)
    } else if opt_deps_error(rep.obsoletes) is Some {
        opt_deps_error(rep.obsoletes)
    } else if opt_deps_error(rep.conflicts) is Some {
        opt_deps_error(rep.conflicts)
    } else if opt_deps_error(rep.provides) is Some {
        opt_deps_error(rep.provides)
    } else if toml_images(rep.images@) is Err {
        Some(toml_images(rep.images@)->Err_0)
    } else {
        match rep.git {
            Some(g) => match spec_git_from_value(g) {
                Err(e) => Some(e),
                Ok(_) => None,
            },
            None => None,
        }
    }
}

/// `m` is the metadata `rep` gives.
pub open spec fn toml_metadata_of(m: Metadata, rep: MetadataRep) -> bool {
    &&& m.name == rep.name && m.version == rep.version
    &&& m.description == rep.description && m.license == rep.license
    &&& toml_images(rep.images@) == Ok::<Seq<(Seq<char>, BuildTarget)>, ParseError>(
        image_views(m.images@),
    )
    &&& m.maintainer == rep.maintainer && m.arch == rep.arch && m.source == rep.source
    &&& match rep.git {
        Some(g) => m.git matches Some(x) && Ok::<_, ParseError>(x@) == spec_git_from_value(g),
        None => m.git is None,
    }
    &&& m.skip_default_deps == rep.skip_default_deps && m.exclude == rep.exclude
    &&& opt_deps_of(m.build_depends, rep.build_depends)
    &&& opt_deps_of(m.depends, rep.depends)
    &&& opt_deps_of(m.conflicts, rep.conflicts)
    &&& opt_deps_of(m.provides, rep.provides)
    &&& opt_deps_of(m.obsoletes, rep.obsoletes)
    &&& m.section == rep.section && m.priority == rep.priority
    &&& m.release == rep.release && m.summary == rep.summary
}

/// Reads optional dependencies.
fn read_opt_deps(v: &Option<Value>) -> (r: Result<Option<Dependencies>, ParseError>)
    ensures
        match opt_deps_error(*v) {
            Some(e) => r == Err::<Option<Dependencies>, ParseError>(e),
            None => r matches Ok(o) && opt_deps_of(o, *v),
        },
{
    match v {
        Some(x) => match Dependencies::from_value(x) {
            Ok(d) => Ok(Some(d)),
            Err(e) => Err(e),
        },
        None => Ok(None),
    }
}

impl Metadata {
    /// Reads the metadata of a TOML recipe.
    pub fn try_from(rep: MetadataRep) -> (r: Result<Self, ParseError>)
        ensures
            match toml_metadata_error(rep) {
                Some(e) => r == Err::<Self, ParseError>(e),
                None => r matches Ok(m) && toml_metadata_of(m, rep),
            },
    {
        let build_depends = read_opt_deps(&rep.build_depends)?;
        let depends = read_opt_deps(&rep.depends)?;
        let obsoletes = read_opt_deps(&rep.obsoletes)?;
        let conflicts = read_opt_deps(&rep.conflicts)?;
        let provides = read_opt_deps(&rep.provides)?;
        let images = read_images(&rep.images)?;
        let git = match &rep.git {
            Some(g) => match GitSource::from_value(g) {
                Ok(s) => Some(s),
                Err(e) => {
                    return Err(e);
                },
            },
            None => None,
        };
        Ok(Metadata {
            name: rep.name,
            version: rep.version,
            description: rep.description,
            license: rep.license,
            images,
            maintainer: rep.maintainer,
            arch: rep.arch,
            source: rep.source,
            git,
            skip_default_deps: rep.skip_default_deps,
            exclude: rep.exclude,
            build_depends,
            depends,
            conflicts,
            provides,
            section: rep.section,
            priority: rep.priority,
            release: rep.release,
            obsoletes,
            summary: rep.summary,
        })
    }

    /// The DEB name of the architecture.
    pub fn deb_arch(&self) -> (r: &str)
        ensures
            r@ == spec_deb_arch(opt_view(self.arch)),
    {
        deb_arch(&self.arch)
    }

    /// The RPM name of the architecture.
    pub fn rpm_arch(&self) -> (r: &str)
        ensures
            r@ == spec_rpm_arch(opt_view(self.arch)),
    {
        rpm_arch(&self.arch)
    }
}

} // verus!
