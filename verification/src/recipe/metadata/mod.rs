//! Metadata of a recipe: targets, architectures, systems, sources, dependencies and patches.

pub mod arch;
pub mod deps;
pub mod git;
pub mod image;
pub mod kinds;
pub mod os;
pub mod patches;
pub mod target;

pub use arch::BuildArch;
pub use deps::Dependencies;
pub use git::GitSource;
pub use image::ImageTarget;
pub use kinds::{ApkInfo, ApkRep, DebInfo, DebRep, PkgInfo, PkgRep, RpmInfo, RpmRep};
pub use os::{Distro, Os, PackageManager};
pub use patches::{Patch, Patches};
pub use target::BuildTarget;

use crate::recipe::error::RecipeError;
use crate::value::Value;
use arch::arch_of_name;
use git::spec_git_from_value;
use kinds::{apk_info_of, deb_info_of, deps_of_value, deps_opt, pkg_info_of, rpm_info_of};
use patches::spec_patches_from_value;
use vstd::prelude::*;

verus! {

/// The `metadata` section of a recipe as written.
#[derive(Debug)]
pub struct MetadataRep {
    pub name: Option<String>,
    pub version: Option<String>,
    pub description: Option<String>,
    pub license: Option<String>,
    /// If set, the recipe is built on every image and `images` is ignored.
    pub all_images: bool,
    pub images: Vec<String>,
    pub maintainer: Option<String>,
    /// The URL of the web site of the package
    pub url: Option<String>,
    pub arch: Option<String>,
    /// http/https or file system source pointing to a tar.gz or tar.xz package
    pub source: Option<String>,
    /// Git repository as source
    pub git: Value,
    /// Whether to install the default dependencies before the build
    pub skip_default_deps: Option<bool>,
    /// Directories to leave out of the package
    pub exclude: Option<Vec<String>>,
    pub group: Option<String>,
    /// The release number, telling apart consecutive builds of one version of a package
    pub release: Option<String>,
    /// Forces the package to be seen as newer than any earlier one with a lower epoch
    pub epoch: Option<String>,
    pub build_depends: Value,
    pub depends: Value,
    pub conflicts: Value,
    pub provides: Value,
    /// Patches applied to the source code, for every image or for some of them
    pub patches: Value,
    pub deb: Option<DebRep>,
    pub rpm: Option<RpmRep>,
    pub pkg: Option<PkgRep>,
    pub apk: Option<ApkRep>,
}

/// The metadata of a recipe.
#[derive(Clone, Debug)]
pub struct Metadata {
    pub name: String,
    pub version: String,
    pub description: String,
    pub license: String,
    pub arch: BuildArch,
    pub all_images: bool,
    pub images: Vec<String>,
    pub maintainer: Option<String>,
    /// The URL of the web site of the package
    pub url: Option<String>,
    /// http/https or file system source pointing to a tar.gz or tar.xz package
    pub source: Option<String>,
    /// Git repository as source
    pub git: Option<GitSource>,
    /// Whether the default dependencies are installed before the build
    pub skip_default_deps: Option<bool>,
    /// Directories to leave out of the package
    pub exclude: Option<Vec<String>>,
    /// Section in DEB and group in RPM
    pub group: Option<String>,
    /// The release number, telling apart consecutive builds of one version of a package
    pub release: Option<String>,
    /// Forces the package to be seen as newer than any earlier one with a lower epoch
    pub epoch: Option<String>,
    pub build_depends: Option<Dependencies>,
    pub depends: Option<Dependencies>,
    pub conflicts: Option<Dependencies>,
    pub provides: Option<Dependencies>,
    pub patches: Option<Patches>,
    pub deb: Option<DebInfo>,
    pub rpm: Option<RpmInfo>,
    pub pkg: Option<PkgInfo>,
    pub apk: Option<ApkInfo>,
}

/// The error reading `rep` meets, if any: a missing name, version, description or license,
/// checked in that order.
pub open spec fn metadata_error(rep: MetadataRep) -> Option<RecipeError> {
    if rep.name is None {
        Some(RecipeError::MissingName)
    } else if rep.version is None {
        Some(RecipeError::MissingVersion)
    } else if rep.description is None {
        Some(RecipeError::NoDescription)
    } else if rep.license is None {
        Some(RecipeError::NoLicense)
    } else {
        None
    }
}

/// `m` is the metadata `rep` gives: the required texts, the architecture (all when none is
/// named), and each source, dependency list, patch set and package section that `rep`
/// describes; what cannot be read is left out.
pub open spec fn metadata_of(m: Metadata, rep: MetadataRep) -> bool {
    &&& rep.name == Some(m.name)
    &&& rep.version == Some(m.version)
    &&& rep.description == Some(m.description)
    &&& rep.license == Some(m.license)
    &&& match rep.arch {
        Some(a) => arch_of_name(m.arch, a@),
        None => m.arch == BuildArch::All,
    }
    &&& m.all_images == rep.all_images
    &&& m.images == rep.images
    &&& m.maintainer == rep.maintainer
    &&& m.url == rep.url
    &&& m.source == rep.source
    &&& match spec_git_from_value(rep.git) {
        Ok(g) => m.git matches Some(x) && x@ == g,
        Err(_) => m.git is None,
    }
    &&& m.skip_default_deps == rep.skip_default_deps
    &&& m.exclude == rep.exclude
    &&& m.group == rep.group
    &&& m.release == rep.release
    &&& m.epoch == rep.epoch
    &&& deps_opt(m.build_depends, rep.build_depends)
    &&& deps_opt(m.depends, rep.depends)
    &&& deps_opt(m.conflicts, rep.conflicts)
    &&& deps_opt(m.provides, rep.provides)
    &&& match spec_patches_from_value(rep.patches) {
        Ok(p) => m.patches matches Some(x) && x.wf() && x@ == p,
        Err(_) => m.patches is None,
    }
    &&& match rep.deb {
        Some(d) => m.deb matches Some(x) && deb_info_of(x, d),
        None => m.deb is None,
    }
    &&& match rep.rpm {
        Some(d) => m.rpm matches Some(x) && rpm_info_of(x, d),
        None => m.rpm is None,
    }
    &&& match rep.pkg {
        Some(d) => m.pkg matches Some(x) && pkg_info_of(x, d),
        None => m.pkg is None,
    }
    &&& match rep.apk {
        Some(d) => m.apk matches Some(x) && apk_info_of(x, d),
        None => m.apk is None,
    }
}

impl Metadata {
    /// Reads the metadata of a recipe.
    pub fn try_from(rep: MetadataRep) -> (r: Result<Self, RecipeError>)
        ensures
            match metadata_error(rep) {
                Some(e) => r == Err::<Self, RecipeError>(e),
                None => r matches Ok(m) && metadata_of(m, rep),
            },
    {
        let ghost orig = rep;
        let name = match rep.name {
            Some(n) => n,
            None => {
                return Err(RecipeError::MissingName);
            },
        };
        let version = match rep.version {
            Some(v) => v,
            None => {
                return Err(RecipeError::MissingVersion);
            },
        };
        let description = match rep.description {
            Some(d) => d,
            None => {
                return Err(RecipeError::NoDescription);
            },
        };
        let license = match rep.license {
            Some(l) => l,
            None => {
                return Err(RecipeError::NoLicense);
            },
        };
        let arch = match &rep.arch {
            Some(a) => BuildArch::from_name(a.as_str()),
            None => BuildArch::All,
        };
        let git = match GitSource::from_value(&rep.git) {
            Ok(g) => Some(g),
            Err(_) => None,
        };
        let build_depends = deps_of_value(&rep.build_depends);
        let depends = deps_of_value(&rep.depends);
        let conflicts = deps_of_value(&rep.conflicts);
        let provides = deps_of_value(&rep.provides);
        let patches = match Patches::from_value(&rep.patches) {
            Ok(p) => Some(p),
            Err(_) => None,
        };
        let deb = match rep.deb {
            Some(d) => Some(DebInfo::from_rep(d)),
            None => None,
        };
        let rpm = match rep.rpm {
            Some(d) => Some(RpmInfo::from_rep(d)),
            None => None,
        };
        let pkg = match rep.pkg {
            Some(d) => Some(PkgInfo::from_rep(d)),
            None => None,
        };
        let apk = match rep.apk {
            Some(d) => Some(ApkInfo::from_rep(d)),
            None => None,
        };
        Ok(Metadata {
            name,
            version,
            description,
            license,
            arch,
            all_images: rep.all_images,
            images: rep.images,
            maintainer: rep.maintainer,
            url: rep.url,
            source: rep.source,
            git,
            skip_default_deps: rep.skip_default_deps,
            exclude: rep.exclude,
            group: rep.group,
            release: rep.release,
            epoch: rep.epoch,
            build_depends,
            depends,
            conflicts,
            provides,
            patches,
            deb,
            rpm,
            pkg,
            apk,
        })
    }

    /// The release number of the package, "0" when none is given.
    pub fn release(&self) -> (r: &str)
        ensures
            r@ == match self.release {
                Some(rel) => rel@,
                None => "0"@,
            },
    {
        match &self.release {
            Some(rel) => rel.as_str(),
            None => "0",
        }
    }
}

} // verus!
