//! Metadata that only one kind of package uses.

use crate::recipe::metadata::deps::{spec_deps_from_value, Dependencies};
use crate::value::Value;
use vstd::prelude::*;

verus! {

/// `o` holds the dependencies that `v` describes, or nothing when `v` describes none.
pub open spec fn deps_opt(o: Option<Dependencies>, v: Value) -> bool {
    match spec_deps_from_value(v) {
        Ok(m) => o matches Some(d) && d.wf() && d@ == m,
        Err(_) => o is None,
    }
}

/// The dependencies `v` describes, if it describes any.
pub fn deps_of_value(v: &Value) -> (r: Option<Dependencies>)
    ensures
        deps_opt(r, *v),
{
    match Dependencies::from_value(v) {
        Ok(d) => Some(d),
        Err(_) => None,
    }
}

/// The `pkg` section of a recipe as written.
#[derive(Debug)]
pub struct PkgRep {
    pub install: Option<String>,
    pub backup: Vec<String>,
    pub replaces: Value,
    pub optdepends: Vec<String>,
}

/// Metadata of PKG packages.
#[derive(Clone, Debug)]
pub struct PkgInfo {
    /// The name of the .install script to be included in the package
    pub install: Option<String>,
    /// Files that can hold changes made by users, kept on upgrade or removal
    pub backup: Vec<String>,
    pub replaces: Option<Dependencies>,
    /// Dependencies needed for the full functionality of the package
    pub optdepends: Vec<String>,
}

/// `r` is what the `pkg` section `rep` gives.
pub open spec fn pkg_info_of(r: PkgInfo, rep: PkgRep) -> bool {
    &&& r.install == rep.install
    &&& r.backup == rep.backup
    &&& deps_opt(r.replaces, rep.replaces)
    &&& r.optdepends == rep.optdepends
}

impl PkgInfo {
    pub fn from_rep(rep: PkgRep) -> (r: Self)
        ensures
            pkg_info_of(r, rep),
    {
        let replaces = deps_of_value(&rep.replaces);
        PkgInfo { install: rep.install, backup: rep.backup, replaces, optdepends: rep.optdepends }
    }
}

/// The `deb` section of a recipe as written.
#[derive(Debug)]
pub struct DebRep {
    pub priority: Option<String>,
    pub built_using: Option<String>,
    pub essential: Option<bool>,
    pub pre_depends: Value,
    pub recommended: Value,
    pub suggests: Value,
    pub breaks: Value,
    pub replaces: Value,
    pub enhances: Value,
}

/// Metadata of DEB packages.
#[derive(Clone, Debug)]
pub struct DebInfo {
    pub priority: Option<String>,
    pub built_using: Option<String>,
    pub essential: Option<bool>,
    pub pre_depends: Option<Dependencies>,
    pub recommended: Option<Dependencies>,
    pub suggests: Option<Dependencies>,
    pub breaks: Option<Dependencies>,
    pub replaces: Option<Dependencies>,
    pub enhances: Option<Dependencies>,
}

/// `r` is what the `deb` section `rep` gives.
pub open spec fn deb_info_of(r: DebInfo, rep: DebRep) -> bool {
    &&& r.priority == rep.priority
    &&& r.built_using == rep.built_using
    &&& r.essential == rep.essential
    &&& deps_opt(r.pre_depends, rep.pre_depends)
    &&& deps_opt(r.recommended, rep.recommended)
    &&& deps_opt(r.suggests, rep.suggests)
    &&& deps_opt(r.breaks, rep.breaks)
    &&& deps_opt(r.replaces, rep.replaces)
    &&& deps_opt(r.enhances, rep.enhances)
}

impl DebInfo {
    pub fn from_rep(rep: DebRep) -> (r: Self)
        ensures
            deb_info_of(r, rep),
    {
        let pre_depends = deps_of_value(&rep.pre_depends);
        let recommended = deps_of_value(&rep.recommended);
        let suggests = deps_of_value(&rep.suggests);
        let breaks = deps_of_value(&rep.breaks);
        let replaces = deps_of_value(&rep.replaces);
        let enhances = deps_of_value(&rep.enhances);
        DebInfo {
            priority: rep.priority,
            built_using: rep.built_using,
            essential: rep.essential,
            pre_depends,
            recommended,
            suggests,
            breaks,
            replaces,
            enhances,
        }
    }
}

/// The `rpm` section of a recipe as written.
#[derive(Debug)]
pub struct RpmRep {
    pub obsoletes: Value,
    pub vendor: Option<String>,
    pub icon: Option<String>,
    pub summary: Option<String>,
    pub auto_req_prov: Option<bool>,
    pub pre_script: Option<String>,
    pub post_script: Option<String>,
    pub preun_script: Option<String>,
    pub postun_script: Option<String>,
    pub config_noreplace: Option<String>,
}

/// Metadata of RPM packages.
#[derive(Clone, Debug)]
pub struct RpmInfo {
    pub obsoletes: Option<Dependencies>,
    pub vendor: Option<String>,
    pub icon: Option<String>,
    pub summary: Option<String>,
    pub auto_req_prov: bool,
    pub pre_script: Option<String>,
    pub post_script: Option<String>,
    pub preun_script: Option<String>,
    pub postun_script: Option<String>,
    pub config_noreplace: Option<String>,
}

/// `r` is what the `rpm` section `rep` gives: automatic requires and provides stay on unless
/// the section turns them off.
pub open spec fn rpm_info_of(r: RpmInfo, rep: RpmRep) -> bool {
    &&& deps_opt(r.obsoletes, rep.obsoletes)
    &&& r.vendor == rep.vendor
    &&& r.icon == rep.icon
    &&& r.summary == rep.summary
    &&& r.auto_req_prov == match rep.auto_req_prov {
        Some(b) => b,
        None => true,
    }
    &&& r.pre_script == rep.pre_script
    &&& r.post_script == rep.post_script
    &&& r.preun_script == rep.preun_script
    &&& r.postun_script == rep.postun_script
    &&& r.config_noreplace == rep.config_noreplace
}

impl RpmInfo {
    pub fn from_rep(rep: RpmRep) -> (r: Self)
        ensures
            rpm_info_of(r, rep),
    {
        let obsoletes = deps_of_value(&rep.obsoletes);
        RpmInfo {
            obsoletes,
            vendor: rep.vendor,
            icon: rep.icon,
            summary: rep.summary,
            auto_req_prov: match rep.auto_req_prov {
                Some(b) => b,
                None => true,
            },
            pre_script: rep.pre_script,
            post_script: rep.post_script,
            preun_script: rep.preun_script,
            postun_script: rep.postun_script,
            config_noreplace: rep.config_noreplace,
        }
    }
}

/// The `apk` section of a recipe as written.
#[derive(Debug)]
pub struct ApkRep {
    pub install: Vec<String>,
    pub replaces: Value,
    pub checkdepends: Value,
    pub private_key: Option<String>,
}

/// Metadata of APK packages.
#[derive(Clone, Debug)]
pub struct ApkInfo {
    /// Install scripts, such as pre-install and post-install
    pub install: Vec<String>,
    pub replaces: Option<Dependencies>,
    pub checkdepends: Option<Dependencies>,
    /// Path of the key the package is signed with
    pub private_key: Option<String>,
}

/// `r` is what the `apk` section `rep` gives.
pub open spec fn apk_info_of(r: ApkInfo, rep: ApkRep) -> bool {
    &&& r.install == rep.install
    &&& deps_opt(r.replaces, rep.replaces)
    &&& deps_opt(r.checkdepends, rep.checkdepends)
    &&& r.private_key == rep.private_key
}

impl ApkInfo {
    pub fn from_rep(rep: ApkRep) -> (r: Self)
        ensures
            apk_info_of(r, rep),
    {
        let replaces = deps_of_value(&rep.replaces);
        let checkdepends = deps_of_value(&rep.checkdepends);
        ApkInfo {
            install: rep.install,
            replaces,
            checkdepends,
            private_key: rep.private_key,
        }
    }
}

} // verus!
