//! What a recipe says of the package it builds, in the terms of each packaging format: the
//! fields of a DEB control file, of an RPM spec and of a PKGBUILD.

use crate::recipe::document::Recipe;
use crate::recipe::metadata::arch::{spec_deb_name, spec_pkg_name, spec_rpm_name};
use crate::recipe::metadata::deps::{resolved, Dependencies};
use crate::recipe::metadata::os::str_views;
use crate::recipe::metadata::Metadata;
use crate::text::{append_str, chars_of, push_char, string_views};
use vstd::prelude::*;

verus! {

/// The dependency entries of a package field: none without dependencies, otherwise those that
/// `image` resolves to, each once.
pub open spec fn entries_of(v: Vec<String>, deps: Option<Dependencies>, image: Seq<char>) -> bool {
    match deps {
        None => v@.len() == 0,
        Some(d) => string_views(v@).no_duplicates() && string_views(v@).to_set() == resolved(
            d@,
            image,
        ),
    }
}

/// Optional dependencies that are well formed when present.
pub open spec fn opt_wf(o: Option<Dependencies>) -> bool {
    o matches Some(d) ==> d.wf()
}

/// Every dependency list of the metadata is well formed.
pub open spec fn metadata_wf(m: Metadata) -> bool {
    &&& opt_wf(m.build_depends)
    &&& opt_wf(m.depends)
    &&& opt_wf(m.conflicts)
    &&& opt_wf(m.provides)
    &&& (m.deb matches Some(d) ==> opt_wf(d.pre_depends) && opt_wf(d.recommended) && opt_wf(
        d.suggests,
    ) && opt_wf(d.breaks) && opt_wf(d.replaces) && opt_wf(d.enhances))
    &&& (m.rpm matches Some(r) ==> opt_wf(r.obsoletes))
}

/// The release of the metadata, "0" when none is given.
pub open spec fn release_text(o: Option<String>) -> Seq<char> {
    match o {
        Some(r) => r@,
        None => "0"@,
    }
}

/// `s` with every `_` turned into `-`.
pub open spec fn dashed(s: Seq<char>) -> Seq<char> {
    s.map_values(|c: char| if c == '_' { '-' } else { c })
}

/// The digit character of `d`, below ten.
pub open spec fn digit_char(d: nat) -> char {
    ((d + 48) as u8) as char
}

/// The decimal digits of `n`.
pub open spec fn decimal(n: nat) -> Seq<char>
    decreases n,
{
    if n < 10 {
        seq![digit_char(n)]
    } else {
        decimal(n / 10) + seq![digit_char(n % 10)]
    }
}

/// The install script of an RPM spec: unpack each of `n` sources into the build root.
pub open spec fn rpm_install_script(n: nat) -> Seq<char>
    decreases n,
{
    if n == 0 {
        Seq::empty()
    } else {
        rpm_install_script((n - 1) as nat) + "tar xvf %{SOURCE"@ + decimal((n - 1) as nat)
            + "} -C %{buildroot}\n"@
    }
}

/// The package function of a PKGBUILD: unpack each source into the package directory.
pub open spec fn pkg_package_func(sources: Seq<Seq<char>>) -> Seq<char>
    decreases sources.len(),
{
    if sources.len() == 0 {
        Seq::empty()
    } else {
        pkg_package_func(sources.drop_last()) + "    tar xvf "@ + sources.last()
            + " -C $pkgdir\n"@
    }
}

/// Owned copies of the strings.
pub fn to_strings(v: &Vec<&str>) -> (r: Vec<String>)
    ensures
        string_views(r@) == str_views(v@),
{
    let mut out: Vec<String> = Vec::new();
    let mut i: usize = 0;
    while i < v.len()
        invariant
            i <= v@.len(),
            string_views(out@) == str_views(v@.take(i as int)),
        decreases v@.len() - i,
    {
        let ghost before = out@;
        out.push(v[i].to_owned());
        assert(string_views(out@) =~= string_views(before).push(v@[i as int]@));
        assert(str_views(v@.take(i + 1)) =~= str_views(v@.take(i as int)).push(v@[i as int]@));
        i += 1;
    }
    assert(v@.take(i as int) =~= v@);
    out
}

/// A copy of the strings.
pub fn clone_strings(v: &Vec<String>) -> (r: Vec<String>)
    ensures
        r@ == v@,
{
    let mut out: Vec<String> = Vec::new();
    let mut i: usize = 0;
    while i < v.len()
        invariant
            i <= v@.len(),
            out@ == v@.take(i as int),
        decreases v@.len() - i,
    {
        out.push(v[i].clone());
        assert(out@ =~= v@.take(i + 1));
        i += 1;
    }
    assert(v@.take(i as int) =~= v@);
    out
}

/// The entries of an optional dependency list for `image`.
pub fn resolve_entries(deps: &Option<Dependencies>, image: &str) -> (r: Vec<String>)
    requires
        opt_wf(*deps),
    ensures
        entries_of(r, *deps, image@),
{
    match deps {
        Some(d) => {
            let names = d.resolve_names(image);
            let r = to_strings(&names);
            r
        },
        None => Vec::new(),
    }
}

/// `s` with every `_` turned into `-`.
pub fn dash_underscores(s: &str) -> (r: String)
    ensures
        r@ == dashed(s@),
{
    let cs = chars_of(s);
    let mut out = String::new();
    let mut i: usize = 0;
    while i < cs.len()
        invariant
            i <= cs@.len(),
            cs@ == s@,
            out@ == dashed(s@).take(i as int),
        decreases cs@.len() - i,
    {
        let c = cs[i];
        if c == '_' {
            push_char(&mut out, '-');
        } else {
            push_char(&mut out, c);
        }
        assert(out@ =~= dashed(s@).take(i + 1));
        i += 1;
    }
    assert(dashed(s@).take(i as int) =~= dashed(s@));
    out
}

/// The decimal digits of `n`.
pub fn decimal_string(n: u64) -> (r: String)
    ensures
        r@ == decimal(n as nat),
    decreases n,
{
    let d: u8 = (n % 10) as u8;
    let c: char = (d + 48u8) as char;
    assert(c == digit_char((n % 10) as nat));
    if n < 10 {
        let mut s = String::new();
        push_char(&mut s, c);
        assert(s@ =~= decimal(n as nat));
        s
    } else {
        let mut s = decimal_string(n / 10);
        push_char(&mut s, c);
        assert(s@ =~= decimal(n as nat));
        s
    }
}

/// The fields of a binary DEB control file.
#[derive(Clone, Debug)]
pub struct DebControl {
    pub package: String,
    pub version: String,
    pub revision: String,
    pub description: String,
    pub architecture: String,
    pub epoch: Option<String>,
    pub section: Option<String>,
    pub maintainer: Option<String>,
    pub homepage: Option<String>,
    pub installed_size: Option<String>,
    pub priority: Option<String>,
    pub built_using: Option<String>,
    pub essential: Option<bool>,
    pub depends: Vec<String>,
    pub conflicts: Vec<String>,
    pub provides: Vec<String>,
    pub pre_depends: Vec<String>,
    pub recommended: Vec<String>,
    pub suggests: Vec<String>,
    pub breaks: Vec<String>,
    pub replaces: Vec<String>,
    pub enhances: Vec<String>,
}

/// `c` is the control file of the recipe's package for `image`.
pub open spec fn deb_control_of(
    c: DebControl,
    m: Metadata,
    image: Seq<char>,
    installed_size: Option<Seq<char>>,
    version: Seq<char>,
) -> bool {
    &&& c.package@ == dashed(m.name@)
    &&& c.version@ == version
    &&& c.revision@ == release_text(m.release)
    &&& c.description == m.description
    &&& c.architecture@ == spec_deb_name(m.arch)
    &&& c.epoch == m.epoch
    &&& c.section == m.group
    &&& c.maintainer == m.maintainer
    &&& c.homepage == m.url
    &&& match installed_size {
        Some(s) => c.installed_size matches Some(x) && x@ == s,
        None => c.installed_size is None,
    }
    &&& entries_of(c.depends, m.depends, image)
    &&& entries_of(c.conflicts, m.conflicts, image)
    &&& entries_of(c.provides, m.provides, image)
    &&& match m.deb {
        Some(d) => {
            &&& c.priority == d.priority
            &&& c.built_using == d.built_using
            &&& c.essential == d.essential
            &&& entries_of(c.pre_depends, d.pre_depends, image)
            &&& entries_of(c.recommended, d.recommended, image)
            &&& entries_of(c.suggests, d.suggests, image)
            &&& entries_of(c.breaks, d.breaks, image)
            &&& entries_of(c.replaces, d.replaces, image)
            &&& entries_of(c.enhances, d.enhances, image)
        },
        None => {
            &&& c.priority is None
            &&& c.built_using is None
            &&& c.essential is None
            &&& c.pre_depends@.len() == 0
            &&& c.recommended@.len() == 0
            &&& c.suggests@.len() == 0
            &&& c.breaks@.len() == 0
            &&& c.replaces@.len() == 0
            &&& c.enhances@.len() == 0
        },
    }
}

/// A macro definition of an RPM spec: name, optional arguments, body.
pub type RpmMacro = (String, Option<String>, String);

/// The fields of an RPM spec.
#[derive(Clone, Debug)]
pub struct RpmSpec {
    pub name: String,
    pub build_arch: String,
    pub description: String,
    pub license: String,
    pub version: String,
    pub release: String,
    pub files: Vec<String>,
    pub sources: Vec<String>,
    pub macros: Vec<RpmMacro>,
    pub install_script: String,
    pub obsoletes: Vec<String>,
    pub vendor: Option<String>,
    pub icon: Option<String>,
    pub auto_req_prov: bool,
    pub pre_script: Option<String>,
    pub post_script: Option<String>,
    pub preun_script: Option<String>,
    pub postun_script: Option<String>,
    pub config_noreplace: Option<String>,
    pub summary: String,
    pub group: Option<String>,
    pub packager: Option<String>,
    pub url: Option<String>,
    pub epoch: Option<String>,
    pub conflicts: Vec<String>,
    pub provides: Vec<String>,
    pub requires: Vec<String>,
}

/// `s` is the RPM spec of the recipe's package for `image`, built from `sources` that install
/// `files`. Binary stripping is turned off by defining `__os_install_post` as `%{nil}`. The
/// post-uninstall script of the recipe is not carried over; its post-install script is.
pub open spec fn rpm_spec_of(
    s: RpmSpec,
    m: Metadata,
    sources: Seq<String>,
    files: Seq<String>,
    image: Seq<char>,
    version: Seq<char>,
) -> bool {
    &&& s.name == m.name
    &&& s.build_arch@ == spec_rpm_name(m.arch)
    &&& s.description == m.description
    &&& s.license == m.license
    &&& s.version@ == version
    &&& s.release@ == release_text(m.release)
    &&& s.files@ == files
    &&& s.sources@ == sources
    &&& s.macros@.len() == 1
    &&& s.macros@[0].0@ == "__os_install_post"@
    &&& s.macros@[0].1 is None
    &&& s.macros@[0].2@ == "%{nil}"@
    &&& s.install_script@ == rpm_install_script(sources.len())
    &&& s.group == m.group
    &&& s.packager == m.maintainer
    &&& s.url == m.url
    &&& s.epoch == m.epoch
    &&& entries_of(s.conflicts, m.conflicts, image)
    &&& entries_of(s.provides, m.provides, image)
    &&& entries_of(s.requires, m.depends, image)
    &&& s.postun_script is None
    &&& match m.rpm {
        Some(r) => {
            &&& entries_of(s.obsoletes, r.obsoletes, image)
            &&& s.vendor == r.vendor
            &&& s.icon == r.icon
            &&& s.auto_req_prov == r.auto_req_prov
            &&& s.pre_script == r.pre_script
            &&& s.post_script == r.post_script
            &&& s.preun_script == r.preun_script
            &&& s.config_noreplace == r.config_noreplace
            &&& s.summary == match r.summary {
                Some(x) => x,
                None => m.description,
            }
        },
        None => {
            &&& s.obsoletes@.len() == 0
            &&& s.vendor is None
            &&& s.icon is None
            &&& s.auto_req_prov
            &&& s.pre_script is None
            &&& s.post_script is None
            &&& s.preun_script is None
            &&& s.config_noreplace is None
            &&& s.summary == m.description
        },
    }
}

/// The fields of a PKGBUILD.
#[derive(Clone, Debug)]
pub struct PkgBuild {
    pub pkgname: String,
    pub pkgver: String,
    pub pkgrel: String,
    pub pkgdesc: String,
    pub license: Vec<String>,
    pub arch: Vec<String>,
    pub source: Vec<String>,
    pub md5sums: Vec<String>,
    pub package_func: String,
    pub url: Option<String>,
    pub groups: Vec<String>,
    pub depends: Vec<String>,
    pub conflicts: Vec<String>,
    pub provides: Vec<String>,
}

/// `p` is the PKGBUILD of the recipe's package for `image`, built from `sources` with
/// `checksums`.
pub open spec fn pkgbuild_of(
    p: PkgBuild,
    m: Metadata,
    image: Seq<char>,
    sources: Seq<String>,
    checksums: Seq<String>,
    version: Seq<char>,
) -> bool {
    &&& p.pkgname == m.name
    &&& p.pkgver@ == version
    &&& p.pkgrel@ == release_text(m.release)
    &&& p.pkgdesc == m.description
    &&& p.license@ == seq![m.license]
    &&& string_views(p.arch@) == seq![spec_pkg_name(m.arch)]
    &&& p.source@ == sources
    &&& p.md5sums@ == checksums
    &&& p.package_func@ == pkg_package_func(string_views(sources))
    &&& p.url == m.url
    &&& p.groups@ == match m.group {
        Some(g) => seq![g],
        None => Seq::<String>::empty(),
    }
    &&& entries_of(p.depends, m.depends, image)
    &&& entries_of(p.conflicts, m.conflicts, image)
    &&& entries_of(p.provides, m.provides, image)
}

impl Recipe {
    /// The control file of the recipe's DEB package for `image`. A name holding `_` gets `-`
    /// in its place, as DEB package names cannot hold `_`.
    pub fn as_deb_control(&self, image: &str, installed_size: Option<&str>, version: &str) -> (c:
        DebControl)
        requires
            metadata_wf(self.metadata),
        ensures
            deb_control_of(
                c,
                self.metadata,
                image@,
                match installed_size {
                    Some(s) => Some(s@),
                    None => None,
                },
                version@,
            ),
    {
        let m = &self.metadata;
        let package = dash_underscores(m.name.as_str());
        let (priority, built_using, essential, pre_depends, recommended, suggests, breaks, replaces, enhances) =
            match &m.deb {
            Some(d) => (
                d.priority.clone(),
                d.built_using.clone(),
                d.essential,
                resolve_entries(&d.pre_depends, image),
                resolve_entries(&d.recommended, image),
                resolve_entries(&d.suggests, image),
                resolve_entries(&d.breaks, image),
                resolve_entries(&d.replaces, image),
                resolve_entries(&d.enhances, image),
            ),
            None => (
                None,
                None,
                None,
                Vec::new(),
                Vec::new(),
                Vec::new(),
                Vec::new(),
                Vec::new(),
                Vec::new(),
            ),
        };
        DebControl {
            package,
            version: version.to_owned(),
            revision: m.release().to_owned(),
            description: m.description.clone(),
            architecture: m.arch.deb_name().to_owned(),
            epoch: m.epoch.clone(),
            section: m.group.clone(),
            maintainer: m.maintainer.clone(),
            homepage: m.url.clone(),
            installed_size: match installed_size {
                Some(s) => Some(s.to_owned()),
                None => None,
            },
            priority,
            built_using,
            essential,
            depends: resolve_entries(&m.depends, image),
            conflicts: resolve_entries(&m.conflicts, image),
            provides: resolve_entries(&m.provides, image),
            pre_depends,
            recommended,
            suggests,
            breaks,
            replaces,
            enhances,
        }
    }

    /// The RPM spec of the recipe's package for `image`, built from `sources` that install
    /// `files`.
    pub fn as_rpm_spec(&self, sources: &Vec<String>, files: &Vec<String>, image: &str, version: &str) -> (s:
        RpmSpec)
        requires
            metadata_wf(self.metadata),
        ensures
            rpm_spec_of(s, self.metadata, sources@, files@, image@, version@),
    {
        let m = &self.metadata;
        let mut install_script = String::new();
        let mut i: usize = 0;
        while i < sources.len()
            invariant
                i <= sources@.len(),
                install_script@ == rpm_install_script(i as nat),
            decreases sources@.len() - i,
        {
            append_str(&mut install_script, "tar xvf %{SOURCE");
            let digits = decimal_string(i as u64);
            append_str(&mut install_script, digits.as_str());
            append_str(&mut install_script, "} -C %{buildroot}\n");
            i += 1;
        }
        let mut macros: Vec<RpmMacro> = Vec::new();
        macros.push(("__os_install_post".to_owned(), None, "%{nil}".to_owned()));
        let (obsoletes, vendor, icon, auto_req_prov, pre_script, post_script, preun_script, config_noreplace, summary) =
            match &m.rpm {
            Some(r) => (
                resolve_entries(&r.obsoletes, image),
                r.vendor.clone(),
                r.icon.clone(),
                r.auto_req_prov,
                r.pre_script.clone(),
                r.post_script.clone(),
                r.preun_script.clone(),
                r.config_noreplace.clone(),
                match &r.summary {
                    Some(x) => x.clone(),
                    None => m.description.clone(),
                },
            ),
            None => (
                Vec::new(),
                None,
                None,
                true,
                None,
                None,
                None,
                None,
                m.description.clone(),
            ),
        };
        RpmSpec {
            name: m.name.clone(),
            build_arch: m.arch.rpm_name().to_owned(),
            description: m.description.clone(),
            license: m.license.clone(),
            version: version.to_owned(),
            release: m.release().to_owned(),
            files: clone_strings(files),
            sources: clone_strings(sources),
            macros,
            install_script,
            obsoletes,
            vendor,
            icon,
            auto_req_prov,
            pre_script,
            post_script,
            preun_script,
            postun_script: None,
            config_noreplace,
            summary,
            group: m.group.clone(),
            packager: m.maintainer.clone(),
            url: m.url.clone(),
            epoch: m.epoch.clone(),
            conflicts: resolve_entries(&m.conflicts, image),
            provides: resolve_entries(&m.provides, image),
            requires: resolve_entries(&m.depends, image),
        }
    }

    /// The PKGBUILD of the recipe's package for `image`, built from `sources` with
    /// `checksums`.
    pub fn as_pkgbuild(&self, image: &str, sources: &Vec<String>, checksums: &Vec<String>, version: &str) -> (p:
        PkgBuild)
        requires
            metadata_wf(self.metadata),
        ensures
            pkgbuild_of(p, self.metadata, image@, sources@, checksums@, version@),
    {
        let m = &self.metadata;
        let mut package_func = String::new();
        let mut i: usize = 0;
        while i < sources.len()
            invariant
                i <= sources@.len(),
                package_func@ == pkg_package_func(string_views(sources@.take(i as int))),
            decreases sources@.len() - i,
        {
            assert(string_views(sources@.take(i + 1)).drop_last() =~= string_views(
                sources@.take(i as int),
            ));
            append_str(&mut package_func, "    tar xvf ");
            append_str(&mut package_func, sources[i].as_str());
            append_str(&mut package_func, " -C $pkgdir\n");
            i += 1;
        }
        assert(sources@.take(i as int) =~= sources@);
        let mut license: Vec<String> = Vec::new();
        license.push(m.license.clone());
        let mut arch: Vec<String> = Vec::new();
        arch.push(m.arch.pkg_name().to_owned());
        let mut groups: Vec<String> = Vec::new();
        if let Some(g) = &m.group {
            groups.push(g.clone());
        }
        let p = PkgBuild {
            pkgname: m.name.clone(),
            pkgver: version.to_owned(),
            pkgrel: m.release().to_owned(),
            pkgdesc: m.description.clone(),
            license,
            arch,
            source: clone_strings(sources),
            md5sums: clone_strings(checksums),
            package_func,
            url: m.url.clone(),
            groups,
            depends: resolve_entries(&m.depends, image),
            conflicts: resolve_entries(&m.conflicts, image),
            provides: resolve_entries(&m.provides, image),
        };
        assert(string_views(p.arch@) =~= seq![spec_pkg_name(m.arch)]);
        assert(p.license@ =~= seq![m.license]);
        p
    }
}

} // verus!
