//! Names, paths and commands of the builds of each packaging format.

use crate::recipe::metadata::arch::{spec_deb_name, spec_pkg_name, spec_rpm_name};
use crate::recipe::metadata::os::str_views;
use crate::recipe::metadata::Metadata;
use crate::recipe::package::release_text;
use crate::text::{append_str, chars_of, ends_with, parse_u8, spec_parse_u8};
use vstd::prelude::*;

verus! {

/// `a` then `b`.
pub fn cat2(a: &str, b: &str) -> (r: String)
    ensures
        r@ == a@ + b@,
{
    let mut s = a.to_owned();
    append_str(&mut s, b);
    s
}

/// `a`, `b` then `c`.
pub fn cat3(a: &str, b: &str, c: &str) -> (r: String)
    ensures
        r@ == a@ + b@ + c@,
{
    let mut s = cat2(a, b);
    append_str(&mut s, c);
    s
}

/// `a`, `b`, `c` then `d`.
pub fn cat4(a: &str, b: &str, c: &str, d: &str) -> (r: String)
    ensures
        r@ == a@ + b@ + c@ + d@,
{
    let mut s = cat3(a, b, c);
    append_str(&mut s, d);
    s
}

/// `a`, `b`, `c`, `d` then `e`.
pub fn cat5(a: &str, b: &str, c: &str, d: &str, e: &str) -> (r: String)
    ensures
        r@ == a@ + b@ + c@ + d@ + e@,
{
    let mut s = cat4(a, b, c, d);
    append_str(&mut s, e);
    s
}

/// The path `b` relative to `a`, as `PathBuf::join` forms it on Unix: an absolute `b` stands
/// alone; otherwise a `/` goes between the two unless `a` is empty or already ends with one.
pub open spec fn path_join(a: Seq<char>, b: Seq<char>) -> Seq<char> {
    if b.len() > 0 && b[0] == '/' {
        b
    } else if a.len() == 0 || a.last() == '/' {
        a + b
    } else {
        a + seq!['/'] + b
    }
}

/// The path `b` relative to `a`.
pub fn join_path(a: &str, b: &str) -> (r: String)
    ensures
        r@ == path_join(a@, b@),
{
    let bc = chars_of(b);
    if bc.len() > 0 && bc[0] == '/' {
        return b.to_owned();
    }
    let ac = chars_of(a);
    let mut r = a.to_owned();
    if !(ac.len() == 0 || ac[ac.len() - 1] == '/') {
        crate::text::push_char(&mut r, '/');
    }
    append_str(&mut r, b);
    r
}

/// A command run in the build container, with the directory and user it runs as.
#[derive(Clone, Debug)]
pub struct ExecStep {
    pub cmd: String,
    pub working_dir: Option<String>,
    pub user: Option<String>,
}

/// `e` runs `cmd` in `dir` (none: the container's default) as `user` (none: the default).
pub open spec fn exec_step_is(
    e: ExecStep,
    cmd: Seq<char>,
    dir: Option<Seq<char>>,
    user: Option<Seq<char>>,
) -> bool {
    &&& e.cmd@ == cmd
    &&& match dir {
        Some(d) => e.working_dir matches Some(x) && x@ == d,
        None => e.working_dir is None,
    }
    &&& match user {
        Some(u) => e.user matches Some(x) && x@ == u,
        None => e.user is None,
    }
}

pub fn step(cmd: String, working_dir: Option<String>, user: Option<String>) -> (e: ExecStep)
    ensures
        e.cmd == cmd,
        e.working_dir == working_dir,
        e.user == user,
{
    ExecStep { cmd, working_dir, user }
}

/// `name-version` of the package.
pub open spec fn name_version(m: Metadata) -> Seq<char> {
    m.name@ + "-"@ + m.version@
}

/// How an RPM package is built in the container.
#[derive(Clone, Debug)]
pub struct RpmLayout {
    /// `name-version-release.arch`
    pub buildroot_name: String,
    /// The archive of the sources, `name-version.tar.gz`
    pub source_tar: String,
    pub spec_file: String,
    /// Directories to create before the build
    pub dirs: Vec<String>,
    pub spec_tar_path: String,
    pub specs_dir: String,
    /// Copies the built files and archives them as the source
    pub prepare: Vec<ExecStep>,
    /// Lists the built files
    pub find_files: ExecStep,
    /// Extracts the spec and builds the package
    pub build: Vec<ExecStep>,
    /// Where the packages are found in the container
    pub rpms_dir: String,
    /// Where the package ends up in `output_dir`
    pub package_path: String,
}

/// `l` is how the package of `m` is built as RPM from the files in `out_dir` into
/// `output_dir`.
pub open spec fn rpm_layout_of(l: RpmLayout, m: Metadata, out_dir: Seq<char>, output_dir: Seq<char>) -> bool {
    let name = name_version(m);
    let arch = spec_rpm_name(m.arch);
    let buildroot_name = name + "-"@ + release_text(m.release) + "."@ + arch;
    let base = "/root/rpmbuild"@;
    let specs = path_join(base, "SPECS"@);
    let sources = path_join(base, "SOURCES"@);
    let rpms = path_join(base, "RPMS"@);
    let tmp_buildroot = "/tmp/"@ + buildroot_name;
    let source_tar = name + ".tar.gz"@;
    let source_tar_path = path_join(sources, source_tar);
    let spec_file = m.name@ + ".spec"@;
    let spec_tar_path = path_join(specs, name + "-spec.tar"@);
    &&& l.buildroot_name@ == buildroot_name
    &&& l.source_tar@ == source_tar
    &&& l.spec_file@ == spec_file
    &&& str_views_of(l.dirs@) == seq![
        specs,
        sources,
        rpms,
        path_join(rpms, arch),
        path_join(base, "SRPMS"@),
    ]
    &&& l.spec_tar_path@ == spec_tar_path
    &&& l.specs_dir@ == specs
    &&& l.prepare@.len() == 2
    &&& exec_step_is(l.prepare@[0], "cp -rv "@ + out_dir + " "@ + tmp_buildroot, None, None)
    &&& exec_step_is(l.prepare@[1], "tar -zcvf "@ + source_tar_path + " ."@, Some(tmp_buildroot), None)
    &&& exec_step_is(l.find_files, "find . -type f -name \"*\""@, Some(out_dir), None)
    &&& l.build@.len() == 3
    &&& exec_step_is(l.build@[0], "tar -xvf "@ + spec_tar_path + " -C "@ + specs, None, None)
    &&& exec_step_is(l.build@[1], "ls -l /root/rpmbuild/"@, None, None)
    &&& exec_step_is(l.build@[2], "rpmbuild -bb "@ + path_join(specs, spec_file), None, None)
    &&& l.rpms_dir@ == path_join(rpms, arch)
    &&& l.package_path@ == path_join(output_dir, buildroot_name + ".rpm"@)
}

/// The views of a list of strings.
pub open spec fn str_views_of(v: Seq<String>) -> Seq<Seq<char>> {
    v.map_values(|s: String| s@)
}

impl RpmLayout {
    pub fn new(m: &Metadata, out_dir: &str, output_dir: &str) -> (l: Self)
        ensures
            rpm_layout_of(l, *m, out_dir@, output_dir@),
    {
        let name = cat3(m.name.as_str(), "-", m.version.as_str());
        let release = m.release();
        let arch = m.arch.rpm_name();
        let buildroot_name = cat5(name.as_str(), "-", release, ".", arch);
        let base = "/root/rpmbuild";
        let specs = join_path(base, "SPECS");
        let sources = join_path(base, "SOURCES");
        let rpms = join_path(base, "RPMS");
        let rpms_arch = join_path(rpms.as_str(), arch);
        let srpms = join_path(base, "SRPMS");
        let tmp_buildroot = cat2("/tmp/", buildroot_name.as_str());
        let source_tar = cat2(name.as_str(), ".tar.gz");
        let source_tar_path = join_path(sources.as_str(), source_tar.as_str());
        let spec_file = cat2(m.name.as_str(), ".spec");
        let spec_tar_name = cat2(name.as_str(), "-spec.tar");
        let spec_tar_path = join_path(specs.as_str(), spec_tar_name.as_str());
        let spec_path = join_path(specs.as_str(), spec_file.as_str());
        let package_file = cat2(buildroot_name.as_str(), ".rpm");
        let package_path = join_path(output_dir, package_file.as_str());
        let prepare = vec![
            step(cat4("cp -rv ", out_dir, " ", tmp_buildroot.as_str()), None, None),
            step(
                cat3("tar -zcvf ", source_tar_path.as_str(), " ."),
                Some(tmp_buildroot.clone()),
                None,
            ),
        ];
        let find_files = step("find . -type f -name \"*\"".to_owned(), Some(out_dir.to_owned()), None);
        let build = vec![
            step(cat4("tar -xvf ", spec_tar_path.as_str(), " -C ", specs.as_str()), None, None),
            step("ls -l /root/rpmbuild/".to_owned(), None, None),
            step(cat2("rpmbuild -bb ", spec_path.as_str()), None, None),
        ];
        let dirs = vec![specs.clone(), sources, rpms, rpms_arch.clone(), srpms];
        let l = RpmLayout {
            buildroot_name,
            source_tar,
            spec_file,
            dirs,
            spec_tar_path,
            specs_dir: specs,
            prepare,
            find_files,
            build,
            rpms_dir: rpms_arch,
            package_path,
        };
        assert(str_views_of(l.dirs@) =~= seq![
            path_join("/root/rpmbuild"@, "SPECS"@),
            path_join("/root/rpmbuild"@, "SOURCES"@),
            path_join("/root/rpmbuild"@, "RPMS"@),
            path_join(path_join("/root/rpmbuild"@, "RPMS"@), spec_rpm_name(m.arch)),
            path_join("/root/rpmbuild"@, "SRPMS"@),
        ]);
        l
    }
}

/// The options of `dpkg-deb`: systems before version 10 (or whose version is not a number)
/// do not know `--root-owner-group`.
pub open spec fn spec_dpkg_deb_opts(os_ver: Seq<char>) -> Seq<char> {
    let v = match spec_parse_u8(os_ver) {
        Some(n) => n,
        None => 0,
    };
    if v < 10 {
        "--build"@
    } else {
        "--build --root-owner-group"@
    }
}

/// The options of `dpkg-deb` on a system of version `os_ver`.
pub fn dpkg_deb_opts(os_ver: &str) -> (r: &'static str)
    ensures
        r@ == spec_dpkg_deb_opts(os_ver@),
{
    let v: u8 = match parse_u8(os_ver) {
        Some(n) => n,
        None => 0,
    };
    if v < 10 {
        "--build"
    } else {
        "--build --root-owner-group"
    }
}

/// How a DEB package is built in the container.
#[derive(Clone, Debug)]
pub struct DebLayout {
    /// `name-version.arch`
    pub package_name: String,
    /// Directories to create before the build
    pub dirs: Vec<String>,
    pub control_tar_path: String,
    /// Extracts the control file, copies the built files and builds the package
    pub build: Vec<ExecStep>,
    /// The package in the container
    pub deb_path: String,
    /// Where the package ends up in `output_dir`
    pub package_path: String,
}

/// `l` is how the package of `m` is built as DEB on a system of version `os_ver` from the
/// files in `out_dir` into `output_dir`.
pub open spec fn deb_layout_of(
    l: DebLayout,
    m: Metadata,
    os_ver: Seq<char>,
    out_dir: Seq<char>,
    output_dir: Seq<char>,
) -> bool {
    let name = name_version(m);
    let debbld = "/root/debbuild"@;
    let tmp_dir = path_join(debbld, "tmp"@);
    let base_dir = path_join(debbld, name);
    let deb_dir = path_join(base_dir, "DEBIAN"@);
    let control_tar_path = path_join(tmp_dir, name + "-control.tar"@);
    let deb_name = name + ".deb"@;
    &&& l.package_name@ == name + "."@ + spec_deb_name(m.arch)
    &&& str_views_of(l.dirs@) == seq![deb_dir, tmp_dir]
    &&& l.control_tar_path@ == control_tar_path
    &&& l.build@.len() == 3
    &&& exec_step_is(l.build@[0], "tar -xvf "@ + control_tar_path + " -C "@ + deb_dir, None, None)
    &&& exec_step_is(l.build@[1], "cp -rv . "@ + base_dir, Some(out_dir), None)
    &&& exec_step_is(
        l.build@[2],
        "dpkg-deb "@ + spec_dpkg_deb_opts(os_ver) + " "@ + base_dir,
        None,
        None,
    )
    &&& l.deb_path@ == path_join(debbld, deb_name)
    &&& l.package_path@ == path_join(output_dir, deb_name)
}

/// The control archive is unpacked into the `DEBIAN` directory of the package directory that
/// the files are copied into and that `dpkg-deb` builds from; that directory is the first one
/// created.
pub open spec fn deb_control_in_debian_dir(l: DebLayout) -> bool {
    &&& l.dirs@.len() == 2
    &&& l.build@.len() == 3
    &&& l.build@[0].cmd@ == "tar -xvf "@ + l.control_tar_path@ + " -C "@ + l.dirs@[0]@
    &&& exists|pkg_dir: Seq<char>|
        {
            &&& l.build@[1].cmd@ == "cp -rv . "@ + pkg_dir
            &&& ends_with(l.build@[2].cmd@, " "@ + pkg_dir)
            &&& l.dirs@[0]@ == path_join(pkg_dir, "DEBIAN"@)
        }
}

/// In every DEB layout the control file lands in `DEBIAN/` of the directory `dpkg-deb` packs.
pub proof fn lemma_deb_control_in_debian_dir(
    l: DebLayout,
    m: Metadata,
    os_ver: Seq<char>,
    out_dir: Seq<char>,
    output_dir: Seq<char>,
)
    requires
        deb_layout_of(l, m, os_ver, out_dir, output_dir),
    ensures
        deb_control_in_debian_dir(l),
{
    let base_dir = path_join("/root/debbuild"@, name_version(m));
    let dir_views = str_views_of(l.dirs@);
    assert(dir_views.len() == 2);
    assert(l.dirs@.len() == 2);
    assert(dir_views[0] == l.dirs@[0]@);
    assert(l.dirs@[0]@ == path_join(base_dir, "DEBIAN"@));
    let c = l.build@[2].cmd@;
    let suffix = " "@ + base_dir;
    assert(c.subrange(c.len() - suffix.len(), c.len() as int) =~= suffix);
    assert(ends_with(c, suffix));
    assert(l.build@[1].cmd@ == "cp -rv . "@ + base_dir);
}

impl DebLayout {
    pub fn new(m: &Metadata, os_ver: &str, out_dir: &str, output_dir: &str) -> (l: Self)
        ensures
            deb_layout_of(l, *m, os_ver@, out_dir@, output_dir@),
            deb_control_in_debian_dir(l),
    {
        let name = cat3(m.name.as_str(), "-", m.version.as_str());
        let package_name = cat3(name.as_str(), ".", m.arch.deb_name());
        let debbld = "/root/debbuild";
        let tmp_dir = join_path(debbld, "tmp");
        let base_dir = join_path(debbld, name.as_str());
        let deb_dir = join_path(base_dir.as_str(), "DEBIAN");
        let control_tar_name = cat2(name.as_str(), "-control.tar");
        let control_tar_path = join_path(tmp_dir.as_str(), control_tar_name.as_str());
        let deb_name = cat2(name.as_str(), ".deb");
        let build = vec![
            step(
                cat4("tar -xvf ", control_tar_path.as_str(), " -C ", deb_dir.as_str()),
                None,
                None,
            ),
            step(cat2("cp -rv . ", base_dir.as_str()), Some(out_dir.to_owned()), None),
            step(cat4("dpkg-deb ", dpkg_deb_opts(os_ver), " ", base_dir.as_str()), None, None),
        ];
        let dirs = vec![deb_dir, tmp_dir];
        let l = DebLayout {
            package_name,
            dirs,
            control_tar_path,
            build,
            deb_path: join_path(debbld, deb_name.as_str()),
            package_path: join_path(output_dir, deb_name.as_str()),
        };
        assert(str_views_of(l.dirs@) =~= seq![
            path_join(path_join("/root/debbuild"@, name_version(*m)), "DEBIAN"@),
            path_join("/root/debbuild"@, "tmp"@),
        ]);
        proof {
            lemma_deb_control_in_debian_dir(l, *m, os_ver@, out_dir@, output_dir@);
        }
        l
    }
}

/// The user that builds PKG packages.
pub const BUILD_USER: &'static str = "builduser";

/// How a PKG package is built in the container.
#[derive(Clone, Debug)]
pub struct PkgLayout {
    /// `name-version-release-arch`
    pub package_name: String,
    /// Directories to create before the build
    pub dirs: Vec<String>,
    pub source_tar_path: String,
    /// Copies the built files and archives them as the source
    pub prepare: Vec<ExecStep>,
    /// Prints the MD5 checksum of the source archive
    pub checksum: ExecStep,
    pub pkgbuild_tar_path: String,
    /// Extracts the PKGBUILD, creates the build user and builds the package as that user
    pub build: Vec<ExecStep>,
    /// The package in the container
    pub pkg_path: String,
    /// Where the package ends up in `output_dir`
    pub package_path: String,
}

/// `l` is how the package of `m` is built as PKG from the files in `out_dir` into
/// `output_dir`.
pub open spec fn pkg_layout_of(l: PkgLayout, m: Metadata, out_dir: Seq<char>, output_dir: Seq<char>) -> bool {
    let name = name_version(m);
    let package_name = name + "-"@ + release_text(m.release) + "-"@ + spec_pkg_name(m.arch);
    let tmp_dir = "/tmp/"@ + package_name;
    let src_dir = path_join(tmp_dir, "src"@);
    let bld_dir = path_join(tmp_dir, "bld"@);
    let source_tar_path = path_join(bld_dir, name + ".tar.gz"@);
    let pkgbuild_tar_path = path_join(tmp_dir, "PKGBUILD.tar"@);
    let pkg = package_name + ".pkg.tar.zst"@;
    &&& l.package_name@ == package_name
    &&& str_views_of(l.dirs@) == seq![tmp_dir, bld_dir, src_dir]
    &&& l.source_tar_path@ == source_tar_path
    &&& l.prepare@.len() == 2
    &&& exec_step_is(l.prepare@[0], "cp -rv . "@ + src_dir, Some(out_dir), None)
    &&& exec_step_is(l.prepare@[1], "tar -zcvf "@ + source_tar_path + " ."@, Some(src_dir), None)
    &&& exec_step_is(l.checksum, "md5sum "@ + source_tar_path, None, None)
    &&& l.pkgbuild_tar_path@ == pkgbuild_tar_path
    &&& l.build@.len() == 6
    &&& exec_step_is(l.build@[0], "tar -xvf "@ + pkgbuild_tar_path + " -C "@ + bld_dir, None, None)
    &&& exec_step_is(l.build@[1], "useradd -m "@ + BUILD_USER@, None, None)
    &&& exec_step_is(l.build@[2], "passwd -d "@ + BUILD_USER@, None, None)
    &&& exec_step_is(l.build@[3], "chown -Rv "@ + BUILD_USER@ + ":"@ + BUILD_USER@ + " ."@, Some(bld_dir), None)
    &&& exec_step_is(l.build@[4], "chmod 644 PKGBUILD"@, Some(bld_dir), None)
    &&& exec_step_is(l.build@[5], "makepkg"@, Some(bld_dir), Some(BUILD_USER@))
    &&& l.pkg_path@ == path_join(bld_dir, pkg)
    &&& l.package_path@ == path_join(output_dir, pkg)
}

impl PkgLayout {
    pub fn new(m: &Metadata, out_dir: &str, output_dir: &str) -> (l: Self)
        ensures
            pkg_layout_of(l, *m, out_dir@, output_dir@),
    {
        let name = cat3(m.name.as_str(), "-", m.version.as_str());
        let package_name = cat5(name.as_str(), "-", m.release(), "-", m.arch.pkg_name());
        let tmp_dir = cat2("/tmp/", package_name.as_str());
        let src_dir = join_path(tmp_dir.as_str(), "src");
        let bld_dir = join_path(tmp_dir.as_str(), "bld");
        let source_tar_name = cat2(name.as_str(), ".tar.gz");
        let source_tar_path = join_path(bld_dir.as_str(), source_tar_name.as_str());
        let pkgbuild_tar_path = join_path(tmp_dir.as_str(), "PKGBUILD.tar");
        let pkg = cat2(package_name.as_str(), ".pkg.tar.zst");
        let prepare = vec![
            step(cat2("cp -rv . ", src_dir.as_str()), Some(out_dir.to_owned()), None),
            step(cat3("tar -zcvf ", source_tar_path.as_str(), " ."), Some(src_dir.clone()), None),
        ];
        let checksum = step(cat2("md5sum ", source_tar_path.as_str()), None, None);
        let build = vec![
            step(
                cat4("tar -xvf ", pkgbuild_tar_path.as_str(), " -C ", bld_dir.as_str()),
                None,
                None,
            ),
            step(cat2("useradd -m ", BUILD_USER), None, None),
            step(cat2("passwd -d ", BUILD_USER), None, None),
            step(cat5("chown -Rv ", BUILD_USER, ":", BUILD_USER, " ."), Some(bld_dir.clone()), None),
            step("chmod 644 PKGBUILD".to_owned(), Some(bld_dir.clone()), None),
            step("makepkg".to_owned(), Some(bld_dir.clone()), Some(BUILD_USER.to_owned())),
        ];
        let pkg_path = join_path(bld_dir.as_str(), pkg.as_str());
        let package_path = join_path(output_dir, pkg.as_str());
        let dirs = vec![tmp_dir, bld_dir, src_dir];
        let l = PkgLayout {
            package_name,
            dirs,
            source_tar_path,
            prepare,
            checksum,
            pkgbuild_tar_path,
            build,
            pkg_path,
            package_path,
        };
        assert(str_views_of(l.dirs@) =~= seq![
            "/tmp/"@ + l.package_name@,
            path_join("/tmp/"@ + l.package_name@, "bld"@),
            path_join("/tmp/"@ + l.package_name@, "src"@),
        ]);
        l
    }
}

/// The name of the GZIP archive of the package of `m`: `name-version.tar.gz`.
pub open spec fn spec_gzip_archive_name(m: Metadata) -> Seq<char> {
    name_version(m) + ".tar.gz"@
}

/// The name of the GZIP archive of the package.
pub fn gzip_archive_name(m: &Metadata) -> (r: String)
    ensures
        r@ == spec_gzip_archive_name(*m),
{
    cat4(m.name.as_str(), "-", m.version.as_str(), ".tar.gz")
}

} // verus!
