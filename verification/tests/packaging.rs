use pkger::build::layout::{dpkg_deb_opts, gzip_archive_name, join_path, DebLayout, PkgLayout, RpmLayout};
use pkger::build::output::{first_word, found_files, split_ascii_whitespace};
use pkger::build::steps::{plan_scripts, step_runs};
use pkger::recipe::metadata::MetadataRep;
use pkger::recipe::{BuildTarget, Command, Recipe, RecipeRep, ScriptRep};
use pkger::runtime::container::{join, truncate};
use pkger::runtime::{fix_name, Chunk, CreateOpts, ExecOpts, InvalidUtf8, Output};
use pkger::value::Value;
use pkger::build::context::{container_env, container_opts, BuildDirs};
use pkger::cli::os::Os;
use pkger::recipe::Env;
use pkger::build::image::{cache_dockerfile, reuse_image};
use pkger::cli::os::PackageManager;
use pkger::recipe::loader::{Loader, LoaderError};
use pkger::build::commands::{checked_output, exclude_step, fetch_plan, install_command, mkdir_command, next_stage, package_out_dir, BuildStage, FetchStep};

fn s(x: &str) -> String {
    x.to_string()
}

fn recipe(name: &str, arch: Option<&str>, release: Option<&str>) -> Recipe {
    let m = MetadataRep {
        name: Some(s(name)),
        version: Some(s("1.2.3")),
        description: Some(s("desc")),
        license: Some(s("MIT")),
        all_images: false,
        images: vec![],
        maintainer: None,
        url: None,
        arch: arch.map(s),
        source: None,
        git: Value::Null,
        skip_default_deps: None,
        exclude: None,
        group: None,
        release: release.map(s),
        epoch: None,
        build_depends: Value::Null,
        depends: Value::Null,
        conflicts: Value::Null,
        provides: Value::Null,
        patches: Value::Null,
        deb: None,
        rpm: None,
        pkg: None,
        apk: None,
    };
    let mut only_centos = Command::from("centos only");
    only_centos.images = Some(vec![s("centos8")]);
    let mut rpm_only = Command::from("rpm only");
    rpm_only.images = Some(vec![s("centos8")]);
    rpm_only.rpm = Some(true);
    let rep = RecipeRep {
        from: None,
        metadata: Some(m),
        env: None,
        configure: Some(ScriptRep { steps: vec![Command::from("./configure")], working_dir: None, shell: Some(s("/bin/bash")) }),
        build: Some(ScriptRep {
            steps: vec![Command::from("make"), only_centos, rpm_only],
            working_dir: None,
            shell: None,
        }),
        install: Some(ScriptRep { steps: vec![Command::from("make install")], working_dir: Some(s("/src")), shell: None }),
    };
    Recipe::new(rep, s("/recipes/x")).unwrap()
}

#[test]
fn steps_run_on_images_and_targets() {
    let r = recipe("pkg", None, None);
    let runs = plan_scripts(&r, "/bld", "/out", "debian10", &BuildTarget::Deb);
    assert_eq!(runs.len(), 3);
    assert_eq!(runs[0].commands, vec![s("./configure")]);
    assert_eq!(runs[0].working_dir, None);
    assert_eq!(runs[0].shell, Some(s("/bin/bash")));
    assert_eq!(runs[1].commands, vec![s("make")]);
    assert_eq!(runs[1].working_dir, Some(s("/bld")));
    assert_eq!(runs[2].working_dir, Some(s("/src")));
    let runs = plan_scripts(&r, "/bld", "/out", "debian10", &BuildTarget::Rpm);
    assert_eq!(runs[1].commands, vec![s("make"), s("rpm only")]);
    let runs = plan_scripts(&r, "/bld", "/out", "centos8", &BuildTarget::Deb);
    assert_eq!(runs[1].commands, vec![s("make"), s("centos only")]);
    let mut c = Command::from("x");
    c.images = Some(vec![]);
    assert!(step_runs(&c, "any", &BuildTarget::Gzip));
}

#[test]
fn rpm_layout() {
    let r = recipe("pkg", Some("x86_64"), Some("2"));
    let l = RpmLayout::new(&r.metadata, "/out", "/home/out");
    assert_eq!(l.buildroot_name, "pkg-1.2.3-2.x86_64");
    assert_eq!(l.source_tar, "pkg-1.2.3.tar.gz");
    assert_eq!(l.spec_file, "pkg.spec");
    assert_eq!(l.dirs[3], "/root/rpmbuild/RPMS/x86_64");
    assert_eq!(l.prepare[0].cmd, "cp -rv /out /tmp/pkg-1.2.3-2.x86_64");
    assert_eq!(l.prepare[1].cmd, "tar -zcvf /root/rpmbuild/SOURCES/pkg-1.2.3.tar.gz .");
    assert_eq!(l.build[2].cmd, "rpmbuild -bb /root/rpmbuild/SPECS/pkg.spec");
    assert_eq!(l.package_path, "/home/out/pkg-1.2.3-2.x86_64.rpm");
}

#[test]
fn deb_layout() {
    let r = recipe("pkg", Some("amd64"), None);
    let l = DebLayout::new(&r.metadata, "9", "/out", "/home/out/");
    assert_eq!(l.package_name, "pkg-1.2.3.amd64");
    assert_eq!(l.build[2].cmd, "dpkg-deb --build /root/debbuild/pkg-1.2.3");
    assert_eq!(l.package_path, "/home/out/pkg-1.2.3.deb");
    let l = DebLayout::new(&r.metadata, "11", "/out", "/home/out");
    assert_eq!(l.build[2].cmd, "dpkg-deb --build --root-owner-group /root/debbuild/pkg-1.2.3");
    assert_eq!(dpkg_deb_opts("bookworm"), "--build");
}

#[test]
fn pkg_layout() {
    let r = recipe("pkg", None, None);
    let l = PkgLayout::new(&r.metadata, "/out", "/home/out");
    assert_eq!(l.package_name, "pkg-1.2.3-0-any");
    assert_eq!(l.build[5].cmd, "makepkg");
    assert_eq!(l.build[5].user, Some(s("builduser")));
    assert_eq!(l.pkg_path, "/tmp/pkg-1.2.3-0-any/bld/pkg-1.2.3-0-any.pkg.tar.zst");
    assert_eq!(gzip_archive_name(&r.metadata), "pkg-1.2.3.tar.gz");
}

#[test]
fn path_joins() {
    assert_eq!(join_path("/a", "b"), "/a/b");
    assert_eq!(join_path("/a/", "b"), "/a/b");
    assert_eq!(join_path("", "b"), "b");
    assert_eq!(join_path("/a", "/b"), "/b");
}

#[test]
fn reads_command_output() {
    let out = vec![s("./a/b.txt\n./c"), s(".txt\n  .hidden\n")];
    assert_eq!(found_files(&out), vec![s("/a/b.txt"), s("/c.txt"), s("hidden")]);
    assert_eq!(
        first_word(&vec![s("d41d8cd98f00b204e9800998ecf8427e  /tmp/x.tar.gz\n")]),
        Some(s("d41d8cd98f00b204e9800998ecf8427e"))
    );
    assert_eq!(first_word(&vec![s("  \n")]), None);
    assert_eq!(split_ascii_whitespace(" a\tb \n"), vec![s("a"), s("b")]);
}

#[test]
fn container_names_and_ids() {
    assert_eq!(fix_name("my recipe/1.0_x!"), "myrecipe1.0_x");
    assert_eq!(truncate("0123456789abcdef"), "0123456789ab");
    assert_eq!(truncate("abc"), "abc");
    assert_eq!(truncate("0123456789\u{e9}xyz"), "0123456789\u{e9}");
    assert_eq!(truncate("0123456789\u{e9}"), "0123456789\u{e9}");
}

#[test]
fn command_output() {
    let mut out: Output<String> = Output::new();
    assert_eq!(out.push_chunk(Chunk::StdOut(b"hello".to_vec())), Ok(()));
    assert_eq!(out.push_chunk(Chunk::StdErr(b"bad".to_vec())), Ok(()));
    assert_eq!(out.push_chunk(Chunk::StdErr(vec![0xff])), Err(InvalidUtf8));
    assert_eq!(out.push_chunk(Chunk::StdErr(b"worse".to_vec())), Ok(()));
    out.exit_code = 1;
    assert_eq!(out.as_result(), Err(s("bad\nworse")));
    let mut ok: Output<String> = Output::new();
    ok.stdout.push(s("line"));
    assert_eq!(ok.as_result(), Ok(vec![s("line")]));
    assert_eq!(join(&vec![s("a"), s("b"), s("c")], ", "), "a, b, c");
}

#[test]
fn container_options() {
    let o = CreateOpts::new(s("centos:8"))
        .name(s("pkger-1"))
        .cmd(vec![s("sleep"), s("infinity")])
        .working_dir(s("/tmp"));
    assert_eq!(o.image, "centos:8");
    assert_eq!(o.name, Some(s("pkger-1")));
    assert_eq!(o.cmd, Some(vec![s("sleep"), s("infinity")]));
    assert_eq!(o.working_dir, Some(s("/tmp")));
    assert!(o.entrypoint.is_none() && o.labels.is_none() && o.volumes.is_none() && o.env.is_none());

    let e = ExecOpts::new();
    assert_eq!(e.shell, "/bin/sh");
    assert!(e.attach_stdout && e.attach_stderr && !e.allocate_tty && !e.privileged);
    let e = e.cmd("make").user("builduser").shell("/bin/bash").tty(true).privileged(true).working_dir("/src").attach_stderr(false).attach_stdout(false);
    assert_eq!(e.command(), vec!["/bin/bash", "-c", "make"]);
    assert_eq!(e.user, Some("builduser"));
    assert_eq!(e.working_dir, Some("/src"));
    assert!(e.allocate_tty && e.privileged && !e.attach_stderr && !e.attach_stdout);
}

#[test]
fn build_directories_and_container() {
    let dirs = BuildDirs::new("pkg", "centos8", 1700000000);
    assert_eq!(dirs.id, "pkger-pkg-centos8-1700000000");
    assert_eq!(dirs.bld_dir, "/tmp/pkg-build-1700000000");
    assert_eq!(dirs.out_dir, "/tmp/pkg-out-1700000000");
    assert_eq!(dirs.tmp_dir, "/tmp/pkg-tmp-1700000000");
    let mut env = Env::new();
    env.insert(s("CC"), s("gcc"));
    let os = Os::from(Some(s("centos")), Some(s("8")));
    let env = container_env(&env, &dirs, &os);
    assert_eq!(
        env.clone().kv_vec(),
        vec![
            s("CC=gcc"),
            s("PKGER_BLD_DIR=/tmp/pkg-build-1700000000"),
            s("PKGER_OUT_DIR=/tmp/pkg-out-1700000000"),
            s("PKGER_OS=centos"),
            s("PKGER_OS_VERSION=8"),
        ]
    );
    let o = container_opts("abc123", &dirs, env);
    assert_eq!(o.image, "abc123");
    assert_eq!(o.name, Some(dirs.id.clone()));
    assert_eq!(o.cmd, Some(vec![s("sleep infinity")]));
    assert_eq!(o.entrypoint, Some(vec![s("/bin/sh"), s("-c")]));
    assert_eq!(o.working_dir, Some(dirs.bld_dir.clone()));
}

#[test]
fn cached_images() {
    let cached = vec![s("gcc"), s("tar")];
    assert!(reuse_image(&cached, Some(&vec!["tar", "gcc", "tar"]), true));
    assert!(!reuse_image(&cached, Some(&vec!["tar", "gcc", "tar"]), false));
    assert!(!reuse_image(&cached, Some(&vec!["tar"]), true));
    assert!(!reuse_image(&cached, None, true));
    assert!(reuse_image(&vec![], None, true));
    assert_eq!(
        cache_dockerfile("centos8", "latest", &PackageManager::Yum, &vec![s("gcc"), s("make")]),
        "\nFROM centos8:latest\nRUN yum clean metadata\nRUN yum install -y gcc make\n"
    );
}

#[test]
fn recipe_loader_paths() {
    let l = Loader::new(s("/recipes"), true).unwrap();
    let dir = l.recipe_dir("test");
    assert_eq!(dir, "/recipes/test");
    assert_eq!(Loader::recipe_file(&dir, true), "/recipes/test/recipe.yml");
    assert_eq!(Loader::recipe_file(&dir, false), "/recipes/test/recipe.yaml");
    assert_eq!(Loader::new(s("/nope"), false).err().map(|e| e == LoaderError::NotADirectory), Some(true));
}

#[test]
fn package_descriptions() {
    let r = recipe("my_pkg", Some("x86_64"), Some("4"));
    let c = r.as_deb_control("debian10", Some("1024"), "1.2.3");
    assert_eq!(c.package, "my-pkg");
    assert_eq!(c.architecture, "amd64");
    assert_eq!(c.revision, "4");
    assert_eq!(c.installed_size, Some(s("1024")));
    assert!(c.depends.is_empty() && c.priority.is_none());
    let spec = r.as_rpm_spec(&vec![s("a.tar.gz"), s("b.tar.gz")], &vec![s("/usr/bin/x")], "centos8", "1.2.3");
    assert_eq!(spec.install_script, "tar xvf %{SOURCE0} -C %{buildroot}\ntar xvf %{SOURCE1} -C %{buildroot}\n");
    assert_eq!(spec.build_arch, "x86_64");
    assert_eq!(spec.summary, "desc");
    assert!(spec.auto_req_prov);
    assert_eq!(spec.macros, vec![(s("__os_install_post"), None, s("%{nil}"))]);
    let p = r.as_pkgbuild("arch", &vec![s("src.tar.gz")], &vec![s("abc")], "1.2.3");
    assert_eq!(p.package_func, "    tar xvf src.tar.gz -C $pkgdir\n");
    assert_eq!(p.arch, vec![s("x86_64")]);
    assert_eq!(p.pkgrel, "4");
    assert_eq!(p.license, vec![s("MIT")]);
    assert!(p.groups.is_empty());
}

#[test]
fn container_commands() {
    assert_eq!(mkdir_command(&vec![s("/a"), s("/b c")]), "mkdir -pv /a /b c");
    assert_eq!(mkdir_command(&vec![]), "mkdir -pv ");
    let mut out: Output<String> = Output::new();
    out.exit_code = 2;
    out.stderr = vec![s("no such file"), s("oops")];
    assert_eq!(
        checked_output("ls /x", out).err(),
        Some(s("command `ls /x` failed with exit code 2\nError:\nno such file\noops"))
    );
    let ok: Output<String> = Output::new();
    assert!(checked_output("true", ok).is_ok());
    let e = exclude_step(&Some(vec![s("share/doc"), s("/etc"), s("man")]), "/out").unwrap();
    assert_eq!(e.cmd, "rm -rvf share/doc man");
    assert_eq!(e.working_dir, Some(s("/out")));
    assert!(exclude_step(&None, "/out").is_none());
    let os = Os::from(Some(s("debian")), Some(s("10")));
    assert_eq!(package_out_dir("/home/out", &os), "/home/out/debian/10");
    assert_eq!(
        install_command(&PackageManager::Apt, &vec!["gcc", "make"]),
        Some(s("apt-get install -y gcc make"))
    );
    assert_eq!(install_command(&PackageManager::Apt, &vec![]), None);
}

#[test]
fn fetching_sources() {
    let r = recipe("pkg", None, None);
    assert!(fetch_plan(&r.metadata, "/bld", "/tmp/x").is_empty());
    let mut m = r.metadata.clone();
    m.source = Some(s("https://example.com/a.tar.gz"));
    let steps = fetch_plan(&m, "/bld", "/tmp/x");
    assert_eq!(steps.len(), 2);
    match &steps[0] {
        FetchStep::Exec(e, None) => {
            assert_eq!(e.cmd, "curl -LO https://example.com/a.tar.gz");
            assert_eq!(e.working_dir, Some(s("/tmp/x")));
        }
        _ => panic!("expected a download"),
    }
    match &steps[1] {
        FetchStep::Exec(e, Some(sh)) => {
            assert_eq!(sh, "/bin/bash");
            assert!(e.cmd.contains("tar xvf \\$file -C /bld"));
        }
        _ => panic!("expected the unpacking script"),
    }
    m.source = Some(s("/home/me/src.zip"));
    match &fetch_plan(&m, "/bld", "/tmp/x")[0] {
        FetchStep::Upload(f, d) => assert_eq!((f.as_str(), d.as_str()), ("/home/me/src.zip", "/tmp/x")),
        _ => panic!("expected an upload"),
    }
    m.git = Some(pkger::recipe::GitSource::new(s("https://g.it/r.git"), Some(s("dev"))));
    match &fetch_plan(&m, "/bld", "/tmp/x")[..] {
        [FetchStep::Exec(e, None)] => assert_eq!(
            e.cmd,
            "git clone --single-branch --branch dev --recurse-submodules -- https://g.it/r.git /bld"
        ),
        _ => panic!("expected a clone"),
    }
}

#[test]
fn build_stages() {
    let mut stage = BuildStage::BuildImage;
    let mut seen = vec![stage];
    while stage != BuildStage::Done {
        stage = next_stage(stage, false, true);
        seen.push(stage);
    }
    assert_eq!(seen.len(), 13);
    assert!(seen.contains(&BuildStage::InstallPkgerDeps));
    let mut stage = BuildStage::BuildImage;
    let mut steps = 0;
    while stage != BuildStage::Done {
        stage = next_stage(stage, true, true);
        assert_ne!(stage, BuildStage::InstallPkgerDeps);
        steps += 1;
    }
    assert_eq!(steps, 11);
    assert_eq!(next_stage(BuildStage::FetchSource, false, false), BuildStage::Interrupted);
    assert_eq!(next_stage(BuildStage::BuildImage, false, false), BuildStage::CreateOutDir);
}

#[test]
fn byte_output() {
    let mut out: Output<u8> = Output::new();
    out.push_chunk(Chunk::StdOut(b"ab".to_vec()));
    out.push_chunk(Chunk::StdErr(b"x".to_vec()));
    out.push_chunk(Chunk::StdOut(vec![0xff]));
    assert_eq!(out.stdout, vec![b'a', b'b', 0xff]);
    assert_eq!(out.stderr, b"x".to_vec());
}
