use pkger::cli::state::{ImageState, ImagesState, RecipeTarget, DEFAULT_STATE_FILE};
use pkger::cli::cmd::Cmd;
use pkger::cli::control::{deb_arch, generate_deb_control, rpm_arch, MetadataRep};
use pkger::cli::fmt::{log_filter, FmtFilter};
use pkger::cli::gen::{gen_recipe, GenRecipeOpts};
use pkger::cli::metadata::{ImageTarget, Metadata, MetadataRep as TomlMetadataRep};
use pkger::cli::image::{extract_key, FsImage, FsImages, ImageError};
use pkger::cli::job::{convert_id, pkger_deps, JobResult};
use pkger::cli::os::{Os, PackageManager};
use pkger::cli::config::{Build, BuildRep, Config, Opts};
use pkger::cli::plan::{plan_build, BuildOpts};
use pkger::recipe::metadata::{GitSource, MetadataRep as CoreMetadataRep};
use pkger::recipe::{BuildTarget, Recipe, RecipeRep, ScriptRep};
use pkger::value::{ParseError, Value};
use pkger::cli::image::os_release_fields;
use pkger::cli::jobs::{custom_image_jobs, simple_jobs, Job};

fn s(x: &str) -> String {
    x.to_string()
}

#[test]
fn os_from_name_and_version() {
    let os = Os::from(Some(s("centos")), Some(s("8")));
    assert_eq!(os.as_ref(), "centos");
    assert_eq!(os.os_ver(), "8");
    assert_eq!(os.package_manager(), PackageManager::Dnf);
    let os = Os::from(Some(s("fedora")), Some(s("34")));
    assert_eq!(os.package_manager(), PackageManager::Yum);
    let os = Os::from(Some(s("debian")), None);
    assert_eq!(os.os_ver(), "");
    assert_eq!(os.package_manager(), PackageManager::Apt);
    let os = Os::from(Some(s("gentoo")), Some(s("1")));
    assert_eq!(os.as_ref(), "unknown");
    assert_eq!(os.package_manager(), PackageManager::Unknown);
    assert_eq!(Os::from(None, None).as_ref(), "unknown");
}

#[test]
fn package_manager_commands() {
    assert_eq!(PackageManager::Apt.as_ref(), "apt-get");
    assert_eq!(PackageManager::Unknown.as_ref(), "");
    assert_eq!(PackageManager::Pacman.install_args(), vec!["-S"]);
    assert_eq!(PackageManager::Yum.update_repos_args(), vec!["clean", "metadata"]);
    assert_eq!(PackageManager::Apt.upgrade_packages_args(), vec!["dist-upgrade", "-y"]);
    assert!(PackageManager::Unknown.install_args().is_empty());
}

#[test]
fn toml_steps() {
    let step = Cmd::try_from_value(&Value::String(s("echo 1"))).unwrap();
    assert_eq!(step.cmd, "echo 1");
    assert!(step.should_run_on(&BuildTarget::Rpm));
    let table = Value::Mapping(vec![
        (Value::String(s("cmd")), Value::String(s("echo 321"))),
        (Value::String(s("rpm")), Value::Bool(true)),
        (
            Value::String(s("images")),
            Value::Sequence(vec![Value::String(s("centos8"))]),
        ),
    ]);
    let step = Cmd::try_from_value(&table).unwrap();
    assert_eq!(step.images, vec![s("centos8")]);
    assert!(step.should_run_on(&BuildTarget::Rpm));
    assert!(!step.should_run_on(&BuildTarget::Deb));
    assert!(!step.should_run_on(&BuildTarget::Gzip));
    let no_cmd = Value::Mapping(vec![]);
    assert_eq!(Cmd::try_from_value(&no_cmd).err().map(|e| e), Some(ParseError::MissingCmd));
    let bad_flag = Value::Mapping(vec![
        (Value::String(s("cmd")), Value::String(s("x"))),
        (Value::String(s("deb")), Value::Int(1)),
    ]);
    assert_eq!(Cmd::try_from_value(&bad_flag).err(), Some(ParseError::FlagNotBool));
    assert_eq!(
        Cmd::try_from_value(&Value::Int(3)).err(),
        Some(ParseError::StepNotStringOrMapping)
    );
}

#[test]
fn extracts_os_release_keys() {
    let out = "NAME=\"Debian GNU/Linux\"\nID=debian\r\nVERSION_ID=\"10\"\n";
    assert_eq!(extract_key(out, "ID"), Some(s("debian")));
    assert_eq!(extract_key(out, "VERSION_ID"), Some(s("10")));
    assert_eq!(extract_key(out, "NAME"), Some(s("Debian GNU/Linux")));
    assert_eq!(extract_key(out, "MISSING"), None);
}

#[test]
fn fs_images() {
    let img = FsImage::new(s("/images/centos8"), true).unwrap();
    assert_eq!(img.name, "centos8");
    assert_eq!(
        FsImage::new(s("/images/none"), false).err(),
        Some(ImageError::MissingDockerfile)
    );
    assert!(FsImage::try_new(s("/"), true).is_none());
    let mut images = FsImages::new(s("/images"));
    assert_eq!(images.path(), "/images");
    images.load(vec![(s("centos8"), img)]);
    assert!(images.images().contains_key("centos8"));
    assert!(!images.images().contains_key("debian10"));
}

#[test]
fn filter_string_hides_parts() {
    let f = FmtFilter::from("dF");
    assert!(f.hide_date && f.hide_fields && !f.hide_level && !f.hide_spans);
    let g = FmtFilter::from("fdfx");
    assert_eq!(
        (g.hide_date, g.hide_fields, g.hide_level, g.hide_spans),
        (f.hide_date, f.hide_fields, f.hide_level, f.hide_spans)
    );
    let all = FmtFilter::from("SLDF");
    assert!(all.hide_date && all.hide_fields && all.hide_level && all.hide_spans);
    assert_eq!(all.delimiter, ", ");
    let none = FmtFilter::default();
    assert!(!none.hide_date && !none.hide_spans);
}

#[test]
fn log_filters() {
    assert_eq!(log_filter(Some(s("pkger=warn")), false, true), "pkger=warn");
    assert_eq!(log_filter(Some(s("pkger=warn")), true, false), "");
    assert_eq!(log_filter(None, true, true), "pkger=error");
    assert_eq!(log_filter(None, false, true), "pkger=trace");
    assert_eq!(log_filter(None, false, false), "pkger=info");
}

#[test]
fn job_results_and_ids() {
    match JobResult::success(s("job"), s("done")) {
        JobResult::Success { id, output } => assert_eq!((id, output), (s("job"), s("done"))),
        _ => panic!("expected a success"),
    }
    match JobResult::failure(s("job"), s("boom")) {
        JobResult::Failure { id, reason } => assert_eq!((id, reason), (s("job"), s("boom"))),
        _ => panic!("expected a failure"),
    }
    assert_eq!(convert_id("0123456789abcdef"), "0123456789ab");
    assert_eq!(convert_id("0123456789\u{e9}f00"), "0123456789\u{e9}");
}

fn recipe_with_source(source: Option<&str>, git: bool) -> Recipe {
    let mut m = CoreMetadataRep {
        name: Some(s("pkg")),
        version: Some(s("1.0")),
        description: Some(s("d")),
        license: Some(s("MIT")),
        all_images: false,
        images: vec![],
        maintainer: None,
        url: None,
        arch: None,
        source: source.map(s),
        git: Value::Null,
        skip_default_deps: None,
        exclude: None,
        group: None,
        release: None,
        epoch: None,
        build_depends: Value::Null,
        depends: Value::Null,
        conflicts: Value::Null,
        provides: Value::Null,
        patches: Value::Null,
        deb: None,
        rpm: None,
        pkg: None,
        apk: None,
    };
    if git {
        m.git = Value::String(s("https://example.com/repo.git"));
    }
    let rep = RecipeRep {
        from: None,
        metadata: Some(m),
        env: None,
        configure: None,
        build: Some(ScriptRep { steps: vec![], working_dir: None, shell: None }),
        install: None,
    };
    Recipe::new(rep, String::new()).unwrap()
}

#[test]
fn build_tools() {
    let r = recipe_with_source(Some("https://example.com/src.zip"), false);
    let mut deps = pkger_deps(&BuildTarget::Rpm, &r);
    deps.sort();
    assert_eq!(deps, vec!["curl", "rpm-build", "tar", "zip"]);
    let r = recipe_with_source(Some("https://example.com/src.zip"), true);
    let mut deps = pkger_deps(&BuildTarget::Deb, &r);
    deps.sort();
    assert_eq!(deps, vec!["dpkg", "git", "tar"]);
    let r = recipe_with_source(None, false);
    let mut deps = pkger_deps(&BuildTarget::Gzip, &r);
    deps.sort();
    assert_eq!(deps, vec!["gzip", "tar"]);
}

#[test]
fn deb_control_file() {
    let info = MetadataRep {
        name: s("pkger"),
        version: s("0.1.0"),
        arch: s("x86_64"),
        revision: s("1"),
        description: s("builds packages"),
        license: s("MIT"),
        source: s(""),
        images: vec![],
        git: None,
        depends: Some(vec![s("libc6"), s("openssl")]),
        obsoletes: None,
        conflicts: Some(vec![]),
        provides: None,
        exclude: None,
        maintainer: None,
        section: None,
        priority: Some(s("required")),
    };
    assert_eq!(
        generate_deb_control(&info),
        "Package: pkger\nVersion: 0.1.0-1\nArchitecture: amd64\nSection: custom\nPriority: required\nDepends: libc6, openssl\nConflicts: \nMaintainer: null <null@email.com>\nDescription: builds packages\n"
    );
}

#[test]
fn arch_names() {
    assert_eq!(deb_arch(&Some(s("x86_64"))), "amd64");
    assert_eq!(deb_arch(&Some(s("i386"))), "i386");
    assert_eq!(deb_arch(&None), "all");
    assert_eq!(rpm_arch(&Some(s("amd64"))), "x86_64");
    assert_eq!(rpm_arch(&Some(s("i386"))), "x86");
    assert_eq!(rpm_arch(&Some(s("arm"))), "arm");
    assert_eq!(rpm_arch(&None), "noarch");
}

fn config(docker: Option<&str>) -> Config {
    Config {
        images_dir: s("images"),
        recipes_dir: s("recipes"),
        output_dir: s("out"),
        docker: docker.map(s),
    }
}

#[test]
fn build_plans() {
    let available = vec![s("a"), s("b"), s("c")];
    let opts = BuildOpts {
        recipes: vec![s("c"), s("x"), s("a"), s("c")],
        simple: None,
        images: Some(vec![s("centos8"), s("nope"), s("centos8")]),
        docker: None,
    };
    let p = plan_build(&opts, &available, &Some(vec![s("centos8"), s("debian10")]), &config(Some("unix:///run/docker.sock")));
    assert!(p.proceed);
    assert_eq!(p.recipes, Some(vec![s("c"), s("a")]));
    assert_eq!(p.images_filter, vec![s("centos8"), s("centos8")]);
    assert_eq!(p.docker_uri, Some(s("unix:///run/docker.sock")));

    let opts = BuildOpts { recipes: vec![s("zzz")], simple: None, images: None, docker: None };
    assert!(!plan_build(&opts, &available, &None, &config(None)).proceed);

    let opts = BuildOpts {
        recipes: vec![],
        simple: Some(vec![s("rpm")]),
        images: Some(vec![s("x")]),
        docker: Some(s("tcp://127.0.0.1:81")),
    };
    let p = plan_build(&opts, &available, &None, &config(Some("unused")));
    assert!(p.proceed);
    assert_eq!(p.recipes, None);
    assert_eq!(p.simple_targets, vec![s("rpm")]);
    assert_eq!(p.docker_uri, Some(s("tcp://127.0.0.1:81")));

    let opts = BuildOpts { recipes: vec![], simple: None, images: Some(vec![s("x")]), docker: None };
    assert!(!plan_build(&opts, &available, &None, &config(None)).proceed);
}

fn gen_opts() -> GenRecipeOpts {
    GenRecipeOpts {
        name: s("test"),
        version: None,
        description: None,
        license: Some(s("MIT")),
        maintainer: None,
        url: None,
        arch: None,
        source: None,
        git_url: Some(s("https://github.com/vv9k/pkger.git")),
        git_branch: None,
        skip_default_deps: None,
        exclude: None,
        group: None,
        release: None,
        epoch: None,
        build_depends: vec![s("gcc")],
        depends: vec![],
        conflicts: vec![],
        provides: vec![],
        env: Some(s("A=1,B,C=3=4,A=2")),
        priority: None,
        built_using: None,
        essential: None,
        pre_depends: vec![],
        recommended: vec![],
        suggests: vec![],
        breaks: vec![],
        replaces: vec![],
        enhances: vec![],
        obsoletes: vec![],
        vendor: None,
        icon: None,
        summary: None,
        config_noreplace: None,
        install_script: None,
        backup_files: vec![],
        optdepends: vec![],
    }
}

#[test]
fn generated_recipe() {
    let rep = gen_recipe(&gen_opts());
    let m = rep.metadata.as_ref().unwrap();
    assert_eq!(m.name.as_deref(), Some("test"));
    assert_eq!(m.version.as_deref(), Some("1.0.0"));
    assert_eq!(m.description.as_deref(), Some("missing"));
    assert_eq!(m.license.as_deref(), Some("MIT"));
    assert!(matches!(m.depends, Value::Null));
    match &m.build_depends {
        Value::Sequence(items) => assert!(matches!(&items[..], [Value::String(g)] if g == "gcc")),
        _ => panic!("expected a list"),
    }
    let git = GitSource::from_value(&m.git).unwrap();
    assert_eq!(git.url(), "https://github.com/vv9k/pkger.git");
    assert_eq!(git.branch(), "master");
    let env: Vec<(String, String)> = rep
        .env
        .as_ref()
        .unwrap()
        .iter()
        .map(|(k, v)| match (k, v) {
            (Value::String(k), Value::String(v)) => (k.clone(), v.clone()),
            _ => panic!("expected strings"),
        })
        .collect();
    assert_eq!(
        env,
        vec![(s("A"), s("1")), (s("C"), s("3")), (s("A"), s("2"))]
    );
    let recipe = Recipe::new(rep, String::new()).unwrap();
    assert_eq!(recipe.env.kv_vec(), vec![s("A=2"), s("C=3")]);
}

#[test]
fn os_release_lines() {
    let out = "NAME=\"Ubuntu\"\nID=ubuntu\r\nVERSION_ID=\"20.04\"\r\nID_LIKE=debian\n";
    let (id, version) = os_release_fields(out);
    assert_eq!(id, Some(s("ubuntu")));
    assert_eq!(version, Some(s("20.04")));
    assert_eq!(os_release_fields("PRETTY_NAME=x"), (None, None));
}

#[test]
fn options_and_build_section() {
    let opts = Opts {
        docker: None,
        recipes: vec![],
        images: None,
        config: None,
        quiet: false,
        debug: false,
        hide: Some(s("Ls")),
    };
    let f = opts.fmt_filter();
    assert!(f.hide_level && f.hide_spans && !f.hide_date && !f.hide_fields);
    let none = Opts { hide: None, ..opts };
    assert!(!none.fmt_filter().hide_level);
    let build = Build::from_rep(&BuildRep { steps: vec![s("make"), s("make install")] });
    assert_eq!(build.steps.len(), 2);
    assert_eq!(build.steps[1].cmd, "make install");
    assert!(build.steps[0].should_run_on(&BuildTarget::Deb));
}

fn toml_value(v: &toml::Value) -> Value {
    match v {
        toml::Value::String(s) => Value::String(s.clone()),
        toml::Value::Integer(i) => Value::Int(*i as i128),
        toml::Value::Float(_) => Value::Float,
        toml::Value::Boolean(b) => Value::Bool(*b),
        toml::Value::Datetime(_) => Value::Other,
        toml::Value::Array(items) => Value::Sequence(items.iter().map(toml_value).collect()),
        toml::Value::Table(t) => Value::Mapping(
            t.iter()
                .map(|(k, v)| (Value::String(k.clone()), toml_value(v)))
                .collect(),
        ),
    }
}

#[test]
fn toml_metadata() {
    let doc: toml::Value = toml::from_str(
        r#"
[metadata]
name = "pkger"
version = "0.1.0"
description = "A package building tool utilizing Docker"
license = "MIT"
images = [
	{ name = "centos8" , target = "rpm" },
	{ name = "debian10", target = "DEB" },
	"ubuntu20"
]
git = "https://github.com/wojciechkepka/pkger.git"
arch = "x86_64"
build_depends = ["curl", "gcc"]
"#,
    )
    .unwrap();
    let t = doc.get("metadata").unwrap().as_table().unwrap();
    let text = |k: &str| t.get(k).and_then(|v| v.as_str()).map(|x| x.to_string());
    let rep = TomlMetadataRep {
        name: text("name").unwrap(),
        version: text("version").unwrap(),
        description: text("description").unwrap(),
        license: text("license").unwrap(),
        images: t.get("images").unwrap().as_array().unwrap().iter().map(toml_value).collect(),
        maintainer: None,
        arch: text("arch"),
        source: None,
        git: t.get("git").map(toml_value),
        skip_default_deps: None,
        exclude: None,
        build_depends: t.get("build_depends").map(toml_value),
        depends: None,
        conflicts: None,
        provides: None,
        section: None,
        priority: None,
        release: None,
        obsoletes: None,
        summary: None,
    };
    let m = Metadata::try_from(rep).unwrap();
    assert_eq!(m.images.len(), 3);
    assert_eq!(m.images[0].image, "centos8");
    assert_eq!(m.images[0].target, BuildTarget::Rpm);
    assert_eq!(m.images[1].target, BuildTarget::Deb);
    assert_eq!(m.images[2].target, BuildTarget::Gzip);
    assert_eq!(m.git.as_ref().unwrap().branch(), "master");
    assert_eq!(m.deb_arch(), "amd64");
    assert_eq!(m.rpm_arch(), "x86_64");
    let mut deps = m.build_depends.as_ref().unwrap().resolve_names("centos8");
    deps.sort();
    assert_eq!(deps, vec!["curl", "gcc"]);
    assert_eq!(
        ImageTarget::from_value(&Value::Mapping(vec![
            (Value::String(s("name")), Value::String(s("x"))),
            (Value::String(s("target")), Value::String(s("pkg"))),
        ]))
        .err(),
        Some(ParseError::UnknownBuildTarget)
    );
}

fn job_tuple(j: &Job) -> (usize, String, BuildTarget) {
    (j.recipe, j.image.clone(), j.target)
}

#[test]
fn custom_image_jobs_follow_filter_and_existing_images() {
    let recipes = vec![
        vec![
            ImageTarget::new(s("centos"), BuildTarget::Rpm),
            ImageTarget::new(s("debian"), BuildTarget::Deb),
        ],
        vec![
            ImageTarget::new(s("arch"), BuildTarget::Pkg),
            ImageTarget::new(s("missing"), BuildTarget::Gzip),
        ],
    ];
    let existing = Some(vec![s("centos"), s("debian"), s("arch")]);
    let all = custom_image_jobs(&recipes, &vec![], &existing);
    let got: Vec<_> = all.iter().map(job_tuple).collect();
    assert_eq!(
        got,
        vec![
            (0, s("centos"), BuildTarget::Rpm),
            (0, s("debian"), BuildTarget::Deb),
            (1, s("arch"), BuildTarget::Pkg),
        ]
    );
    let filtered = custom_image_jobs(&recipes, &vec![s("debian"), s("missing")], &existing);
    let got: Vec<_> = filtered.iter().map(job_tuple).collect();
    assert_eq!(got, vec![(0, s("debian"), BuildTarget::Deb)]);
    assert!(custom_image_jobs(&recipes, &vec![], &None).is_empty());
}

#[test]
fn simple_jobs_cover_every_recipe_and_target() {
    let images = vec![(s("pkger-rpm"), BuildTarget::Rpm), (s("pkger-deb"), BuildTarget::Deb)];
    let jobs = simple_jobs(2, &images);
    let got: Vec<_> = jobs.iter().map(job_tuple).collect();
    assert_eq!(
        got,
        vec![
            (0, s("pkger-rpm"), BuildTarget::Rpm),
            (0, s("pkger-deb"), BuildTarget::Deb),
            (1, s("pkger-rpm"), BuildTarget::Rpm),
            (1, s("pkger-deb"), BuildTarget::Deb),
        ]
    );
    assert!(simple_jobs(0, &images).is_empty());
}

#[test]
fn images_state_updates_by_recipe_target() {
    let mut st = ImagesState::default();
    assert_eq!(st.state_file, DEFAULT_STATE_FILE);
    let t = RecipeTarget::new(s("pkg"), ImageTarget::new(s("centos"), BuildTarget::Rpm));
    let other = RecipeTarget::new(s("pkg"), ImageTarget::new(s("centos"), BuildTarget::Gzip));
    assert!(st.get(&t).is_none());
    let first = ImageState {
        id: s("abc"),
        image: s("centos"),
        tag: s("pkger-centos-1"),
        os: Os::from(Some(s("centos")), Some(s("8"))),
        timestamp: 1,
        deps: vec![s("gcc")],
        simple: false,
    };
    st.update(&t, &first);
    assert_eq!(st.get(&t).unwrap().id, "abc");
    assert!(st.get(&other).is_none());
    let mut second = first.clone();
    second.id = s("def");
    second.timestamp = 2;
    st.update(&t, &second);
    let got = st.get(&t).unwrap();
    assert_eq!(got.id, "def");
    assert_eq!(got.timestamp, 2);
    assert_eq!(got.deps, vec![s("gcc")]);
    st.update(&other, &first);
    assert_eq!(st.get(&other).unwrap().id, "abc");
    assert_eq!(st.get(&t).unwrap().id, "def");
}
