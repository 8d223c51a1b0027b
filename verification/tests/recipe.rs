use pkger::recipe::metadata::{Dependencies, MetadataRep, Patch, Patches};
use pkger::recipe::{BuildTarget, Command, Env, Recipe, RecipeError, RecipeRep, ScriptRep};
use pkger::value::{ParseError, Value};
use pkger::recipe::{ImageTarget, Os};

fn to_value(v: &serde_yaml::Value) -> Value {
    match v {
        serde_yaml::Value::Null => Value::Null,
        serde_yaml::Value::Bool(b) => Value::Bool(*b),
        serde_yaml::Value::Number(n) => match n.as_i64() {
            Some(i) => Value::Int(i as i128),
            None => match n.as_u64() {
                Some(u) => Value::Int(u as i128),
                None => Value::Float,
            },
        },
        serde_yaml::Value::String(s) => Value::String(s.clone()),
        serde_yaml::Value::Sequence(items) => Value::Sequence(items.iter().map(to_value).collect()),
        serde_yaml::Value::Mapping(m) => {
            Value::Mapping(m.iter().map(|(k, v)| (to_value(k), to_value(v))).collect())
        }
        serde_yaml::Value::Tagged(_) => Value::Other,
    }
}

fn section(yaml: &str, key: &str) -> Value {
    let input: serde_yaml::Value = serde_yaml::from_str(yaml).unwrap();
    let input = input
        .as_mapping()
        .unwrap()
        .get(&serde_yaml::Value::String(key.to_string()))
        .unwrap()
        .clone();
    to_value(&input)
}

fn sorted(mut v: Vec<&str>) -> Vec<&str> {
    v.sort();
    v
}

fn check_deps(got: &Dependencies, image: &str, want: &[&str]) {
    let mut want = want.to_vec();
    want.sort();
    assert_eq!(sorted(got.resolve_names(image)), want);
}

fn toml_to_value(v: &toml::Value) -> Value {
    match v {
        toml::Value::String(s) => Value::String(s.clone()),
        toml::Value::Integer(i) => Value::Int(*i as i128),
        toml::Value::Float(_) => Value::Float,
        toml::Value::Boolean(b) => Value::Bool(*b),
        toml::Value::Datetime(_) => Value::Other,
        toml::Value::Array(items) => Value::Sequence(items.iter().map(toml_to_value).collect()),
        toml::Value::Table(t) => Value::Mapping(
            t.iter()
                .map(|(k, v)| (Value::String(k.clone()), toml_to_value(v)))
                .collect(),
        ),
    }
}

fn empty_metadata() -> MetadataRep {
    MetadataRep {
        name: None,
        version: None,
        description: None,
        license: None,
        all_images: false,
        images: vec![],
        maintainer: None,
        url: None,
        arch: None,
        source: None,
        git: Value::Null,
        skip_default_deps: None,
        exclude: None,
        group: None,
        release: None,
        epoch: None,
        build_depends: Value::Null,
        depends: Value::Null,
        conflicts: Value::Null,
        provides: Value::Null,
        patches: Value::Null,
        deb: None,
        rpm: None,
        pkg: None,
        apk: None,
    }
}

fn empty_build() -> ScriptRep {
    ScriptRep { steps: vec![], working_dir: None, shell: None }
}

#[test]
fn should_run_on_works() {
    let mut cmd = Command::from("echo 123");
    assert!(cmd.should_run_on_target(&BuildTarget::Deb));
    assert!(cmd.should_run_on_target(&BuildTarget::Rpm));
    assert!(cmd.should_run_on_target(&BuildTarget::Pkg));
    assert!(cmd.should_run_on_target(&BuildTarget::Gzip));
    assert!(cmd.should_run_on_target(&BuildTarget::Apk));
    cmd.rpm = Some(true);
    assert!(cmd.should_run_on_target(&BuildTarget::Rpm));
    assert!(!cmd.should_run_on_target(&BuildTarget::Gzip));
    assert!(!cmd.should_run_on_target(&BuildTarget::Pkg));
    assert!(!cmd.should_run_on_target(&BuildTarget::Deb));
    assert!(!cmd.should_run_on_target(&BuildTarget::Apk));
    cmd.deb = Some(true);
    cmd.pkg = Some(true);
    cmd.gzip = Some(true);
    cmd.apk = Some(true);
    assert!(cmd.should_run_on_target(&BuildTarget::Rpm));
    assert!(cmd.should_run_on_target(&BuildTarget::Gzip));
    assert!(cmd.should_run_on_target(&BuildTarget::Pkg));
    assert!(cmd.should_run_on_target(&BuildTarget::Deb));
    assert!(cmd.should_run_on_target(&BuildTarget::Apk));
}

#[test]
fn apk_only_step_runs_on_apk_alone() {
    let mut cmd = Command::from("echo 321");
    cmd.apk = Some(true);
    assert!(cmd.has_target_specified());
    assert!(cmd.should_run_on_target(&BuildTarget::Apk));
    assert!(!cmd.should_run_on_target(&BuildTarget::Rpm));
    assert!(!cmd.should_run_on_target(&BuildTarget::Deb));
    assert!(!cmd.should_run_on_target(&BuildTarget::Pkg));
    assert!(!cmd.should_run_on_target(&BuildTarget::Gzip));
}

#[test]
fn deps_parses_deps() {
    let input = section(
        r#"
build_depends:
  all: ["gcc", "pkg-config", "git"]
  centos8: ["cargo", "openssl-devel"]
  debian10: ["curl", "libssl-dev"]
"#,
        "build_depends",
    );
    let got = Dependencies::from_value(&input).unwrap();
    check_deps(&got, "all", &["gcc", "pkg-config", "git"]);
    check_deps(&got, "centos8", &["cargo", "openssl-devel", "gcc", "pkg-config", "git"]);
    check_deps(&got, "debian10", &["curl", "libssl-dev", "gcc", "pkg-config", "git"]);

    let input = section(
        r#"
build_depends:
  - gcc
  - pkg-config
  - git
"#,
        "build_depends",
    );
    let got = Dependencies::from_value(&input).unwrap();
    check_deps(&got, "all", &["gcc", "pkg-config", "git"]);

    let input: toml::Value = toml::from_str(
        r#"
[build_depends]
all = ["gcc", "pkg-config", "git"]
centos8 = ["cargo", "openssl-devel"]
debian10 = ["curl", "libssl-dev"]
"#,
    )
    .unwrap();
    let input = toml_to_value(input.as_table().unwrap().get("build_depends").unwrap());
    let got = pkger::cli::deps::Dependencies::from_value(&input).unwrap();
    let mut all = got.resolve_names("all");
    all.sort();
    assert_eq!(all, vec!["gcc", "git", "pkg-config"]);
    let mut centos8 = got.resolve_names("centos8");
    centos8.sort();
    assert_eq!(centos8, vec!["cargo", "gcc", "git", "openssl-devel", "pkg-config"]);
    let mut debian10 = got.resolve_names("debian10");
    debian10.sort();
    assert_eq!(debian10, vec!["curl", "gcc", "git", "libssl-dev", "pkg-config"]);
}

#[test]
fn parses_joined_deps() {
    let input = section(
        r#"
build_depends:
  centos8+fedora34: [ cargo,  openssl-devel ]
  debian10+ubuntu20: [ libssl-dev ]
  debian10: [ curl ]
"#,
        "build_depends",
    );
    let got = Dependencies::from_value(&input).unwrap();
    check_deps(&got, "centos8", &["cargo", "openssl-devel"]);
    check_deps(&got, "fedora34", &["cargo", "openssl-devel"]);
    check_deps(&got, "debian10", &["curl", "libssl-dev"]);
    check_deps(&got, "ubuntu20", &["libssl-dev"]);
}

#[test]
fn parses_patches() {
    let input = section(
        r#"
patches:
  all: ["test.patch", "1.patch", "http://remote.com/file.patch"]
  centos8:
    - patch: only-cent.patch
      strip: 1
  debian10:
    - patch: only-deb.patch
      strip: 2
"#,
        "patches",
    );
    let got = Patches::from_value(&input).unwrap();
    let cases: Vec<(&str, Vec<(&str, u8)>)> = vec![
        (
            "all",
            vec![("test.patch", 0), ("1.patch", 0), ("http://remote.com/file.patch", 0)],
        ),
        (
            "centos8",
            vec![
                ("test.patch", 0),
                ("1.patch", 0),
                ("http://remote.com/file.patch", 0),
                ("only-cent.patch", 1),
            ],
        ),
        (
            "debian10",
            vec![
                ("test.patch", 0),
                ("1.patch", 0),
                ("http://remote.com/file.patch", 0),
                ("only-deb.patch", 2),
            ],
        ),
    ];
    for (image, want) in cases {
        let mut names = got.resolve_names(image);
        let mut want: Vec<Patch> = want
            .into_iter()
            .map(|(p, l)| Patch::new(p.to_string(), l, None))
            .collect();
        names.sort();
        want.sort();
        assert_eq!(want.len(), names.len());
        for (got, want) in names.iter().zip(want.iter()) {
            assert_eq!(*got, want);
        }
    }
}

#[test]
fn invalid_recipes() {
    let rep = RecipeRep {
        from: Some("base".to_string()),
        metadata: None,
        env: None,
        configure: None,
        build: Some(empty_build()),
        install: None,
    };
    let res = Recipe::new(rep, String::new());
    assert!(res.is_err());

    let mut metadata = empty_metadata();
    metadata.version = Some("1.2.3".to_string());
    let rep = RecipeRep {
        from: Some("base".to_string()),
        metadata: Some(metadata),
        env: None,
        configure: None,
        build: Some(empty_build()),
        install: None,
    };
    let res = Recipe::new(rep, String::new());
    assert!(res.is_err());
}

fn base_metadata() -> MetadataRep {
    let mut m = empty_metadata();
    m.name = Some("pkger_test".to_string());
    m.version = Some("0.1.0".to_string());
    m.description = Some("a test package".to_string());
    m.license = Some("MIT".to_string());
    m
}

#[test]
fn base_recipe_needs_description_and_license() {
    let mut m = base_metadata();
    m.description = None;
    let rep = RecipeRep {
        from: None,
        metadata: Some(m),
        env: None,
        configure: None,
        build: Some(empty_build()),
        install: None,
    };
    assert_eq!(Recipe::check_sections(&rep), Err(RecipeError::NoDescription));
    assert_eq!(Recipe::new(rep, String::new()).err(), Some(RecipeError::NoDescription));

    let mut m = base_metadata();
    m.license = None;
    let rep = RecipeRep {
        from: None,
        metadata: Some(m),
        env: None,
        configure: None,
        build: Some(empty_build()),
        install: None,
    };
    assert_eq!(Recipe::check_sections(&rep), Err(RecipeError::NoLicense));

    let rep = RecipeRep {
        from: None,
        metadata: Some(base_metadata()),
        env: None,
        configure: None,
        build: None,
        install: None,
    };
    assert_eq!(Recipe::check_sections(&rep), Err(RecipeError::InvalidSections));
}

#[test]
fn child_recipe_without_build_is_missing_build() {
    let rep = RecipeRep {
        from: Some("base".to_string()),
        metadata: Some(base_metadata()),
        env: None,
        configure: None,
        build: None,
        install: None,
    };
    assert_eq!(Recipe::check_sections(&rep), Ok(true));
    assert_eq!(Recipe::new(rep, String::new()).err(), Some(RecipeError::MissingBuild));
}

#[test]
fn reads_a_base_recipe() {
    let mut m = base_metadata();
    m.arch = Some("AMD64".to_string());
    m.release = Some("3".to_string());
    m.git = Value::String("https://github.com/vv9k/pkger.git".to_string());
    let env = vec![
        (Value::String("A".to_string()), Value::String("1".to_string())),
        (Value::String("B".to_string()), Value::Int(2)),
    ];
    let rep = RecipeRep {
        from: None,
        metadata: Some(m),
        env: Some(env),
        configure: None,
        build: Some(ScriptRep {
            steps: vec![Command::from("make"), Command::from("make install")],
            working_dir: Some("/src".to_string()),
            shell: None,
        }),
        install: None,
    };
    let recipe = Recipe::new(rep, "/recipes/test".to_string()).unwrap();
    assert_eq!(recipe.metadata.name, "pkger_test");
    assert_eq!(recipe.metadata.arch.deb_name(), "amd64");
    assert_eq!(recipe.metadata.release(), "3");
    let git = recipe.metadata.git.as_ref().unwrap();
    assert_eq!(git.url(), "https://github.com/vv9k/pkger.git");
    assert_eq!(git.branch(), "master");
    assert_eq!(recipe.build_script.steps_as_script(), "make\nmake install\n");
    assert_eq!(recipe.env.clone().kv_vec(), vec!["A=1".to_string()]);
    assert_eq!(recipe.recipe_dir, "/recipes/test");
    assert!(recipe.metadata.depends.is_none());
}

#[test]
fn release_defaults_to_zero() {
    let rep = RecipeRep {
        from: None,
        metadata: Some(base_metadata()),
        env: None,
        configure: None,
        build: Some(empty_build()),
        install: None,
    };
    let recipe = Recipe::new(rep, String::new()).unwrap();
    assert_eq!(recipe.metadata.release(), "0");
}

#[test]
fn env_insert_remove_and_lines() {
    let mut env = Env::new();
    assert!(env.is_empty());
    assert_eq!(env.insert("PATH".to_string(), "/bin".to_string()), None);
    assert_eq!(env.insert("HOME".to_string(), "/root".to_string()), None);
    assert_eq!(
        env.insert("PATH".to_string(), "/usr/bin".to_string()),
        Some("/bin".to_string())
    );
    assert!(!env.is_empty());
    assert_eq!(
        env.clone().kv_vec(),
        vec!["PATH=/usr/bin".to_string(), "HOME=/root".to_string()]
    );
    assert_eq!(env.remove("HOME"), Some("/root".to_string()));
    assert_eq!(env.remove("HOME"), None);
    assert_eq!(env.to_kv_vec(), vec!["PATH=/usr/bin".to_string()]);
}

#[test]
fn env_from_toml_strips_quotes() {
    let env = Env::from_toml(Some(vec![
        ("NAME".to_string(), "\"pkger\"".to_string()),
        ("COUNT".to_string(), "3".to_string()),
    ]));
    assert_eq!(
        env.kv_vec(),
        vec!["NAME=pkger".to_string(), "COUNT=3".to_string()]
    );
}

#[test]
fn dependency_errors() {
    assert_eq!(
        Dependencies::from_value(&Value::Int(1)).err(),
        Some(ParseError::NotMappingOrSequence)
    );
    assert_eq!(
        Dependencies::from_value(&Value::Sequence(vec![Value::Int(1)])).err(),
        Some(ParseError::DependencyNotString)
    );
    let table = Value::Mapping(vec![(Value::String("all".to_string()), Value::Bool(true))]);
    assert_eq!(
        Dependencies::from_value(&table).err(),
        Some(ParseError::DependenciesNotSequence)
    );
    let table = Value::Mapping(vec![(Value::Int(3), Value::Sequence(vec![]))]);
    assert_eq!(
        Dependencies::from_value(&table).err(),
        Some(ParseError::ImageNameNotString)
    );
}

#[test]
fn depends_on_and_update() {
    let input = section("d:\n  all: [gcc]\n  centos8: [cargo]\n", "d");
    let mut deps = Dependencies::from_value(&input).unwrap();
    assert!(deps.depends_on("centos8", "gcc"));
    assert!(deps.depends_on("centos8", "cargo"));
    assert!(!deps.depends_on("debian10", "cargo"));
    deps.update_or_insert("debian10".to_string(), &vec!["curl".to_string()]);
    assert!(deps.depends_on("debian10", "curl"));
    assert!(deps.depends_on("debian10", "gcc"));
}

#[test]
fn common_key_is_always_present() {
    let mut deps = Dependencies::default();
    assert!(deps.inner().contains_key("all"));
    assert_eq!(deps.inner().len(), 1);
    deps.update_or_insert("centos8".to_string(), &vec!["gcc".to_string()]);
    assert!(deps.inner().contains_key("all"));
    let input = section("d:\n  centos8+debian10: [cargo]\n", "d");
    let mut read = Dependencies::from_value(&input).unwrap();
    assert!(read.inner().contains_key("all"));
    read.update_or_insert("arch".to_string(), &vec![]);
    assert!(read.inner().contains_key("all"));
}

#[test]
fn patch_errors() {
    let bad_strip = Value::Sequence(vec![Value::Mapping(vec![
        (Value::String("patch".to_string()), Value::String("a.patch".to_string())),
        (Value::String("strip".to_string()), Value::Int(300)),
    ])]);
    assert_eq!(
        Patches::from_value(&bad_strip).err(),
        Some(ParseError::InvalidStripLevel)
    );
    let no_name = Value::Sequence(vec![Value::Mapping(vec![])]);
    assert_eq!(Patches::from_value(&no_name).err(), Some(ParseError::PatchNameMissing));
    assert_eq!(
        Patches::from_value(&Value::Sequence(vec![Value::Int(1)])).err(),
        Some(ParseError::PatchNotStringOrMapping)
    );
}

#[test]
fn unknown_distribution_is_an_error() {
    let os = Os::new("Rocky Linux", Some("9".to_string())).unwrap();
    assert_eq!(os.name(), "rocky");
    assert_eq!(os.version(), "9");
    assert!(!os.is_unknown());
    assert_eq!(Os::new("windows", None).err(), Some(ParseError::UnknownOs));
    assert_eq!(
        ImageTarget::new("img".to_string(), BuildTarget::Rpm, Some("gentoo")).err(),
        Some(ParseError::UnknownOs)
    );
    let t = ImageTarget::new("img".to_string(), BuildTarget::Rpm, Some("Debian")).unwrap();
    assert_eq!(t.os.unwrap().name(), "debian");
    let entry = section(
        r#"
image:
  name: centos8
  os: plan9
"#,
        "image",
    );
    assert_eq!(ImageTarget::from_value(&entry).err(), Some(ParseError::UnknownOs));
}
