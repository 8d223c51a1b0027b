//! The directories, name and environment of the container a build runs in.

use crate::build::layout::{cat2, cat5};
use crate::cli::os::{spec_os_name, spec_os_ver, Os};
use crate::recipe::envs::{Env, EnvMap};
use crate::recipe::package::{decimal, decimal_string};
use crate::runtime::container::CreateOpts;
use vstd::prelude::*;

verus! {

/// Where a build keeps its files in the container, and the name of the container.
#[derive(Clone, Debug)]
pub struct BuildDirs {
    /// `pkger-{recipe}-{image}-{timestamp}`
    pub id: String,
    /// `/tmp/{recipe}-build-{timestamp}`
    pub bld_dir: String,
    /// `/tmp/{recipe}-out-{timestamp}`
    pub out_dir: String,
    /// `/tmp/{recipe}-tmp-{timestamp}`
    pub tmp_dir: String,
}

/// `d` names the build of `recipe` on `image` started at `timestamp` (seconds since the epoch).
pub open spec fn build_dirs_of(d: BuildDirs, recipe: Seq<char>, image: Seq<char>, timestamp: u64) -> bool {
    let ts = decimal(timestamp as nat);
    &&& d.id@ == "pkger-"@ + recipe + "-"@ + image + "-"@ + ts
    &&& d.bld_dir@ == "/tmp/"@ + recipe + "-build-"@ + ts
    &&& d.out_dir@ == "/tmp/"@ + recipe + "-out-"@ + ts
    &&& d.tmp_dir@ == "/tmp/"@ + recipe + "-tmp-"@ + ts
}

impl BuildDirs {
    pub fn new(recipe: &str, image: &str, timestamp: u64) -> (d: Self)
        ensures
            build_dirs_of(d, recipe@, image@, timestamp),
    {
        let ts = decimal_string(timestamp);
        let head = cat5("pkger-", recipe, "-", image, "-");
        let id = cat2(head.as_str(), ts.as_str());
        let bld_dir = cat5("/tmp/", recipe, "-build-", ts.as_str(), "");
        let out_dir = cat5("/tmp/", recipe, "-out-", ts.as_str(), "");
        let tmp_dir = cat5("/tmp/", recipe, "-tmp-", ts.as_str(), "");
        proof {
            reveal_strlit("");
            assert(bld_dir@ =~= "/tmp/"@ + recipe@ + "-build-"@ + ts@);
            assert(out_dir@ =~= "/tmp/"@ + recipe@ + "-out-"@ + ts@);
            assert(tmp_dir@ =~= "/tmp/"@ + recipe@ + "-tmp-"@ + ts@);
        }
        BuildDirs { id, bld_dir, out_dir, tmp_dir }
    }
}

/// The variables a build sets in its container: those of the recipe, and `PKGER_BLD_DIR`,
/// `PKGER_OUT_DIR`, `PKGER_OS` and `PKGER_OS_VERSION`.
pub open spec fn container_env_of(recipe_env: EnvMap, dirs: BuildDirs, os: Os) -> EnvMap {
    recipe_env.insert("PKGER_BLD_DIR"@, dirs.bld_dir@).insert("PKGER_OUT_DIR"@, dirs.out_dir@).insert(
        "PKGER_OS"@,
        spec_os_name(os),
    ).insert("PKGER_OS_VERSION"@, spec_os_ver(os))
}

/// The variables of the build container.
pub fn container_env(recipe_env: &Env, dirs: &BuildDirs, os: &Os) -> (e: Env)
    requires
        recipe_env.wf(),
    ensures
        e.wf(),
        e@ == container_env_of(recipe_env@, *dirs, *os),
{
    let mut env = recipe_env.clone_env();
    env.insert("PKGER_BLD_DIR".to_owned(), dirs.bld_dir.clone());
    env.insert("PKGER_OUT_DIR".to_owned(), dirs.out_dir.clone());
    env.insert("PKGER_OS".to_owned(), os.as_ref().to_owned());
    env.insert("PKGER_OS_VERSION".to_owned(), os.os_ver().to_owned());
    env
}

/// The options of the build container: made from `image_id`, named after the build, kept
/// running by `sleep infinity` under `/bin/sh -c`, with `env`, in the build directory.
pub fn container_opts(image_id: &str, dirs: &BuildDirs, env: Env) -> (o: CreateOpts)
    ensures
        o.image@ == image_id@,
        o.name == Some(dirs.id),
        o.cmd matches Some(c) && c@.len() == 1 && c@[0]@ == "sleep infinity"@,
        o.entrypoint matches Some(e) && e@.len() == 2 && e@[0]@ == "/bin/sh"@ && e@[1]@ == "-c"@,
        o.env == Some(env),
        o.working_dir == Some(dirs.bld_dir),
        o.labels is None,
        o.volumes is None,
{
    CreateOpts::new(image_id.to_owned())
        .name(dirs.id.clone())
        .cmd(vec!["sleep infinity".to_owned()])
        .entrypoint(vec!["/bin/sh".to_owned(), "-c".to_owned()])
        .env(env)
        .working_dir(dirs.bld_dir.clone())
}

} // verus!
