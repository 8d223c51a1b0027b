//! The commands a build runs in its container besides the scripts of the recipe, how it reads
//! their outcome, and the order of the stages of a build.

use crate::build::layout::{cat2, cat3, exec_step_is, path_join, join_path, step, ExecStep};
use crate::cli::os::{spec_install_args, spec_os_name, spec_os_ver, spec_pm_name, Os, PackageManager};
use crate::recipe::metadata::os::str_views;
use crate::recipe::metadata::Metadata;
use crate::recipe::package::{decimal, decimal_string};
use crate::runtime::container::{join, joined, Output};
use crate::text::{append_str, chars_of, starts_with, starts_with_exec, string_views, trim, trim_ws};
use vstd::prelude::*;

verus! {

/// Each directory after a space.
pub open spec fn space_prefixed(dirs: Seq<Seq<char>>) -> Seq<char>
    decreases dirs.len(),
{
    if dirs.len() == 0 {
        Seq::empty()
    } else {
        space_prefixed(dirs.drop_last()) + seq![' '] + dirs.last()
    }
}

/// The command that creates the directories.
pub open spec fn spec_mkdir_command(dirs: Seq<Seq<char>>) -> Seq<char> {
    "mkdir -pv "@ + trim_ws(space_prefixed(dirs))
}

/// The command that creates the directories.
pub fn mkdir_command(dirs: &Vec<String>) -> (r: String)
    ensures
        r@ == spec_mkdir_command(string_views(dirs@)),
{
    let mut all = String::new();
    let mut i: usize = 0;
    assert(string_views(dirs@.take(0)) =~= Seq::<Seq<char>>::empty());
    while i < dirs.len()
        invariant
            i <= dirs@.len(),
            all@ == space_prefixed(string_views(dirs@.take(i as int))),
        decreases dirs@.len() - i,
    {
        assert(string_views(dirs@.take(i + 1)).drop_last() =~= string_views(dirs@.take(i as int)));
        crate::text::push_char(&mut all, ' ');
        append_str(&mut all, dirs[i].as_str());
        i += 1;
    }
    assert(dirs@.take(i as int) =~= dirs@);
    let trimmed = trim(all.as_str());
    cat2("mkdir -pv ", trimmed.as_str())
}

/// The error of a command that exited with another code than 0: the command, its exit code
/// and what it printed on standard error.
pub open spec fn exec_error(cmd: Seq<char>, code: u64, stderr: Seq<Seq<char>>) -> Seq<char> {
    "command `"@ + cmd + "` failed with exit code "@ + decimal(code as nat) + "\nError:\n"@
        + joined(stderr, "\n"@)
}

/// The output of a command when it exited with 0, an error describing it otherwise.
pub fn checked_output(cmd: &str, out: Output<String>) -> (r: Result<Output<String>, String>)
    ensures
        out.exit_code == 0 ==> r == Ok::<Output<String>, String>(out),
        out.exit_code != 0 ==> (r matches Err(e) && e@ == exec_error(
            cmd@,
            out.exit_code,
            string_views(out.stderr@),
        )),
{
    if out.exit_code != 0 {
        let mut e = cat3("command `", cmd, "` failed with exit code ");
        let code = decimal_string(out.exit_code);
        append_str(&mut e, code.as_str());
        append_str(&mut e, "\nError:\n");
        let err = join(&out.stderr, "\n");
        append_str(&mut e, err.as_str());
        Err(e)
    } else {
        Ok(out)
    }
}

/// The paths to leave out of the package that are relative; absolute ones are not allowed.
pub open spec fn relative_paths(paths: Seq<Seq<char>>) -> Seq<Seq<char>>
    decreases paths.len(),
{
    if paths.len() == 0 {
        Seq::empty()
    } else {
        let pre = relative_paths(paths.drop_last());
        let p = paths.last();
        if p.len() > 0 && p[0] == '/' {
            pre
        } else {
            pre.push(p)
        }
    }
}

/// The command that removes the excluded paths from the output directory, when the recipe
/// excludes any.
pub fn exclude_step(exclude: &Option<Vec<String>>, out_dir: &str) -> (r: Option<ExecStep>)
    ensures
        match exclude {
            None => r is None,
            Some(v) => r matches Some(e) && exec_step_is(
                e,
                "rm -rvf "@ + joined(relative_paths(string_views(v@)), " "@),
                Some(out_dir@),
                None,
            ),
        },
{
    match exclude {
        None => None,
        Some(paths) => {
            let mut kept: Vec<String> = Vec::new();
            let mut i: usize = 0;
            assert(string_views(paths@.take(0)) =~= Seq::<Seq<char>>::empty());
            assert(string_views(kept@) =~= Seq::<Seq<char>>::empty());
            while i < paths.len()
                invariant
                    i <= paths@.len(),
                    string_views(kept@) == relative_paths(string_views(paths@.take(i as int))),
                decreases paths@.len() - i,
            {
                assert(string_views(paths@.take(i + 1)).drop_last() =~= string_views(
                    paths@.take(i as int),
                ));
                let cs = chars_of(paths[i].as_str());
                if !(cs.len() > 0 && cs[0] == '/') {
                    let ghost before = kept@;
                    kept.push(paths[i].clone());
                    assert(string_views(kept@) =~= string_views(before).push(paths@[i as int]@));
                }
                i += 1;
            }
            assert(paths@.take(i as int) =~= paths@);
            let list = join(&kept, " ");
            Some(step(cat2("rm -rvf ", list.as_str()), Some(out_dir.to_owned()), None))
        },
    }
}

/// Where the packages built on a system are saved: `os/version` under the output directory.
pub open spec fn spec_package_out_dir(output_dir: Seq<char>, os: Os) -> Seq<char> {
    path_join(output_dir, spec_os_name(os) + "/"@ + spec_os_ver(os))
}

/// Where the packages built on `os` are saved.
pub fn package_out_dir(output_dir: &str, os: &Os) -> (r: String)
    ensures
        r@ == spec_package_out_dir(output_dir@, *os),
{
    let sub = cat3(os.as_ref(), "/", os.os_ver());
    join_path(output_dir, sub.as_str())
}

/// The command that installs the build dependencies with the package manager, when there are
/// any.
pub open spec fn spec_install_command(pm: PackageManager, deps: Seq<Seq<char>>) -> Option<Seq<char>> {
    if deps.len() == 0 {
        None
    } else {
        Some(spec_pm_name(pm) + " "@ + joined(spec_install_args(pm), " "@) + " "@ + joined(deps, " "@))
    }
}

/// `c` installs `deps` without asking for confirmation: `apt-get install -y`, `dnf install -y`
/// and `yum install -y` followed by the dependencies separated by blanks; pacman is asked with
/// `-S`.
pub open spec fn unprompted_install(pm: PackageManager, deps: Seq<Seq<char>>, c: Seq<char>) -> bool {
    &&& pm is Apt ==> c == "apt-get install -y "@ + joined(deps, " "@)
    &&& pm is Dnf ==> c == "dnf install -y "@ + joined(deps, " "@)
    &&& pm is Yum ==> c == "yum install -y "@ + joined(deps, " "@)
    &&& pm is Pacman ==> c == "pacman -S "@ + joined(deps, " "@)
}

/// The install arguments of apt, dnf and yum, joined by blanks.
pub proof fn lemma_install_args_text(pm: PackageManager)
    ensures
        pm is Apt || pm is Dnf || pm is Yum ==> joined(spec_install_args(pm), " "@) == "install -y"@,
        pm is Pacman ==> joined(spec_install_args(pm), " "@) == "-S"@,
{
    reveal_strlit("install");
    reveal_strlit("-y");
    reveal_strlit(" ");
    reveal_strlit("install -y");
    if pm is Apt || pm is Dnf || pm is Yum {
        let a = seq!["install"@, "-y"@];
        assert(a.drop_last() =~= seq!["install"@]);
        assert(joined(a.drop_last(), " "@) == "install"@);
        assert(joined(a, " "@) == "install"@ + " "@ + "-y"@);
        assert("install"@ + " "@ + "-y"@ =~= "install -y"@);
    }
}

/// The package manager's install line for `deps` never waits for a confirmation.
pub proof fn lemma_install_line(pm: PackageManager, deps: Seq<Seq<char>>)
    ensures
        unprompted_install(
            pm,
            deps,
            spec_pm_name(pm) + " "@ + joined(spec_install_args(pm), " "@) + " "@ + joined(deps, " "@),
        ),
{
    lemma_install_args_text(pm);
    reveal_strlit(" ");
    reveal_strlit("apt-get");
    reveal_strlit("dnf");
    reveal_strlit("yum");
    reveal_strlit("pacman");
    reveal_strlit("install -y");
    reveal_strlit("-S");
    reveal_strlit("apt-get install -y ");
    reveal_strlit("dnf install -y ");
    reveal_strlit("yum install -y ");
    reveal_strlit("pacman -S ");
    let j = joined(deps, " "@);
    assert("apt-get"@ + " "@ + "install -y"@ + " "@ + j =~= "apt-get install -y "@ + j);
    assert("dnf"@ + " "@ + "install -y"@ + " "@ + j =~= "dnf install -y "@ + j);
    assert("yum"@ + " "@ + "install -y"@ + " "@ + j =~= "yum install -y "@ + j);
    assert("pacman"@ + " "@ + "-S"@ + " "@ + j =~= "pacman -S "@ + j);
}

/// Installing dependencies never waits for a confirmation: apt, dnf and yum are run with
/// `install -y` and pacman with `-S`, followed by the dependencies.
pub proof fn lemma_install_command_never_prompts(pm: PackageManager, deps: Seq<Seq<char>>)
    requires
        deps.len() > 0,
    ensures
        spec_install_command(pm, deps) matches Some(c) && unprompted_install(pm, deps, c),
{
    lemma_install_line(pm, deps);
}

/// The command that installs `deps`, when there are any.
pub fn install_command(pm: &PackageManager, deps: &Vec<&str>) -> (r: Option<String>)
    ensures
        match spec_install_command(*pm, str_views(deps@)) {
            Some(c) => r matches Some(x) && x@ == c,
            None => r is None,
        },
        deps@.len() > 0 ==> (r matches Some(x) && unprompted_install(*pm, str_views(deps@), x@)),
{
    if deps.len() == 0 {
        return None;
    }
    proof {
        lemma_install_command_never_prompts(*pm, str_views(deps@));
    }
    let owned = crate::recipe::package::to_strings(deps);
    let args = crate::recipe::package::to_strings(&pm.install_args());
    let mut c = cat2(pm.as_ref(), " ");
    let joined_args = join(&args, " ");
    append_str(&mut c, joined_args.as_str());
    append_str(&mut c, " ");
    let joined_deps = join(&owned, " ");
    append_str(&mut c, joined_deps.as_str());
    Some(c)
}

/// A step of fetching the source of a recipe.
#[derive(Clone, Debug)]
pub enum FetchStep {
    /// A command run in the container, in the given shell if any.
    Exec(ExecStep, Option<String>),
    /// A file of the host copied into the given directory of the container.
    Upload(String, String),
}

/// The script that unpacks every archive found in the temporary directory into `bld_dir`,
/// and copies every other file there.
pub open spec fn unpack_script(bld_dir: Seq<char>) -> Seq<char> {
    "\n                        for file in *;\n                        do\n                            if [[ \\$file == *.tar* ]]\n                            then\n                                tar xvf \\$file -C "@
        + bld_dir
        + "\n                            elif [[ \\$file == *.zip ]]\n                            then\n                                unzip -v \\$file -d "@
        + bld_dir + "\n                            else\n                                cp -v \\$file "@ + bld_dir
        + "\n                            fi\n                        done"@
}

/// The unpacking script for `bld_dir`.
fn unpack_script_exec(bld_dir: &str) -> (r: String)
    ensures
        r@ == unpack_script(bld_dir@),
{
    let mut s = String::new();
    append_str(&mut s, "\n                        for file in *;\n                        do\n                            if [[ \\$file == *.tar* ]]\n                            then\n                                tar xvf \\$file -C ");
    append_str(&mut s, bld_dir);
    append_str(&mut s, "\n                            elif [[ \\$file == *.zip ]]\n                            then\n                                unzip -v \\$file -d ");
    append_str(&mut s, bld_dir);
    append_str(&mut s, "\n                            else\n                                cp -v \\$file ");
    append_str(&mut s, bld_dir);
    append_str(&mut s, "\n                            fi\n                        done");
    s
}

/// `r` fetches the source of the recipe: a git repository is cloned into the build directory;
/// otherwise a source is downloaded (an http URL) or copied (a local path) into the temporary
/// directory and unpacked from there into the build directory; without a source nothing runs.
pub open spec fn fetch_plan_of(r: Seq<FetchStep>, m: Metadata, bld_dir: Seq<char>, tmp_dir: Seq<char>) -> bool {
    match m.git {
        Some(g) => {
            &&& r.len() == 1
            &&& r[0] matches FetchStep::Exec(e, None) && exec_step_is(
                e,
                "git clone --single-branch --branch "@ + g@.branch + " --recurse-submodules -- "@
                    + g@.url + " "@ + bld_dir,
                None,
                None,
            )
        },
        None => match m.source {
            None => r.len() == 0,
            Some(src) => {
                &&& r.len() == 2
                &&& if starts_with(src@, "http"@) {
                    r[0] matches FetchStep::Exec(e, None) && exec_step_is(
                        e,
                        "curl -LO "@ + src@,
                        Some(tmp_dir),
                        None,
                    )
                } else {
                    r[0] matches FetchStep::Upload(f, d) && f == src && d@ == tmp_dir
                }
                &&& r[1] matches FetchStep::Exec(e, Some(sh)) && sh@ == "/bin/bash"@ && exec_step_is(
                    e,
                    unpack_script(bld_dir),
                    Some(tmp_dir),
                    None,
                )
            },
        },
    }
}

/// How the source of the recipe is fetched.
pub fn fetch_plan(m: &Metadata, bld_dir: &str, tmp_dir: &str) -> (r: Vec<FetchStep>)
    ensures
        fetch_plan_of(r@, *m, bld_dir@, tmp_dir@),
{
    let mut steps: Vec<FetchStep> = Vec::new();
    match &m.git {
        Some(g) => {
            let mut c = cat3("git clone --single-branch --branch ", g.branch(), " --recurse-submodules -- ");
            append_str(&mut c, g.url());
            append_str(&mut c, " ");
            append_str(&mut c, bld_dir);
            steps.push(FetchStep::Exec(step(c, None, None), None));
        },
        None => match &m.source {
            None => {},
            Some(src) => {
                let cs = chars_of(src.as_str());
                let http = chars_of("http");
                if starts_with_exec(&cs, &http) {
                    steps.push(
                        FetchStep::Exec(
                            step(cat2("curl -LO ", src.as_str()), Some(tmp_dir.to_owned()), None),
                            None,
                        ),
                    );
                } else {
                    steps.push(FetchStep::Upload(src.clone(), tmp_dir.to_owned()));
                }
                steps.push(
                    FetchStep::Exec(
                        step(unpack_script_exec(bld_dir), Some(tmp_dir.to_owned()), None),
                        Some("/bin/bash".to_owned()),
                    ),
                );
            },
        },
    }
    steps
}

/// A stage of a build.
#[derive(Clone, Copy, Debug, PartialEq, Eq, Structural)]
pub enum BuildStage {
    BuildImage,
    CreateOutDir,
    SpawnContainer,
    InstallPkgerDeps,
    InstallRecipeDeps,
    CreateDirs,
    FetchSource,
    ExecuteScripts,
    ExcludePaths,
    CreatePackage,
    ArchiveOutput,
    RemoveContainer,
    Done,
    Interrupted,
}

/// The stage after `stage`: the stages run in order, the default dependencies are skipped when
/// the recipe asks so, and once the container runs, a build that was asked to stop (as by
/// ctrl-c) stops.
pub open spec fn spec_next_stage(stage: BuildStage, skip_default_deps: bool, running: bool) -> BuildStage {
    match stage {
        BuildStage::BuildImage => BuildStage::CreateOutDir,
        BuildStage::CreateOutDir => BuildStage::SpawnContainer,
        BuildStage::Done => BuildStage::Done,
        BuildStage::Interrupted => BuildStage::Interrupted,
        _ => if !running {
            BuildStage::Interrupted
        } else {
            match stage {
                BuildStage::SpawnContainer => if skip_default_deps {
                    BuildStage::InstallRecipeDeps
                } else {
                    BuildStage::InstallPkgerDeps
                },
                BuildStage::InstallPkgerDeps => BuildStage::InstallRecipeDeps,
                BuildStage::InstallRecipeDeps => BuildStage::CreateDirs,
                BuildStage::CreateDirs => BuildStage::FetchSource,
                BuildStage::FetchSource => BuildStage::ExecuteScripts,
                BuildStage::ExecuteScripts => BuildStage::ExcludePaths,
                BuildStage::ExcludePaths => BuildStage::CreatePackage,
                BuildStage::CreatePackage => BuildStage::ArchiveOutput,
                BuildStage::ArchiveOutput => BuildStage::RemoveContainer,
                _ => BuildStage::Done,
            }
        },
    }
}

/// The stage after `stage`, given whether the recipe skips the default dependencies and whether
/// the build may go on.
pub fn next_stage(stage: BuildStage, skip_default_deps: bool, running: bool) -> (r: BuildStage)
    ensures
        r == spec_next_stage(stage, skip_default_deps, running),
{
    match stage {
        BuildStage::BuildImage => BuildStage::CreateOutDir,
        BuildStage::CreateOutDir => BuildStage::SpawnContainer,
        BuildStage::Done => BuildStage::Done,
        BuildStage::Interrupted => BuildStage::Interrupted,
        _ => if !running {
            BuildStage::Interrupted
        } else {
            match stage {
                BuildStage::SpawnContainer => if skip_default_deps {
                    BuildStage::InstallRecipeDeps
                } else {
                    BuildStage::InstallPkgerDeps
                },
                BuildStage::InstallPkgerDeps => BuildStage::InstallRecipeDeps,
                BuildStage::InstallRecipeDeps => BuildStage::CreateDirs,
                BuildStage::CreateDirs => BuildStage::FetchSource,
                BuildStage::FetchSource => BuildStage::ExecuteScripts,
                BuildStage::ExecuteScripts => BuildStage::ExcludePaths,
                BuildStage::ExcludePaths => BuildStage::CreatePackage,
                BuildStage::CreatePackage => BuildStage::ArchiveOutput,
                BuildStage::ArchiveOutput => BuildStage::RemoveContainer,
                _ => BuildStage::Done,
            }
        },
    }
}

/// The stage reached from `stage` after `n` steps of an uninterrupted build.
pub open spec fn stage_after(stage: BuildStage, skip_default_deps: bool, n: nat) -> BuildStage
    decreases n,
{
    if n == 0 {
        stage
    } else {
        stage_after(spec_next_stage(stage, skip_default_deps, true), skip_default_deps, (n - 1) as nat)
    }
}

/// An uninterrupted build finishes: from building the image it reaches `Done` after twelve
/// stages, or eleven when the default dependencies are skipped; the default dependencies are
/// installed exactly when they are not skipped; an interrupted build stays interrupted.
pub proof fn lemma_build_finishes(skip_default_deps: bool)
    ensures
        (spec_next_stage(BuildStage::SpawnContainer, skip_default_deps, true)
            == BuildStage::InstallPkgerDeps) == !skip_default_deps,
        stage_after(BuildStage::BuildImage, skip_default_deps, if skip_default_deps { 11 } else { 12 })
            == BuildStage::Done,
        forall|s: BuildStage, skip: bool, running: bool|
            s == BuildStage::Interrupted ==> spec_next_stage(s, skip, running)
                == BuildStage::Interrupted,
{
    reveal_with_fuel(stage_after, 13);
}

} // verus!
