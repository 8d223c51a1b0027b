//! Which steps of a recipe's scripts run on an image for a target, and with which options.

use crate::recipe::cmd::{spec_has_target_specified, spec_should_run_on_target, Command};
use crate::recipe::document::Recipe;
use crate::recipe::metadata::BuildTarget;
use crate::recipe::scripts::Script;
use crate::recipe::metadata::deps::list_contains;
use crate::text::string_views;
use vstd::prelude::*;

verus! {

/// Whether a step runs on `image` when building `target`. A step limited to images that do
/// not include `image` is skipped unless it names targets; then, as every step, it runs only on
/// the targets it allows.
pub open spec fn spec_step_runs(c: Command, image: Seq<char>, target: BuildTarget) -> bool {
    let excluded = match c.images {
        Some(v) => v@.len() > 0 && !string_views(v@).contains(image) && !spec_has_target_specified(
            c,
        ),
        None => false,
    };
    !excluded && spec_should_run_on_target(c, target)
}

/// Whether the step runs on `image` when building `target`.
pub fn step_runs(c: &Command, image: &str, target: &BuildTarget) -> (b: bool)
    ensures
        b == spec_step_runs(*c, image@, *target),
{
    if let Some(images) = &c.images {
        if images.len() > 0 && !list_contains(images, image) && !c.has_target_specified() {
            return false;
        }
    }
    c.should_run_on_target(target)
}

/// The commands of the steps that run on `image` for `target`, in order.
pub open spec fn run_commands(steps: Seq<Command>, image: Seq<char>, target: BuildTarget) -> Seq<
    Seq<char>,
>
    decreases steps.len(),
{
    if steps.len() == 0 {
        Seq::empty()
    } else {
        let pre = run_commands(steps.drop_last(), image, target);
        if spec_step_runs(steps.last(), image, target) {
            pre.push(steps.last().cmd@)
        } else {
            pre
        }
    }
}

/// How one script runs: in which directory and shell, and which commands.
#[derive(Clone, Debug)]
pub struct ScriptRun {
    pub working_dir: Option<String>,
    pub shell: Option<String>,
    pub commands: Vec<String>,
}

/// `r` runs `script` on `image` for `target`: in the script's directory, or `default_dir` when
/// it gives none; in its shell, if it gives one; with the commands of the steps that run there.
pub open spec fn script_run_of(
    r: ScriptRun,
    script: Script,
    default_dir: Option<Seq<char>>,
    image: Seq<char>,
    target: BuildTarget,
) -> bool {
    &&& match script.working_dir {
        Some(d) => r.working_dir == Some(d),
        None => match default_dir {
            Some(d) => r.working_dir matches Some(x) && x@ == d,
            None => r.working_dir is None,
        },
    }
    &&& r.shell == script.shell
    &&& string_views(r.commands@) == run_commands(script.steps@, image, target)
}

/// How `script` runs on `image` for `target`.
pub fn plan_script(
    script: &Script,
    default_dir: Option<&str>,
    image: &str,
    target: &BuildTarget,
) -> (r: ScriptRun)
    ensures
        script_run_of(
            r,
            *script,
            match default_dir {
                Some(d) => Some(d@),
                None => None,
            },
            image@,
            *target,
        ),
{
    let mut commands: Vec<String> = Vec::new();
    let mut i: usize = 0;
    assert(script.steps@.take(0) =~= Seq::<Command>::empty());
    assert(string_views(commands@) =~= Seq::<Seq<char>>::empty());
    while i < script.steps.len()
        invariant
            i <= script.steps@.len(),
            string_views(commands@) == run_commands(script.steps@.take(i as int), image@, *target),
        decreases script.steps@.len() - i,
    {
        assert(script.steps@.take(i + 1).drop_last() =~= script.steps@.take(i as int));
        let step = &script.steps[i];
        if step_runs(step, image, target) {
            let ghost before = commands@;
            commands.push(step.cmd.clone());
            assert(string_views(commands@) =~= string_views(before).push(step.cmd@));
        }
        i += 1;
    }
    assert(script.steps@.take(i as int) =~= script.steps@);
    let working_dir = match &script.working_dir {
        Some(d) => Some(d.clone()),
        None => match default_dir {
            Some(d) => Some(d.to_owned()),
            None => None,
        },
    };
    ScriptRun { working_dir, shell: script.shell.clone(), commands }
}

/// The scripts of a recipe in the order they run: configure (when given) in its own directory,
/// build in the build directory unless it names one, install (when given) in the output
/// directory unless it names one.
pub fn plan_scripts(
    recipe: &Recipe,
    bld_dir: &str,
    out_dir: &str,
    image: &str,
    target: &BuildTarget,
) -> (r: Vec<ScriptRun>)
    ensures
        r@.len() == (if recipe.configure_script is Some { 1int } else { 0 }) + 1 + (
        if recipe.install_script is Some {
            1int
        } else {
            0
        }),
        recipe.configure_script matches Some(c) ==> script_run_of(r@[0], c, None, image@, *target),
        script_run_of(
            r@[if recipe.configure_script is Some { 1int } else { 0 }],
            recipe.build_script,
            Some(bld_dir@),
            image@,
            *target,
        ),
        recipe.install_script matches Some(s) ==> script_run_of(
            r@[r@.len() - 1],
            s,
            Some(out_dir@),
            image@,
            *target,
        ),
{
    let mut runs: Vec<ScriptRun> = Vec::new();
    if let Some(c) = &recipe.configure_script {
        runs.push(plan_script(c, None, image, target));
    }
    runs.push(plan_script(&recipe.build_script, Some(bld_dir), image, target));
    if let Some(s) = &recipe.install_script {
        runs.push(plan_script(s, Some(out_dir), image, target));
    }
    runs
}

} // verus!
