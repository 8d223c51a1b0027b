//! The scripts of a recipe: configure, build and install steps.

use crate::recipe::cmd::Command;
use crate::text::{append_str, push_char};
use vstd::prelude::*;

verus! {

/// A script section of a recipe as written.
#[derive(Clone, Debug)]
pub struct ScriptRep {
    pub steps: Vec<Command>,
    pub working_dir: Option<String>,
    pub shell: Option<String>,
}

/// The `build` section as written.
pub type BuildRep = ScriptRep;

/// The `install` section as written.
pub type InstallRep = ScriptRep;

/// The `configure` section as written.
pub type ConfigureRep = ScriptRep;

/// Steps run one after another, in a working directory and shell of their own if given.
#[derive(Clone, Debug)]
pub struct Script {
    pub steps: Vec<Command>,
    pub working_dir: Option<String>,
    pub shell: Option<String>,
}

/// The build script of a recipe.
pub type BuildScript = Script;

/// The install script of a recipe.
pub type InstallScript = Script;

/// The configure script of a recipe.
pub type ConfigureScript = Script;

/// `s` is the script the section `rep` gives.
pub open spec fn script_of(s: Script, rep: ScriptRep) -> bool {
    s.steps == rep.steps && s.working_dir == rep.working_dir && s.shell == rep.shell
}

/// The commands of the steps, each on a line of its own.
pub open spec fn script_text(steps: Seq<Command>) -> Seq<char>
    decreases steps.len(),
{
    if steps.len() == 0 {
        Seq::empty()
    } else {
        script_text(steps.drop_last()) + steps.last().cmd@ + seq!['\n']
    }
}

impl Script {
    pub fn from_rep(rep: ScriptRep) -> (s: Self)
        ensures
            script_of(s, rep),
    {
        Script { steps: rep.steps, working_dir: rep.working_dir, shell: rep.shell }
    }

    /// The commands of the steps as one script, each ended by a newline.
    pub fn steps_as_script(&self) -> (r: String)
        ensures
            r@ == script_text(self.steps@),
    {
        let mut script = String::new();
        let mut i: usize = 0;
        assert(self.steps@.take(0) =~= Seq::<Command>::empty());
        while i < self.steps.len()
            invariant
                i <= self.steps@.len(),
                script@ == script_text(self.steps@.take(i as int)),
            decreases self.steps@.len() - i,
        {
            assert(self.steps@.take(i + 1).drop_last() =~= self.steps@.take(i as int));
            append_str(&mut script, self.steps[i].cmd.as_str());
            push_char(&mut script, '\n');
            i += 1;
        }
        assert(self.steps@.take(i as int) =~= self.steps@);
        script
    }
}

} // verus!
