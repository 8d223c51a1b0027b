//! The configuration and command line options of the tool, and the build section of a TOML
//! recipe.

use crate::cli::cmd::Cmd;
use crate::cli::fmt::{has_flag, FmtFilter, DEFAULT_FIELD_DELIM};
use crate::text::string_views;
use vstd::prelude::*;

verus! {

/// Where the tool keeps images, recipes and packages, and the container runtime it talks to.
#[derive(Clone, Debug)]
pub struct Config {
    pub images_dir: String,
    pub recipes_dir: String,
    pub output_dir: String,
    pub docker: Option<String>,
}

/// The command line options of the tool.
#[derive(Clone, Debug)]
pub struct Opts {
    /// URI of the container runtime
    pub docker: Option<String>,
    /// Recipes to build; all when empty
    pub recipes: Vec<String>,
    /// Images to build on
    pub images: Option<Vec<String>>,
    /// Path of the configuration file
    pub config: Option<String>,
    /// Only errors are shown
    pub quiet: bool,
    /// Debug output is shown
    pub debug: bool,
    /// Parts of events to hide
    pub hide: Option<String>,
}

impl Opts {
    /// What the log output hides: what the filter string of `hide` names, nothing without one.
    pub fn fmt_filter(&self) -> (f: FmtFilter)
        ensures
            match self.hide {
                Some(h) => f.hide_date == has_flag(h@, 'd') && f.hide_fields == has_flag(h@, 'f')
                    && f.hide_level == has_flag(h@, 'l') && f.hide_spans == has_flag(h@, 's'),
                None => !f.hide_date && !f.hide_fields && !f.hide_level && !f.hide_spans,
            },
            f.delimiter@ == DEFAULT_FIELD_DELIM@,
    {
        match &self.hide {
            Some(h) => FmtFilter::from(h.as_str()),
            None => FmtFilter::default(),
        }
    }
}

/// The build section of a TOML recipe as written: the steps as commands.
#[derive(Clone, Debug)]
pub struct BuildRep {
    pub steps: Vec<String>,
}

/// The build section of a TOML recipe: its steps, each a bare command.
#[derive(Clone, Debug)]
pub struct Build {
    pub steps: Vec<Cmd>,
}

impl Build {
    pub fn from_rep(rep: &BuildRep) -> (b: Self)
        ensures
            b.steps@.len() == rep.steps@.len(),
            forall|i: int|
                0 <= i < rep.steps@.len() ==> (#[trigger] b.steps@[i]).cmd@ == rep.steps@[i]@
                    && b.steps@[i].images@.len() == 0 && b.steps@[i].rpm is None
                    && b.steps@[i].deb is None && b.steps@[i].pkg is None
                    && b.steps@[i].gzip is None,
    {
        let mut steps: Vec<Cmd> = Vec::new();
        let mut i: usize = 0;
        while i < rep.steps.len()
            invariant
                i <= rep.steps@.len(),
                steps@.len() == i,
                forall|j: int|
                    0 <= j < i ==> (#[trigger] steps@[j]).cmd@ == rep.steps@[j]@
                        && steps@[j].images@.len() == 0 && steps@[j].rpm is None
                        && steps@[j].deb is None && steps@[j].pkg is None && steps@[j].gzip is None,
            decreases rep.steps@.len() - i,
        {
            steps.push(Cmd::from(rep.steps[i].as_str()));
            i += 1;
        }
        Build { steps }
    }
}

} // verus!
