//! A recipe: the document as written and the recipe read from it.

use crate::recipe::envs::{env_from_entries, Env, EnvMap};
use crate::recipe::error::RecipeError;
use crate::recipe::metadata::{metadata_error, metadata_of, Metadata, MetadataRep};
use crate::recipe::scripts::{script_of, Script, ScriptRep};
use crate::value::Value;
use vstd::prelude::*;

verus! {

/// A recipe document as written.
#[derive(Debug)]
pub struct RecipeRep {
    /// The recipe this one inherits from.
    pub from: Option<String>,
    pub metadata: Option<MetadataRep>,
    pub env: Option<Vec<(Value, Value)>>,
    pub configure: Option<ScriptRep>,
    pub build: Option<ScriptRep>,
    pub install: Option<ScriptRep>,
}

/// Whether the sections of `rep` make a valid recipe, and if so whether it inherits from
/// another one: a base recipe has `metadata` (with a description and a license) and `build`
/// and no `from`; a child recipe has `metadata` with a name and `from`.
pub open spec fn spec_check_sections(rep: RecipeRep) -> Result<bool, RecipeError> {
    match rep.metadata {
        None => Err(RecipeError::InvalidSections),
        Some(m) => if rep.from is Some {
            if m.name is None {
                Err(RecipeError::InvalidSections)
            } else {
                Ok(true)
            }
        } else if rep.build is None {
            Err(RecipeError::InvalidSections)
        } else if m.description is None {
            Err(RecipeError::NoDescription)
        } else if m.license is None {
            Err(RecipeError::NoLicense)
        } else {
            Ok(false)
        },
    }
}

/// The variables an optional `env` table sets.
pub open spec fn env_of(env: Option<Vec<(Value, Value)>>) -> EnvMap {
    match env {
        Some(es) => env_from_entries(es@),
        None => EnvMap::empty(),
    }
}

/// `s` is the script an optional section gives.
pub open spec fn opt_script_of(s: Option<Script>, rep: Option<ScriptRep>) -> bool {
    match rep {
        Some(r) => s matches Some(x) && script_of(x, r),
        None => s is None,
    }
}

/// A recipe.
#[derive(Clone, Debug)]
pub struct Recipe {
    pub metadata: Metadata,
    pub env: Env,
    pub configure_script: Option<Script>,
    pub build_script: Script,
    pub install_script: Option<Script>,
    pub recipe_dir: String,
}

impl Recipe {
    /// Checks the sections of a recipe document; tells whether it inherits from another.
    pub fn check_sections(rep: &RecipeRep) -> (r: Result<bool, RecipeError>)
        ensures
            r == spec_check_sections(*rep),
    {
        match &rep.metadata {
            None => Err(RecipeError::InvalidSections),
            Some(m) => {
                if rep.from.is_some() {
                    if m.name.is_none() {
                        Err(RecipeError::InvalidSections)
                    } else {
                        Ok(true)
                    }
                } else if rep.build.is_none() {
                    Err(RecipeError::InvalidSections)
                } else if m.description.is_none() {
                    Err(RecipeError::NoDescription)
                } else if m.license.is_none() {
                    Err(RecipeError::NoLicense)
                } else {
                    Ok(false)
                }
            },
        }
    }

    /// Reads a recipe from its document, found in `recipe_dir`. A child recipe is read as
    /// given: it is expected to hold the sections of its base already.
    pub fn new(rep: RecipeRep, recipe_dir: String) -> (r: Result<Self, RecipeError>)
        ensures
            match spec_check_sections(rep) {
                Err(e) => r == Err::<Self, RecipeError>(e),
                Ok(_) => match metadata_error(rep.metadata.unwrap()) {
                    Some(e) => r == Err::<Self, RecipeError>(e),
                    None => match rep.build {
                        None => r == Err::<Self, RecipeError>(RecipeError::MissingBuild),
                        Some(b) => r matches Ok(x) && metadata_of(x.metadata, rep.metadata.unwrap())
                            && x.env.wf() && x.env@ == env_of(rep.env) && opt_script_of(
                            x.configure_script,
                            rep.configure,
                        ) && script_of(x.build_script, b) && opt_script_of(
                            x.install_script,
                            rep.install,
                        ) && x.recipe_dir == recipe_dir,
                    },
                },
            },
    {
        match Self::check_sections(&rep) {
            Err(e) => {
                return Err(e);
            },
            Ok(_) => {},
        }
        let metadata = match rep.metadata {
            Some(m) => Metadata::try_from(m)?,
            None => {
                return Err(RecipeError::MissingMetadata);
            },
        };
        let env = Env::from(rep.env);
        let configure_script = match rep.configure {
            Some(s) => Some(Script::from_rep(s)),
            None => None,
        };
        let build_script = match rep.build {
            Some(s) => Script::from_rep(s),
            None => {
                return Err(RecipeError::MissingBuild);
            },
        };
        let install_script = match rep.install {
            Some(s) => Some(Script::from_rep(s)),
            None => None,
        };
        Ok(Recipe { metadata, env, configure_script, build_script, install_script, recipe_dir })
    }

    /// The images the recipe names.
    pub fn images(&self) -> (r: &[String])
        ensures
            r@ == self.metadata.images@,
    {
        self.metadata.images.as_slice()
    }
}

} // verus!
