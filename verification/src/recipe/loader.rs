//! Where recipes are found: a directory with one subdirectory per recipe.

use crate::build::layout::{join_path, path_join};
use vstd::prelude::*;

verus! {

/// Why recipes cannot be loaded from a path.
#[derive(Clone, Copy, Debug, PartialEq, Eq, Structural)]
pub enum LoaderError {
    /// The recipes path is not a directory.
    NotADirectory,
}

/// Finds recipes in a directory.
#[derive(Clone, Debug)]
pub struct Loader {
    path: String,
}

impl Loader {
    pub closed spec fn dir(&self) -> Seq<char> {
        self.path@
    }

    /// A loader of the recipes in `path`, given whether `path` is a directory.
    pub fn new(path: String, is_dir: bool) -> (r: Result<Self, LoaderError>)
        ensures
            is_dir ==> (r matches Ok(l) && l.dir() == path@),
            !is_dir ==> r == Err::<Self, LoaderError>(LoaderError::NotADirectory),
    {
        if !is_dir {
            return Err(LoaderError::NotADirectory);
        }
        Ok(Loader { path })
    }

    /// The directory of the recipe named `recipe`.
    pub fn recipe_dir(&self, recipe: &str) -> (r: String)
        ensures
            r@ == path_join(self.dir(), recipe@),
    {
        join_path(self.path.as_str(), recipe)
    }

    /// The file a recipe is read from in its directory: `recipe.yml`, or `recipe.yaml` when
    /// there is no `recipe.yml`.
    pub fn recipe_file(recipe_dir: &str, yml_exists: bool) -> (r: String)
        ensures
            r@ == path_join(
                recipe_dir@,
                if yml_exists {
                    "recipe.yml"@
                } else {
                    "recipe.yaml"@
                },
            ),
    {
        if yml_exists {
            join_path(recipe_dir, "recipe.yml")
        } else {
            join_path(recipe_dir, "recipe.yaml")
        }
    }
}

} // verus!
