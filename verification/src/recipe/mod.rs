//! Recipes: what to build, from what, and with which steps.

pub mod cmd;
pub mod document;
pub mod envs;
pub mod error;
pub mod loader;
pub mod metadata;
pub mod package;
pub mod scripts;
pub mod target;

pub use cmd::Command;
pub use document::{Recipe, RecipeRep};
pub use envs::Env;
pub use error::RecipeError;
pub use loader::Loader;
pub use metadata::{BuildArch, BuildTarget, Distro, GitSource, ImageTarget, Os, PackageManager};
pub use package::{DebControl, PkgBuild, RpmSpec};
pub use scripts::{BuildScript, ConfigureScript, InstallScript, Script, ScriptRep};
pub use target::RecipeTarget;
