//! Why a recipe could not be read.

use vstd::prelude::*;

verus! {

/// Why a recipe could not be read.
#[derive(Clone, Copy, Debug, PartialEq, Eq, Structural)]
pub enum RecipeError {
    /// The sections present fit neither a base recipe (`metadata` and `build`) nor a child
    /// recipe (`metadata` with a name and `from`).
    InvalidSections,
    /// A base recipe gives no description.
    NoDescription,
    /// A base recipe gives no license.
    NoLicense,
    /// The recipe has no `metadata` section.
    MissingMetadata,
    /// The recipe has no `build` section.
    MissingBuild,
    /// The metadata gives no name.
    MissingName,
    /// The metadata gives no version.
    MissingVersion,
}

} // verus!
