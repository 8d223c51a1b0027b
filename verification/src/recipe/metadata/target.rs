//! The kinds of packages a recipe can be built into.

use crate::strmap::str_eq;
use crate::text::{spec_to_lowercase, to_lowercase};
use crate::value::ParseError;
use vstd::prelude::*;

verus! {

#[derive(Copy, Clone, Debug, Eq, PartialEq, Hash)]
pub enum BuildTarget {
    Rpm,
    Deb,
    Gzip,
    Pkg,
    Apk,
}

/// The name of a build target as recipes and command lines write it.
pub open spec fn spec_target_name(t: BuildTarget) -> Seq<char> {
    match t {
        BuildTarget::Rpm => "rpm"@,
        BuildTarget::Deb => "deb"@,
        BuildTarget::Gzip => "gzip"@,
        BuildTarget::Pkg => "pkg"@,
        BuildTarget::Apk => "apk"@,
    }
}

/// The build target a (lowercased) name stands for.
pub open spec fn spec_target_from_lowercase(name: Seq<char>) -> Option<BuildTarget> {
    if name == "rpm"@ {
        Some(BuildTarget::Rpm)
    } else if name == "deb"@ {
        Some(BuildTarget::Deb)
    } else if name == "gzip"@ {
        Some(BuildTarget::Gzip)
    } else if name == "pkg"@ {
        Some(BuildTarget::Pkg)
    } else if name == "apk"@ {
        Some(BuildTarget::Apk)
    } else {
        None
    }
}

/// The build target a name stands for, ignoring case.
pub open spec fn spec_target_from_name(s: Seq<char>) -> Result<BuildTarget, ParseError> {
    match spec_target_from_lowercase(spec_to_lowercase(s)) {
        Some(t) => Ok(t),
        None => Err(ParseError::UnknownBuildTarget),
    }
}

impl BuildTarget {
    /// The target used when a recipe names none.
    pub fn default() -> (t: BuildTarget)
        ensures
            t == BuildTarget::Gzip,
    {
        BuildTarget::Gzip
    }

    /// Reads a build target from its name, ignoring case.
    pub fn try_from_name(s: &str) -> (r: Result<BuildTarget, ParseError>)
        ensures
            r == spec_target_from_name(s@),
    {
        let lower = to_lowercase(s);
        if str_eq(lower.as_str(), "rpm") {
            Ok(BuildTarget::Rpm)
        } else if str_eq(lower.as_str(), "deb") {
            Ok(BuildTarget::Deb)
        } else if str_eq(lower.as_str(), "gzip") {
            Ok(BuildTarget::Gzip)
        } else if str_eq(lower.as_str(), "pkg") {
            Ok(BuildTarget::Pkg)
        } else if str_eq(lower.as_str(), "apk") {
            Ok(BuildTarget::Apk)
        } else {
            Err(ParseError::UnknownBuildTarget)
        }
    }

    pub fn as_ref(&self) -> (r: &'static str)
        ensures
            r@ == spec_target_name(*self),
    {
        match self {
            BuildTarget::Rpm => "rpm",
            BuildTarget::Deb => "deb",
            BuildTarget::Gzip => "gzip",
            BuildTarget::Pkg => "pkg",
            BuildTarget::Apk => "apk",
        }
    }
}

} // verus!
