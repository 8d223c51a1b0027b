//! Steps of a recipe and on which targets, images and versions they run.

use super::metadata::BuildTarget;
use crate::strmap::str_eq;
use crate::text::string_views;
use vstd::prelude::*;

verus! {

/// One step of a recipe: a command and, optionally, the images and versions it runs on and the
/// package targets it is limited to.
///
/// Examples:
/// "echo 123"
///
/// { cmd = "echo 123", images = ["rocky", "debian"] }
///
/// { cmd = "echo 321", rpm = true } # execute only when building rpm target
#[derive(Clone, Debug, Default, PartialEq)]
pub struct Command {
    pub cmd: String,
    pub images: Option<Vec<String>>,
    pub versions: Option<Vec<String>>,
    pub rpm: Option<bool>,
    pub deb: Option<bool>,
    pub pkg: Option<bool>,
    pub gzip: Option<bool>,
    pub apk: Option<bool>,
}

/// A flag that is set and true.
pub open spec fn flag_on(o: Option<bool>) -> bool {
    o == Some(true)
}

/// Whether the step names a target: any of its rpm, deb, pkg, gzip and apk flags is given.
pub open spec fn spec_has_target_specified(c: Command) -> bool {
    c.rpm is Some || c.deb is Some || c.pkg is Some || c.gzip is Some || c.apk is Some
}

/// The step's flag for a target.
pub open spec fn spec_target_flag(c: Command, t: BuildTarget) -> Option<bool> {
    match t {
        BuildTarget::Rpm => c.rpm,
        BuildTarget::Deb => c.deb,
        BuildTarget::Pkg => c.pkg,
        BuildTarget::Gzip => c.gzip,
        BuildTarget::Apk => c.apk,
    }
}

/// A step without target flags runs on every target; otherwise only on the targets whose flag
/// is set to true.
pub open spec fn spec_should_run_on_target(c: Command, t: BuildTarget) -> bool {
    !spec_has_target_specified(c) || flag_on(spec_target_flag(c, t))
}

/// A step without versions runs on every version; otherwise on the versions listed.
pub open spec fn spec_should_run_on_version(c: Command, version: Seq<char>) -> bool {
    match c.versions {
        None => true,
        Some(vs) => string_views(vs@).contains(version),
    }
}

impl Command {
    /// A step made of a bare command.
    pub fn from(s: &str) -> (c: Self)
        ensures
            c.cmd@ == s@,
            c.images is None,
            c.versions is None,
            c.rpm is None,
            c.deb is None,
            c.pkg is None,
            c.gzip is None,
            c.apk is None,
    {
        Self {
            cmd: String::from_str(s),
            images: None,
            versions: None,
            rpm: None,
            deb: None,
            pkg: None,
            gzip: None,
            apk: None,
        }
    }

    pub fn has_target_specified(&self) -> (b: bool)
        ensures
            b == spec_has_target_specified(*self),
    {
        self.rpm.is_some() || self.deb.is_some() || self.pkg.is_some() || self.gzip.is_some()
            || self.apk.is_some()
    }

    pub fn should_run_on_target(&self, target: &BuildTarget) -> (b: bool)
        ensures
            b == spec_should_run_on_target(*self, *target),
    {
        if !self.has_target_specified() {
            return true;
        }
        let flag = match target {
            BuildTarget::Rpm => self.rpm,
            BuildTarget::Deb => self.deb,
            BuildTarget::Pkg => self.pkg,
            BuildTarget::Gzip => self.gzip,
            BuildTarget::Apk => self.apk,
        };
        match flag {
            Some(b) => b,
            None => false,
        }
    }

    pub fn should_run_on_version(&self, version: &str) -> (b: bool)
        ensures
            b == spec_should_run_on_version(*self, version@),
    {
        match &self.versions {
            None => true,
            Some(versions) => {
                let mut i: usize = 0;
                while i < versions.len()
                    invariant
                        self.versions == Some(*versions),
                        i <= versions@.len(),
                        forall|j: int| 0 <= j < i ==> versions@[j]@ != version@,
                    decreases versions@.len() - i,
                {
                    if str_eq(versions[i].as_str(), version) {
                        assert(string_views(versions@)[i as int] == version@);
                        return true;
                    }
                    i += 1;
                }
                assert(!string_views(versions@).contains(version@)) by {
                    if string_views(versions@).contains(version@) {
                        let j = choose|j: int|
                            0 <= j < string_views(versions@).len() && string_views(versions@)[j]
                                == version@;
                        assert(versions@[j]@ == version@);
                    }
                }
                false
            },
        }
    }
}

} // verus!
