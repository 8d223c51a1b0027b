//! Package architectures and their names in each package format.

use crate::strmap::str_eq;
use crate::text::{spec_to_lowercase, to_lowercase};
use vstd::prelude::*;

verus! {

#[allow(non_camel_case_types)]
#[derive(Clone, Debug, PartialEq)]
pub enum BuildArch {
    All,
    x86_64,
    x86,
    Arm,
    Armv6h,
    Armv7h,
    Arm64,
    Other(String),
}

/// The known architecture that a lowercased name stands for, if any.
pub open spec fn spec_known_arch(l: Seq<char>) -> Option<BuildArch> {
    if l == "all"@ || l == "any"@ || l == "noarch"@ {
        Some(BuildArch::All)
    } else if l == "x86_64"@ || l == "amd64"@ {
        Some(BuildArch::x86_64)
    } else if l == "i386"@ || l == "x86"@ {
        Some(BuildArch::x86)
    } else if l == "armel"@ || l == "arm"@ {
        Some(BuildArch::Arm)
    } else if l == "armv6hl"@ || l == "armv6h"@ {
        Some(BuildArch::Armv6h)
    } else if l == "armv7hl"@ || l == "armv7h"@ || l == "armhf"@ {
        Some(BuildArch::Armv7h)
    } else if l == "aarch64"@ || l == "arm64"@ {
        Some(BuildArch::Arm64)
    } else {
        None
    }
}

/// The architecture name in DEB packages.
pub open spec fn spec_deb_name(a: BuildArch) -> Seq<char> {
    match a {
        BuildArch::All => "all"@,
        BuildArch::x86_64 => "amd64"@,
        BuildArch::x86 => "i386"@,
        BuildArch::Arm => "armel"@,
        BuildArch::Armv6h => "armhf"@,
        BuildArch::Armv7h => "armhf"@,
        BuildArch::Arm64 => "arm64"@,
        BuildArch::Other(s) => s@,
    }
}

/// The architecture name in RPM packages.
pub open spec fn spec_rpm_name(a: BuildArch) -> Seq<char> {
    match a {
        BuildArch::All => "noarch"@,
        BuildArch::x86_64 => "x86_64"@,
        BuildArch::x86 => "i386"@,
        BuildArch::Arm => "armel"@,
        BuildArch::Armv6h => "armv6hl"@,
        BuildArch::Armv7h => "armv7hl"@,
        BuildArch::Arm64 => "aarch64"@,
        BuildArch::Other(s) => s@,
    }
}

/// The architecture name in PKG (pacman) packages.
pub open spec fn spec_pkg_name(a: BuildArch) -> Seq<char> {
    match a {
        BuildArch::All => "any"@,
        BuildArch::x86_64 => "x86_64"@,
        BuildArch::x86 => "i386"@,
        BuildArch::Arm => "arm"@,
        BuildArch::Armv6h => "armv6h"@,
        BuildArch::Armv7h => "armv7h"@,
        BuildArch::Arm64 => "aarch64"@,
        BuildArch::Other(s) => s@,
    }
}

/// The contents of the architecture names.
proof fn lemma_arch_literals()
    ensures
        "all"@ == seq!['a', 'l', 'l'],
        "any"@ == seq!['a', 'n', 'y'],
        "noarch"@ == seq!['n', 'o', 'a', 'r', 'c', 'h'],
        "x86_64"@ == seq!['x', '8', '6', '_', '6', '4'],
        "amd64"@ == seq!['a', 'm', 'd', '6', '4'],
        "i386"@ == seq!['i', '3', '8', '6'],
        "x86"@ == seq!['x', '8', '6'],
        "armel"@ == seq!['a', 'r', 'm', 'e', 'l'],
        "arm"@ == seq!['a', 'r', 'm'],
        "armv6hl"@ == seq!['a', 'r', 'm', 'v', '6', 'h', 'l'],
        "armv6h"@ == seq!['a', 'r', 'm', 'v', '6', 'h'],
        "armv7hl"@ == seq!['a', 'r', 'm', 'v', '7', 'h', 'l'],
        "armv7h"@ == seq!['a', 'r', 'm', 'v', '7', 'h'],
        "armhf"@ == seq!['a', 'r', 'm', 'h', 'f'],
        "aarch64"@ == seq!['a', 'a', 'r', 'c', 'h', '6', '4'],
        "arm64"@ == seq!['a', 'r', 'm', '6', '4'],
{
    reveal_strlit("all");
    reveal_strlit("any");
    reveal_strlit("noarch");
    reveal_strlit("x86_64");
    reveal_strlit("amd64");
    reveal_strlit("i386");
    reveal_strlit("x86");
    reveal_strlit("armel");
    reveal_strlit("arm");
    reveal_strlit("armv6hl");
    reveal_strlit("armv6h");
    reveal_strlit("armv7hl");
    reveal_strlit("armv7h");
    reveal_strlit("armhf");
    reveal_strlit("aarch64");
    reveal_strlit("arm64");
}

/// The architecture each RPM and PKG name reads as.
proof fn lemma_known_arch_of_names()
    ensures
        spec_known_arch("noarch"@) == Some(BuildArch::All),
        spec_known_arch("x86_64"@) == Some(BuildArch::x86_64),
        spec_known_arch("i386"@) == Some(BuildArch::x86),
        spec_known_arch("armel"@) == Some(BuildArch::Arm),
        spec_known_arch("armv6hl"@) == Some(BuildArch::Armv6h),
        spec_known_arch("armv7hl"@) == Some(BuildArch::Armv7h),
        spec_known_arch("aarch64"@) == Some(BuildArch::Arm64),
        spec_known_arch("any"@) == Some(BuildArch::All),
        spec_known_arch("arm"@) == Some(BuildArch::Arm),
        spec_known_arch("armv6h"@) == Some(BuildArch::Armv6h),
        spec_known_arch("armv7h"@) == Some(BuildArch::Armv7h),
        spec_known_arch("arm64"@) == Some(BuildArch::Arm64),
{
    lemma_arch_literals();
    assert("noarch"@.len() != "all"@.len());
    assert("noarch"@.len() != "any"@.len());
    assert("x86_64"@.len() != "all"@.len());
    assert("x86_64"@.len() != "any"@.len());
    assert("x86_64"@[0] != "noarch"@[0]);
    assert("i386"@.len() != "all"@.len());
    assert("i386"@.len() != "any"@.len());
    assert("i386"@.len() != "noarch"@.len());
    assert("i386"@.len() != "x86_64"@.len());
    assert("i386"@.len() != "amd64"@.len());
    assert("armel"@.len() != "all"@.len());
    assert("armel"@.len() != "any"@.len());
    assert("armel"@.len() != "noarch"@.len());
    assert("armel"@.len() != "x86_64"@.len());
    assert("armel"@[1] != "amd64"@[1]);
    assert("armel"@.len() != "i386"@.len());
    assert("armel"@.len() != "x86"@.len());
    assert("armv6hl"@.len() != "all"@.len());
    assert("armv6hl"@.len() != "any"@.len());
    assert("armv6hl"@.len() != "noarch"@.len());
    assert("armv6hl"@.len() != "x86_64"@.len());
    assert("armv6hl"@.len() != "amd64"@.len());
    assert("armv6hl"@.len() != "i386"@.len());
    assert("armv6hl"@.len() != "x86"@.len());
    assert("armv6hl"@.len() != "armel"@.len());
    assert("armv6hl"@.len() != "arm"@.len());
    assert("armv7hl"@.len() != "all"@.len());
    assert("armv7hl"@.len() != "any"@.len());
    assert("armv7hl"@.len() != "noarch"@.len());
    assert("armv7hl"@.len() != "x86_64"@.len());
    assert("armv7hl"@.len() != "amd64"@.len());
    assert("armv7hl"@.len() != "i386"@.len());
    assert("armv7hl"@.len() != "x86"@.len());
    assert("armv7hl"@.len() != "armel"@.len());
    assert("armv7hl"@.len() != "arm"@.len());
    assert("armv7hl"@[4] != "armv6hl"@[4]);
    assert("armv7hl"@.len() != "armv6h"@.len());
    assert("aarch64"@.len() != "all"@.len());
    assert("aarch64"@.len() != "any"@.len());
    assert("aarch64"@.len() != "noarch"@.len());
    assert("aarch64"@.len() != "x86_64"@.len());
    assert("aarch64"@.len() != "amd64"@.len());
    assert("aarch64"@.len() != "i386"@.len());
    assert("aarch64"@.len() != "x86"@.len());
    assert("aarch64"@.len() != "armel"@.len());
    assert("aarch64"@.len() != "arm"@.len());
    assert("aarch64"@[1] != "armv6hl"@[1]);
    assert("aarch64"@.len() != "armv6h"@.len());
    assert("aarch64"@[1] != "armv7hl"@[1]);
    assert("aarch64"@.len() != "armv7h"@.len());
    assert("aarch64"@.len() != "armhf"@.len());
    assert("any"@[1] != "all"@[1]);
    assert("arm"@[1] != "all"@[1]);
    assert("arm"@[1] != "any"@[1]);
    assert("arm"@.len() != "noarch"@.len());
    assert("arm"@.len() != "x86_64"@.len());
    assert("arm"@.len() != "amd64"@.len());
    assert("arm"@.len() != "i386"@.len());
    assert("arm"@[0] != "x86"@[0]);
    assert("arm"@.len() != "armel"@.len());
    assert("armv6h"@.len() != "all"@.len());
    assert("armv6h"@.len() != "any"@.len());
    assert("armv6h"@[0] != "noarch"@[0]);
    assert("armv6h"@[0] != "x86_64"@[0]);
    assert("armv6h"@.len() != "amd64"@.len());
    assert("armv6h"@.len() != "i386"@.len());
    assert("armv6h"@.len() != "x86"@.len());
    assert("armv6h"@.len() != "armel"@.len());
    assert("armv6h"@.len() != "arm"@.len());
    assert("armv6h"@.len() != "armv6hl"@.len());
    assert("armv7h"@.len() != "all"@.len());
    assert("armv7h"@.len() != "any"@.len());
    assert("armv7h"@[0] != "noarch"@[0]);
    assert("armv7h"@[0] != "x86_64"@[0]);
    assert("armv7h"@.len() != "amd64"@.len());
    assert("armv7h"@.len() != "i386"@.len());
    assert("armv7h"@.len() != "x86"@.len());
    assert("armv7h"@.len() != "armel"@.len());
    assert("armv7h"@.len() != "arm"@.len());
    assert("armv7h"@.len() != "armv6hl"@.len());
    assert("armv7h"@[4] != "armv6h"@[4]);
    assert("armv7h"@.len() != "armv7hl"@.len());
    assert("arm64"@.len() != "all"@.len());
    assert("arm64"@.len() != "any"@.len());
    assert("arm64"@.len() != "noarch"@.len());
    assert("arm64"@.len() != "x86_64"@.len());
    assert("arm64"@[1] != "amd64"@[1]);
    assert("arm64"@.len() != "i386"@.len());
    assert("arm64"@.len() != "x86"@.len());
    assert("arm64"@[3] != "armel"@[3]);
    assert("arm64"@.len() != "arm"@.len());
    assert("arm64"@.len() != "armv6hl"@.len());
    assert("arm64"@.len() != "armv6h"@.len());
    assert("arm64"@.len() != "armv7hl"@.len());
    assert("arm64"@.len() != "armv7h"@.len());
    assert("arm64"@[3] != "armhf"@[3]);
    assert("arm64"@.len() != "aarch64"@.len());
}

/// The architecture names RPM packages use.
pub open spec fn rpm_arch_names() -> Set<Seq<char>> {
    set!["noarch"@, "x86_64"@, "i386"@, "armel"@, "armv6hl"@, "armv7hl"@, "aarch64"@]
}

/// The architecture names PKG (pacman) packages use.
pub open spec fn pkg_arch_names() -> Set<Seq<char>> {
    set!["any"@, "x86_64"@, "i386"@, "arm"@, "armv6h"@, "armv7h"@, "aarch64"@]
}

/// `r` is the architecture named `s`, in any case; an unknown name is kept lowercased.
pub open spec fn arch_of_name(r: BuildArch, s: Seq<char>) -> bool {
    match spec_known_arch(spec_to_lowercase(s)) {
        Some(a) => r == a,
        None => r matches BuildArch::Other(n) && n@ == spec_to_lowercase(s),
    }
}

impl BuildArch {
    /// Reads an architecture from its name, ignoring case; unknown names are kept lowercased.
    pub fn from_name(s: &str) -> (r: BuildArch)
        ensures
            arch_of_name(r, s@),
    {
        let l = to_lowercase(s);
        let ls = l.as_str();
        if str_eq(ls, "all") || str_eq(ls, "any") || str_eq(ls, "noarch") {
            BuildArch::All
        } else if str_eq(ls, "x86_64") || str_eq(ls, "amd64") {
            BuildArch::x86_64
        } else if str_eq(ls, "i386") || str_eq(ls, "x86") {
            BuildArch::x86
        } else if str_eq(ls, "armel") || str_eq(ls, "arm") {
            BuildArch::Arm
        } else if str_eq(ls, "armv6hl") || str_eq(ls, "armv6h") {
            BuildArch::Armv6h
        } else if str_eq(ls, "armv7hl") || str_eq(ls, "armv7h") || str_eq(ls, "armhf") {
            BuildArch::Armv7h
        } else if str_eq(ls, "aarch64") || str_eq(ls, "arm64") {
            BuildArch::Arm64
        } else {
            BuildArch::Other(l)
        }
    }

    pub fn deb_name(&self) -> (r: &str)
        ensures
            r@ == spec_deb_name(*self),
    {
        match self {
            BuildArch::All => "all",
            BuildArch::x86_64 => "amd64",
            BuildArch::x86 => "i386",
            BuildArch::Arm => "armel",
            BuildArch::Armv6h => "armhf",
            BuildArch::Armv7h => "armhf",
            BuildArch::Arm64 => "arm64",
            BuildArch::Other(arch) => arch.as_str(),
        }
    }

    pub fn rpm_name(&self) -> (r: &str)
        ensures
            r@ == spec_rpm_name(*self),
            !(*self is Other) ==> rpm_arch_names().contains(r@),
            !(*self is Other) ==> spec_known_arch(r@) == Some(*self),
    {
        proof {
            lemma_known_arch_of_names();
        }
        match self {
            BuildArch::All => "noarch",
            BuildArch::x86_64 => "x86_64",
            BuildArch::x86 => "i386",
            BuildArch::Arm => "armel",
            BuildArch::Armv6h => "armv6hl",
            BuildArch::Armv7h => "armv7hl",
            BuildArch::Arm64 => "aarch64",
            BuildArch::Other(arch) => arch.as_str(),
        }
    }

    pub fn pkg_name(&self) -> (r: &str)
        ensures
            r@ == spec_pkg_name(*self),
            !(*self is Other) ==> pkg_arch_names().contains(r@),
            !(*self is Other) ==> spec_known_arch(r@) == Some(*self),
    {
        proof {
            lemma_known_arch_of_names();
        }
        match self {
            BuildArch::All => "any",
            BuildArch::x86_64 => "x86_64",
            BuildArch::x86 => "i386",
            BuildArch::Arm => "arm",
            BuildArch::Armv6h => "armv6h",
            BuildArch::Armv7h => "armv7h",
            BuildArch::Arm64 => "aarch64",
            BuildArch::Other(arch) => arch.as_str(),
        }
    }
}

/// The RPM name of a known architecture is one of the names RPM uses, and it reads back as
/// that architecture; so each known architecture has its own RPM name, and every name an
/// architecture is read from gives the same RPM name (`aarch64` and `arm64` both give
/// `aarch64`).
pub proof fn lemma_rpm_names(a: BuildArch, b: BuildArch, n: Seq<char>)
    ensures
        !(a is Other) ==> rpm_arch_names().contains(spec_rpm_name(a)),
        !(a is Other) ==> spec_known_arch(spec_rpm_name(a)) == Some(a),
        !(a is Other) && !(b is Other) && a != b ==> spec_rpm_name(a) != spec_rpm_name(b),
        spec_known_arch(n) == Some(a) ==> spec_known_arch(spec_rpm_name(a)) == Some(a)
            && rpm_arch_names().contains(spec_rpm_name(a)),
{
    lemma_known_arch_of_names();
}

/// The PKG name of a known architecture is one of the names pacman uses, and it reads back as
/// that architecture.
pub proof fn lemma_pkg_names(a: BuildArch)
    ensures
        !(a is Other) ==> pkg_arch_names().contains(spec_pkg_name(a)),
        !(a is Other) ==> spec_known_arch(spec_pkg_name(a)) == Some(a),
{
    lemma_known_arch_of_names();
}

} // verus!
