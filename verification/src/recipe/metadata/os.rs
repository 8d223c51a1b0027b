//! Operating systems of build images and the package managers they use.

use crate::text::{
    chars_of, contains_infix, contains_infix_exec, parse_u8, spec_parse_u8, spec_to_lowercase,
    to_lowercase,
};
use crate::value::ParseError;
use vstd::prelude::*;

verus! {

/// The views of a list of string slices.
pub open spec fn str_views(v: Seq<&str>) -> Seq<Seq<char>> {
    v.map_values(|x: &str| x@)
}

#[allow(clippy::upper_case_acronyms)]
#[derive(Copy, Clone, Debug, PartialEq, Eq, Hash)]
pub enum Distro {
    Arch,
    CentOS,
    Debian,
    Fedora,
    RedHat,
    Ubuntu,
    Rocky,
    Alpine,
    Unknown,
}

/// The lowercase name of a distribution.
pub open spec fn spec_distro_name(d: Distro) -> Seq<char> {
    match d {
        Distro::Arch => "arch"@,
        Distro::CentOS => "centos"@,
        Distro::Debian => "debian"@,
        Distro::Fedora => "fedora"@,
        Distro::RedHat => "redhat"@,
        Distro::Ubuntu => "ubuntu"@,
        Distro::Rocky => "rocky"@,
        Distro::Alpine => "alpine"@,
        Distro::Unknown => "unknown"@,
    }
}

/// The distribution named in a lowercased system description: the first of the known names,
/// in this order, that occurs in it.
pub open spec fn spec_distro_in(l: Seq<char>) -> Distro {
    if contains_infix(l, "arch"@) {
        Distro::Arch
    } else if contains_infix(l, "centos"@) {
        Distro::CentOS
    } else if contains_infix(l, "debian"@) {
        Distro::Debian
    } else if contains_infix(l, "fedora"@) {
        Distro::Fedora
    } else if contains_infix(l, "redhat"@) || contains_infix(l, "red hat"@) {
        Distro::RedHat
    } else if contains_infix(l, "ubuntu"@) {
        Distro::Ubuntu
    } else if contains_infix(l, "rocky"@) {
        Distro::Rocky
    } else if contains_infix(l, "alpine"@) {
        Distro::Alpine
    } else {
        Distro::Unknown
    }
}

impl Distro {
    pub fn as_ref(&self) -> (r: &'static str)
        ensures
            r@ == spec_distro_name(*self),
    {
        match self {
            Distro::Arch => "arch",
            Distro::CentOS => "centos",
            Distro::Debian => "debian",
            Distro::Fedora => "fedora",
            Distro::RedHat => "redhat",
            Distro::Ubuntu => "ubuntu",
            Distro::Rocky => "rocky",
            Distro::Alpine => "alpine",
            Distro::Unknown => "unknown",
        }
    }

    /// Recognizes a distribution in a system description, ignoring case.
    pub fn from_name(s: &str) -> (d: Distro)
        ensures
            d == spec_distro_in(spec_to_lowercase(s@)),
    {
        let lower = to_lowercase(s);
        let l = chars_of(lower.as_str());
        if contains_infix_exec(&l, &chars_of("arch")) {
            Distro::Arch
        } else if contains_infix_exec(&l, &chars_of("centos")) {
            Distro::CentOS
        } else if contains_infix_exec(&l, &chars_of("debian")) {
            Distro::Debian
        } else if contains_infix_exec(&l, &chars_of("fedora")) {
            Distro::Fedora
        } else if contains_infix_exec(&l, &chars_of("redhat")) {
            Distro::RedHat
        } else if contains_infix_exec(&l, &chars_of("red hat")) {
            Distro::RedHat
        } else if contains_infix_exec(&l, &chars_of("ubuntu")) {
            Distro::Ubuntu
        } else if contains_infix_exec(&l, &chars_of("rocky")) {
            Distro::Rocky
        } else if contains_infix_exec(&l, &chars_of("alpine")) {
            Distro::Alpine
        } else {
            Distro::Unknown
        }
    }
}

#[derive(Debug, Clone, PartialEq, Eq, Hash)]
pub struct Os {
    distribution: Distro,
    version: Option<String>,
}

pub struct SpecOs {
    pub distribution: Distro,
    pub version: Option<Seq<char>>,
}

impl View for Os {
    type V = SpecOs;

    closed spec fn view(&self) -> SpecOs {
        SpecOs {
            distribution: self.distribution,
            version: match &self.version {
                Some(v) => Some(v@),
                None => None,
            },
        }
    }
}

#[derive(Debug, Clone, Copy, PartialEq, Eq)]
pub enum PackageManager {
    Apt,
    Dnf,
    Pacman,
    Yum,
    Apk,
    Unknown,
}

/// The version of a system as text; empty when unknown.
pub open spec fn spec_version_text(os: SpecOs) -> Seq<char> {
    match os.version {
        Some(v) => v,
        None => Seq::empty(),
    }
}

/// The major version number read from the version text; 0 when the text is not a number
/// from 0 to 255.
pub open spec fn spec_version_number(os: SpecOs) -> u8 {
    match spec_parse_u8(spec_version_text(os)) {
        Some(n) => n,
        None => 0,
    }
}

/// The package manager of a system: `dnf` on Rocky and on Red Hat and CentOS from version 8,
/// and on Fedora from version 22; `yum` on older Red Hat, CentOS and Fedora.
pub open spec fn spec_package_manager(os: SpecOs) -> PackageManager {
    let v = spec_version_number(os);
    match os.distribution {
        Distro::Arch => PackageManager::Pacman,
        Distro::Debian | Distro::Ubuntu => PackageManager::Apt,
        Distro::Rocky => PackageManager::Dnf,
        Distro::RedHat | Distro::CentOS => if v >= 8 {
            PackageManager::Dnf
        } else {
            PackageManager::Yum
        },
        Distro::Fedora => if v >= 22 {
            PackageManager::Dnf
        } else {
            PackageManager::Yum
        },
        Distro::Alpine => PackageManager::Apk,
        Distro::Unknown => PackageManager::Unknown,
    }
}

impl Os {
    /// The system whose distribution is recognized in `os`, with the version given; an error
    /// when `os` names no known distribution.
    pub fn new(os: &str, version: Option<String>) -> (r: Result<Os, ParseError>)
        ensures
            spec_distro_in(spec_to_lowercase(os@)) == Distro::Unknown ==> r == Err::<
                Os,
                ParseError,
            >(ParseError::UnknownOs),
            spec_distro_in(spec_to_lowercase(os@)) != Distro::Unknown ==> (r matches Ok(o) && o@
                == (SpecOs {
                distribution: spec_distro_in(spec_to_lowercase(os@)),
                version: match version {
                    Some(v) => Some(v@),
                    None => None::<Seq<char>>,
                },
            })),
    {
        let distribution = Distro::from_name(os);
        match distribution {
            Distro::Unknown => Err(ParseError::UnknownOs),
            _ => Ok(Os { distribution, version }),
        }
    }

    pub fn version(&self) -> (r: &str)
        ensures
            r@ == spec_version_text(self@),
    {
        match &self.version {
            Some(version) => version.as_str(),
            None => {
                proof {
                    reveal_strlit("");
                }
                ""
            },
        }
    }

    pub fn name(&self) -> (r: &'static str)
        ensures
            r@ == spec_distro_name(self@.distribution),
    {
        self.distribution.as_ref()
    }

    pub fn package_manager(&self) -> (pm: PackageManager)
        ensures
            pm == spec_package_manager(self@),
            self@.distribution == Distro::CentOS || self@.distribution == Distro::RedHat ==> if spec_version_number(self@) < 8 {
                pm == PackageManager::Yum
            } else {
                pm == PackageManager::Dnf
            },
            self@.distribution == Distro::Fedora ==> if spec_version_number(self@) < 22 {
                pm == PackageManager::Yum
            } else {
                pm == PackageManager::Dnf
            },
            self@.distribution == Distro::Rocky ==> pm == PackageManager::Dnf,
    {
        let version: u8 = match parse_u8(self.version()) {
            Some(v) => v,
            None => 0,
        };
        match self.distribution {
            Distro::Arch => PackageManager::Pacman,
            Distro::Debian | Distro::Ubuntu => PackageManager::Apt,
            Distro::Rocky => PackageManager::Dnf,
            Distro::RedHat if version >= 8 => PackageManager::Dnf,
            Distro::CentOS if version >= 8 => PackageManager::Dnf,
            Distro::Fedora if version >= 22 => PackageManager::Dnf,
            Distro::RedHat | Distro::CentOS | Distro::Fedora => PackageManager::Yum,
            Distro::Alpine => PackageManager::Apk,
            Distro::Unknown => PackageManager::Unknown,
        }
    }

    pub fn is_unknown(&self) -> (b: bool)
        ensures
            b == (self@.distribution == Distro::Unknown),
    {
        match self.distribution {
            Distro::Unknown => true,
            _ => false,
        }
    }
}

pub open spec fn spec_pm_name(pm: PackageManager) -> Seq<char> {
    match pm {
        PackageManager::Apt => "apt-get"@,
        PackageManager::Dnf => "dnf"@,
        PackageManager::Pacman => "pacman"@,
        PackageManager::Yum => "yum"@,
        PackageManager::Apk => "apk"@,
        PackageManager::Unknown => "unkown"@,
    }
}

pub open spec fn spec_install_args(pm: PackageManager) -> Seq<Seq<char>> {
    match pm {
        PackageManager::Apt => seq!["install"@, "-y"@],
        PackageManager::Dnf => seq!["install"@, "-y"@],
        PackageManager::Pacman => seq!["-S"@, "--noconfirm"@],
        PackageManager::Yum => seq!["install"@, "-y"@],
        PackageManager::Apk => seq!["add"@],
        PackageManager::Unknown => seq![],
    }
}

pub open spec fn spec_update_repos_args(pm: PackageManager) -> Seq<Seq<char>> {
    match pm {
        PackageManager::Apt => seq!["update"@, "-y"@],
        PackageManager::Dnf | PackageManager::Yum => seq!["clean"@, "metadata"@],
        PackageManager::Pacman => seq!["-Sy"@, "--noconfirm"@],
        PackageManager::Apk => seq!["update"@],
        PackageManager::Unknown => seq![],
    }
}

pub open spec fn spec_upgrade_packages_args(pm: PackageManager) -> Seq<Seq<char>> {
    match pm {
        PackageManager::Apt => seq!["dist-upgrade"@, "-y"@],
        PackageManager::Dnf | PackageManager::Yum => seq!["update"@, "-y"@],
        PackageManager::Pacman => seq!["-Syu"@, "--noconfirm"@],
        PackageManager::Apk => seq!["upgrade"@],
        PackageManager::Unknown => seq![],
    }
}

pub open spec fn spec_clean_cache_args(pm: PackageManager) -> Seq<Seq<char>> {
    match pm {
        PackageManager::Apt => seq!["clean"@],
        PackageManager::Dnf | PackageManager::Yum => seq!["clean"@, "metadata"@],
        PackageManager::Pacman => seq!["-Sc"@],
        PackageManager::Apk => seq!["cache"@, "clean"@],
        PackageManager::Unknown => seq![],
    }
}

impl PackageManager {
    /// The command of the package manager.
    pub fn as_ref(&self) -> (r: &'static str)
        ensures
            r@ == spec_pm_name(*self),
    {
        match self {
            Self::Apt => "apt-get",
            Self::Dnf => "dnf",
            Self::Pacman => "pacman",
            Self::Yum => "yum",
            Self::Apk => "apk",
            Self::Unknown => "unkown",
        }
    }

    pub fn install_args(&self) -> (r: Vec<&'static str>)
        ensures
            str_views(r@) == spec_install_args(*self),
    {
        let r = match self {
            Self::Apt => vec!["install", "-y"],
            Self::Dnf => vec!["install", "-y"],
            Self::Pacman => vec!["-S", "--noconfirm"],
            Self::Yum => vec!["install", "-y"],
            Self::Apk => vec!["add"],
            Self::Unknown => vec![],
        };
        assert(str_views(r@) =~= spec_install_args(*self));
        r
    }

    pub fn update_repos_args(&self) -> (r: Vec<&'static str>)
        ensures
            str_views(r@) == spec_update_repos_args(*self),
    {
        let r = match self {
            Self::Apt => vec!["update", "-y"],
            Self::Dnf | Self::Yum => vec!["clean", "metadata"],
            Self::Pacman => vec!["-Sy", "--noconfirm"],
            Self::Apk => vec!["update"],
            Self::Unknown => vec![],
        };
        assert(str_views(r@) =~= spec_update_repos_args(*self));
        r
    }

    pub fn upgrade_packages_args(&self) -> (r: Vec<&'static str>)
        ensures
            str_views(r@) == spec_upgrade_packages_args(*self),
    {
        let r = match self {
            Self::Apt => vec!["dist-upgrade", "-y"],
            Self::Dnf | Self::Yum => vec!["update", "-y"],
            Self::Pacman => vec!["-Syu", "--noconfirm"],
            Self::Apk => vec!["upgrade"],
            Self::Unknown => vec![],
        };
        assert(str_views(r@) =~= spec_upgrade_packages_args(*self));
        r
    }

    pub fn clean_cache(&self) -> (r: Vec<&'static str>)
        ensures
            str_views(r@) == spec_clean_cache_args(*self),
    {
        let r = match self {
            Self::Apt => vec!["clean"],
            Self::Dnf | Self::Yum => vec!["clean", "metadata"],
            Self::Pacman => vec!["-Sc"],
            Self::Apk => vec!["cache", "clean"],
            Self::Unknown => vec![],
        };
        assert(str_views(r@) =~= spec_clean_cache_args(*self));
        r
    }

    /// Every package manager but `apk` has its cache cleaned after installing.
    pub fn should_clean_cache(&self) -> (b: bool)
        ensures
            b == (*self != PackageManager::Apk),
    {
        match self {
            Self::Apk => false,
            _ => true,
        }
    }
}

/// Which package manager a system uses, by its version: Red Hat and CentOS use yum before
/// version 8 and dnf from 8 on, Fedora yum before 22 and dnf from 22 on, Rocky always dnf,
/// Debian and Ubuntu apt, Arch pacman and Alpine apk.
pub proof fn lemma_package_manager_by_version(os: SpecOs)
    ensures
        os.distribution == Distro::CentOS || os.distribution == Distro::RedHat ==> if spec_version_number(os) < 8 {
            spec_package_manager(os) == PackageManager::Yum
        } else {
            spec_package_manager(os) == PackageManager::Dnf
        },
        os.distribution == Distro::Fedora ==> if spec_version_number(os) < 22 {
            spec_package_manager(os) == PackageManager::Yum
        } else {
            spec_package_manager(os) == PackageManager::Dnf
        },
        os.distribution == Distro::Rocky ==> spec_package_manager(os) == PackageManager::Dnf,
        os.distribution == Distro::Debian || os.distribution == Distro::Ubuntu
            ==> spec_package_manager(os) == PackageManager::Apt,
        os.distribution == Distro::Arch ==> spec_package_manager(os) == PackageManager::Pacman,
        os.distribution == Distro::Alpine ==> spec_package_manager(os) == PackageManager::Apk,
{
}

} // verus!
