//! Operating systems of build images as the command line tool names them, with their version,
//! and their package managers.

use crate::recipe::metadata::os::str_views;
use crate::strmap::str_eq;
use vstd::prelude::*;

verus! {

#[derive(Debug, Clone, PartialEq, Eq, Structural)]
pub enum PackageManager {
    Apt,
    Dnf,
    Pacman,
    Yum,
    Unknown,
}

pub open spec fn spec_pm_name(pm: PackageManager) -> Seq<char> {
    match pm {
        PackageManager::Apt => "apt-get"@,
        PackageManager::Dnf => "dnf"@,
        PackageManager::Pacman => "pacman"@,
        PackageManager::Yum => "yum"@,
        PackageManager::Unknown => ""@,
    }
}

pub open spec fn spec_install_args(pm: PackageManager) -> Seq<Seq<char>> {
    match pm {
        PackageManager::Apt | PackageManager::Dnf | PackageManager::Yum => seq!["install"@, "-y"@],
        PackageManager::Pacman => seq!["-S"@],
        PackageManager::Unknown => seq![],
    }
}

pub open spec fn spec_update_repos_args(pm: PackageManager) -> Seq<Seq<char>> {
    match pm {
        PackageManager::Apt => seq!["update"@, "-y"@],
        PackageManager::Dnf | PackageManager::Yum => seq!["clean"@, "metadata"@],
        PackageManager::Pacman => seq!["-Sy"@],
        PackageManager::Unknown => seq![],
    }
}

pub open spec fn spec_upgrade_packages_args(pm: PackageManager) -> Seq<Seq<char>> {
    match pm {
        PackageManager::Apt => seq!["dist-upgrade"@, "-y"@],
        PackageManager::Dnf | PackageManager::Yum => seq!["update"@, "-y"@],
        PackageManager::Pacman => seq!["-Syu"@],
        PackageManager::Unknown => seq![],
    }
}

impl PackageManager {
    /// The command of the package manager; empty when it is unknown.
    pub fn as_ref(&self) -> (r: &'static str)
        ensures
            r@ == spec_pm_name(*self),
    {
        proof {
            reveal_strlit("");
        }
        match self {
            Self::Apt => "apt-get",
            Self::Dnf => "dnf",
            Self::Pacman => "pacman",
            Self::Yum => "yum",
            Self::Unknown => "",
        }
    }

    pub fn install_args(&self) -> (r: Vec<&'static str>)
        ensures
            str_views(r@) == spec_install_args(*self),
            *self is Apt || *self is Dnf || *self is Yum ==> str_views(r@) == seq![
                "install"@,
                "-y"@,
            ],
            *self is Pacman ==> str_views(r@) == seq!["-S"@],
    {
        let r = match self {
            Self::Apt => vec!["install", "-y"],
            Self::Dnf => vec!["install", "-y"],
            Self::Pacman => vec!["-S"],
            Self::Yum => vec!["install", "-y"],
            Self::Unknown => vec![],
        };
        assert(str_views(r@) =~= spec_install_args(*self));
        r
    }

    pub fn update_repos_args(&self) -> (r: Vec<&'static str>)
        ensures
            str_views(r@) == spec_update_repos_args(*self),
    {
        let r = match self {
            Self::Apt => vec!["update", "-y"],
            Self::Dnf | Self::Yum => vec!["clean", "metadata"],
            Self::Pacman => vec!["-Sy"],
            Self::Unknown => vec![],
        };
        assert(str_views(r@) =~= spec_update_repos_args(*self));
        r
    }

    pub fn upgrade_packages_args(&self) -> (r: Vec<&'static str>)
        ensures
            str_views(r@) == spec_upgrade_packages_args(*self),
    {
        let r = match self {
            Self::Apt => vec!["dist-upgrade", "-y"],
            Self::Dnf | Self::Yum => vec!["update", "-y"],
            Self::Pacman => vec!["-Syu"],
            Self::Unknown => vec![],
        };
        assert(str_views(r@) =~= spec_upgrade_packages_args(*self));
        r
    }
}

/// An operating system with its version.
#[derive(Debug, Clone)]
pub enum Os {
    Arch(String),
    Centos(String),
    Debian(String),
    Fedora(String),
    Redhat(String),
    Ubuntu(String),
    Unknown,
}

pub open spec fn spec_os_name(os: Os) -> Seq<char> {
    match os {
        Os::Arch(_) => "arch"@,
        Os::Centos(_) => "centos"@,
        Os::Debian(_) => "debian"@,
        Os::Fedora(_) => "fedora"@,
        Os::Redhat(_) => "redhat"@,
        Os::Ubuntu(_) => "ubuntu"@,
        Os::Unknown => "unknown"@,
    }
}

pub open spec fn spec_os_ver(os: Os) -> Seq<char> {
    match os {
        Os::Arch(v) | Os::Centos(v) | Os::Debian(v) | Os::Fedora(v) | Os::Redhat(v) | Os::Ubuntu(
            v,
        ) => v@,
        Os::Unknown => Seq::empty(),
    }
}

/// RedHat, CentOS and Fedora use dnf at version 8 and yum otherwise.
pub open spec fn spec_package_manager(os: Os) -> PackageManager {
    match os {
        Os::Arch(_) => PackageManager::Pacman,
        Os::Debian(_) | Os::Ubuntu(_) => PackageManager::Apt,
        Os::Redhat(v) | Os::Centos(v) | Os::Fedora(v) => if v@ == "8"@ {
            PackageManager::Dnf
        } else {
            PackageManager::Yum
        },
        Os::Unknown => PackageManager::Unknown,
    }
}

impl Os {
    pub fn as_ref(&self) -> (r: &'static str)
        ensures
            r@ == spec_os_name(*self),
    {
        match self {
            Os::Arch(_) => "arch",
            Os::Centos(_) => "centos",
            Os::Debian(_) => "debian",
            Os::Fedora(_) => "fedora",
            Os::Redhat(_) => "redhat",
            Os::Ubuntu(_) => "ubuntu",
            Os::Unknown => "unknown",
        }
    }

    /// The system named `os`, at `version` (empty when none is given).
    pub fn from(os: Option<String>, version: Option<String>) -> (r: Os)
        ensures
            match os {
                None => r == Os::Unknown,
                Some(n) => {
                    let v = match version {
                        Some(v) => v@,
                        None => Seq::<char>::empty(),
                    };
                    if n@ == "arch"@ || n@ == "centos"@ || n@ == "debian"@ || n@ == "fedora"@
                        || n@ == "redhat"@ {
                        spec_os_name(r) == n@ && spec_os_ver(r) == v
                    } else {
                        r == Os::Unknown
                    }
                },
            },
    {
        match os {
            None => Os::Unknown,
            Some(n) => {
                let version = match version {
                    Some(v) => v,
                    None => String::new(),
                };
                let name = n.as_str();
                if str_eq(name, "arch") {
                    Os::Arch(version)
                } else if str_eq(name, "centos") {
                    Os::Centos(version)
                } else if str_eq(name, "debian") {
                    Os::Debian(version)
                } else if str_eq(name, "fedora") {
                    Os::Fedora(version)
                } else if str_eq(name, "redhat") {
                    Os::Redhat(version)
                } else {
                    Os::Unknown
                }
            },
        }
    }

    /// The version of the system; empty when it is unknown.
    pub fn os_ver(&self) -> (r: &str)
        ensures
            r@ == spec_os_ver(*self),
    {
        proof {
            reveal_strlit("");
        }
        match self {
            Os::Arch(v) => v.as_str(),
            Os::Centos(v) => v.as_str(),
            Os::Debian(v) => v.as_str(),
            Os::Fedora(v) => v.as_str(),
            Os::Redhat(v) => v.as_str(),
            Os::Ubuntu(v) => v.as_str(),
            Os::Unknown => "",
        }
    }

    pub fn package_manager(&self) -> (r: PackageManager)
        ensures
            r == spec_package_manager(*self),
    {
        match self {
            Os::Arch(_) => PackageManager::Pacman,
            Os::Debian(_) => PackageManager::Apt,
            Os::Ubuntu(_) => PackageManager::Apt,
            Os::Redhat(v) => if str_eq(v.as_str(), "8") {
                PackageManager::Dnf
            } else {
                PackageManager::Yum
            },
            Os::Centos(v) => if str_eq(v.as_str(), "8") {
                PackageManager::Dnf
            } else {
                PackageManager::Yum
            },
            Os::Fedora(v) => if str_eq(v.as_str(), "8") {
                PackageManager::Dnf
            } else {
                PackageManager::Yum
            },
            Os::Unknown => PackageManager::Unknown,
        }
    }
}

} // verus!
