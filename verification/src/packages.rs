//! System package managers: which are known, and what they are asked to run.

use vstd::prelude::*;
use vstd::string::*;
use crate::error::Error;
use crate::text::{is_word, views};

verus! {

/// What running a package manager gave.
#[derive(Debug, Clone, PartialEq, Eq)]
pub struct PackageManagerResult {
    pub success: bool,
    pub stdout: String,
    pub stderr: String,
}

/// The package managers that are known.
#[derive(Debug, Clone, Copy, PartialEq, Eq, Structural)]
pub enum PackageManager {
    Brew,
    Apt,
    Dnf,
    Pacman,
}

/// The package manager of a name, where the name is known.
pub open spec fn manager_of(name: Seq<char>) -> Option<PackageManager> {
    if name == "brew"@ {
        Some(PackageManager::Brew)
    } else if name == "apt"@ {
        Some(PackageManager::Apt)
    } else if name == "dnf"@ {
        Some(PackageManager::Dnf)
    } else if name == "pacman"@ {
        Some(PackageManager::Pacman)
    } else {
        None
    }
}

/// Finds the package manager of a name.
pub fn package_manager(name: &String) -> (r: Option<PackageManager>)
    ensures
        r == manager_of(name@),
{
    if is_word(name, "brew") {
        Some(PackageManager::Brew)
    } else if is_word(name, "apt") {
        Some(PackageManager::Apt)
    } else if is_word(name, "dnf") {
        Some(PackageManager::Dnf)
    } else if is_word(name, "pacman") {
        Some(PackageManager::Pacman)
    } else {
        None
    }
}

/// The words of the command that installs a package.
pub open spec fn install_words(manager: PackageManager, package: Seq<char>) -> Seq<Seq<char>> {
    match manager {
        PackageManager::Brew => seq!["brew"@, "install"@, package],
        PackageManager::Apt => seq!["sudo"@, "apt"@, "install"@, "-y"@, package],
        PackageManager::Dnf => seq!["sudo"@, "dnf"@, "install"@, "-y"@, package],
        PackageManager::Pacman => seq!["sudo"@, "pacman"@, "-S"@, "--noconfirm"@, package],
    }
}

/// The words of the command that tells whether a package is installed.
pub open spec fn query_words(manager: PackageManager, package: Seq<char>) -> Seq<Seq<char>> {
    match manager {
        PackageManager::Brew => seq!["brew"@, "list"@, package],
        PackageManager::Apt => seq!["dpkg"@, "-l"@, package],
        PackageManager::Dnf => seq!["dnf"@, "list"@, "installed"@, package],
        PackageManager::Pacman => seq!["pacman"@, "-Q"@, package],
    }
}

/// The words of the command that tells whether a package manager is there.
pub open spec fn probe_words(manager: PackageManager) -> Seq<Seq<char>> {
    match manager {
        PackageManager::Brew => seq!["brew"@, "--version"@],
        PackageManager::Apt => seq!["apt"@, "--version"@],
        PackageManager::Dnf => seq!["dnf"@, "--version"@],
        PackageManager::Pacman => seq!["pacman"@, "--version"@],
    }
}

fn words(fixed: &Vec<&str>, last: Option<&str>) -> (r: Vec<String>)
    ensures
        r@.len() == fixed@.len() + (if last.is_some() {
            1int
        } else {
            0int
        }),
        forall|i: int| 0 <= i < fixed@.len() ==> r@[i]@ == fixed@[i]@,
        last.is_some() ==> r@[fixed@.len() as int]@ == last.unwrap()@,
{
    let mut r: Vec<String> = Vec::new();
    let mut i: usize = 0;
    while i < fixed.len()
        invariant
            i <= fixed@.len(),
            r@.len() == i,
            forall|j: int| 0 <= j < i ==> r@[j]@ == fixed@[j]@,
        decreases fixed@.len() - i,
    {
        r.push(String::from_str(fixed[i]));
        i = i + 1;
    }
    match last {
        Some(w) => {
            r.push(String::from_str(w));
        },
        None => {},
    }
    r
}

impl PackageManager {
    /// The command that installs a package: the program first, then its arguments.
    pub fn install_command(&self, package: &str) -> (r: Vec<String>)
        ensures
            views(r@) == install_words(*self, package@),
    {
        let fixed: Vec<&str> = match self {
            PackageManager::Brew => vec!["brew", "install"],
            PackageManager::Apt => vec!["sudo", "apt", "install", "-y"],
            PackageManager::Dnf => vec!["sudo", "dnf", "install", "-y"],
            PackageManager::Pacman => vec!["sudo", "pacman", "-S", "--noconfirm"],
        };
        let r = words(&fixed, Some(package));
        assert(views(r@) =~= install_words(*self, package@));
        r
    }

    /// The command that tells whether a package is installed.
    pub fn query_command(&self, package: &str) -> (r: Vec<String>)
        ensures
            views(r@) == query_words(*self, package@),
    {
        let fixed: Vec<&str> = match self {
            PackageManager::Brew => vec!["brew", "list"],
            PackageManager::Apt => vec!["dpkg", "-l"],
            PackageManager::Dnf => vec!["dnf", "list", "installed"],
            PackageManager::Pacman => vec!["pacman", "-Q"],
        };
        let r = words(&fixed, Some(package));
        assert(views(r@) =~= query_words(*self, package@));
        r
    }

    /// The command that tells whether the package manager is there.
    pub fn probe_command(&self) -> (r: Vec<String>)
        ensures
            views(r@) == probe_words(*self),
    {
        let fixed: Vec<&str> = match self {
            PackageManager::Brew => vec!["brew", "--version"],
            PackageManager::Apt => vec!["apt", "--version"],
            PackageManager::Dnf => vec!["dnf", "--version"],
            PackageManager::Pacman => vec!["pacman", "--version"],
        };
        let r = words(&fixed, None);
        assert(views(r@) =~= probe_words(*self));
        r
    }
}

/// The package manager of a name, or the failure that an unknown name gives.
pub fn known_package_manager(name: &String) -> (r: Result<PackageManager, Error>)
    ensures
        match r {
            Ok(m) => manager_of(name@) == Some(m),
            Err(e) => manager_of(name@).is_none() && (e is PackageManager) && e.detail() == "Unsupported package manager"@,
        },
{
    match package_manager(name) {
        Some(m) => Ok(m),
        None => Err(Error::PackageManager(String::from_str("Unsupported package manager"))),
    }
}

} // verus!
