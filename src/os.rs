//! The operating systems the tool knows by name.

use crate::text::same_text;
use vstd::prelude::*;

verus! {

/// An operating system, as named by Rust's target `OS` constant.
#[derive(Debug, Clone, Copy, PartialEq, Eq)]
pub enum OsKind {
    /// Linux or other Unix-like systems using the linux target.
    Linux,
    /// Apple macOS.
    Macos,
    /// Microsoft Windows.
    Windows,
    /// Any other system, under its own name.
    Unknown(&'static str),
}

/// The short name of an operating system.
pub open spec fn os_name(os: OsKind) -> Seq<char> {
    match os {
        OsKind::Linux => "linux"@,
        OsKind::Macos => "macos"@,
        OsKind::Windows => "windows"@,
        OsKind::Unknown(s) => s@,
    }
}

/// The operating system that the name `name` stands for.
pub open spec fn os_from_name(name: &'static str) -> OsKind {
    if name@ == "linux"@ {
        OsKind::Linux
    } else if name@ == "macos"@ {
        OsKind::Macos
    } else if name@ == "windows"@ {
        OsKind::Windows
    } else {
        OsKind::Unknown(name)
    }
}

impl OsKind {
    /// The operating system that the target name `name` stands for.
    pub fn from_name(name: &'static str) -> (r: OsKind)
        ensures
            r == os_from_name(name),
    {
        if same_text(name, "linux") {
            OsKind::Linux
        } else if same_text(name, "macos") {
            OsKind::Macos
        } else if same_text(name, "windows") {
            OsKind::Windows
        } else {
            OsKind::Unknown(name)
        }
    }

    /// Whether this platform is Unix-like (Linux or macOS).
    pub fn is_unix(&self) -> (r: bool)
        ensures
            r == (*self is Linux || *self is Macos),
    {
        match self {
            OsKind::Linux | OsKind::Macos => true,
            _ => false,
        }
    }

    /// A short, human-readable name for the OS.
    pub fn as_str(&self) -> (r: &'static str)
        ensures
            r@ == os_name(*self),
    {
        match self {
            OsKind::Linux => "linux",
            OsKind::Macos => "macos",
            OsKind::Windows => "windows",
            OsKind::Unknown(s) => s,
        }
    }
}

} // verus!
