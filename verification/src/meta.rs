//! Operating systems and their versions, as named in reports and on the
//! command line.

use crate::decimal::{decimal, render};
use vstd::prelude::*;
use vstd::string::StringExecFns;

verus! {

/// A macOS release, known by its major version.
#[derive(Debug, PartialEq, Eq, Clone, Structural)]
pub struct MacosVersion {
    pub major: u32,
}

/// A Windows release, known by its major version.
#[derive(Debug, PartialEq, Eq, Clone, Structural)]
pub struct WindowsVersion {
    pub major: u32,
}

/// An operating system together with what is known of its version.
#[derive(Debug, PartialEq, Eq, Clone, Structural)]
pub enum OsVersion {
    Linux,
    Macos(MacosVersion),
    Windows(WindowsVersion),
}

/// An operating system family.
#[derive(Debug, PartialEq, Eq, Clone, Copy, Structural)]
pub enum Os {
    Linux,
    Macos,
    Windows,
}

/// A name that stands for no known operating system.
#[derive(Debug, Clone)]
pub struct UnknownOs {
    pub name: String,
}

impl OsVersion {
    /// The text shown for this version: the family's name, followed for
    /// macOS and Windows by a space and the major version in decimal.
    pub open spec fn text(self) -> Seq<char> {
        match self {
            OsVersion::Linux => "Linux"@,
            OsVersion::Macos(version) => "macOS "@ + decimal(version.major as nat),
            OsVersion::Windows(version) => "Windows "@ + decimal(version.major as nat),
        }
    }

    /// Writes the version as it is shown to a reader.
    pub fn to_string(&self) -> (shown: String)
        ensures
            shown@ == self.text(),
    {
        match self {
            OsVersion::Linux => String::from_str("Linux"),
            OsVersion::Macos(version) => {
                let number = render(version.major);
                String::from_str("macOS ").concat(number.as_str())
            },
            OsVersion::Windows(version) => {
                let number = render(version.major);
                String::from_str("Windows ").concat(number.as_str())
            },
        }
    }
}

impl Os {
    /// The name shown for this family.
    pub open spec fn text(self) -> Seq<char> {
        match self {
            Os::Linux => "Linux"@,
            Os::Macos => "macOS"@,
            Os::Windows => "Windows"@,
        }
    }

    /// The lower-case name by which this family is chosen.
    pub open spec fn keyword(self) -> Seq<char> {
        match self {
            Os::Linux => "linux"@,
            Os::Macos => "macos"@,
            Os::Windows => "windows"@,
        }
    }

    /// The family that `name` chooses, if it is the keyword of one.
    pub open spec fn named(name: Seq<char>) -> Option<Os> {
        if name == Os::Linux.keyword() {
            Some(Os::Linux)
        } else if name == Os::Macos.keyword() {
            Some(Os::Macos)
        } else if name == Os::Windows.keyword() {
            Some(Os::Windows)
        } else {
            None
        }
    }

    /// Writes the family's name as it is shown to a reader.
    pub fn to_string(&self) -> (shown: String)
        ensures
            shown@ == self.text(),
    {
        match self {
            Os::Linux => String::from_str("Linux"),
            Os::Macos => String::from_str("macOS"),
            Os::Windows => String::from_str("Windows"),
        }
    }

    /// Reads a family from its keyword. Any other text is handed back in the
    /// error.
    pub fn from_str(s: &str) -> (parsed: Result<Os, UnknownOs>)
        ensures
            match parsed {
                Ok(os) => Os::named(s@) == Some(os),
                Err(unknown) => Os::named(s@).is_none() && unknown.name@ == s@,
            },
    {
        let name = String::from_str(s);
        if name == String::from_str("linux") {
            Ok(Os::Linux)
        } else if name == String::from_str("macos") {
            Ok(Os::Macos)
        } else if name == String::from_str("windows") {
            Ok(Os::Windows)
        } else {
            Err(UnknownOs { name })
        }
    }
}

/// Each family is chosen by its own keyword, and by no other family's.
pub proof fn keyword_names_family(os: Os)
    ensures
        Os::named(os.keyword()) == Some(os),
{
    reveal_strlit("linux");
    reveal_strlit("macos");
    reveal_strlit("windows");
    assert("linux"@[0] == 'l');
    assert("macos"@[0] == 'm');
    assert("windows"@[0] == 'w');
}

impl UnknownOs {
    /// The text of the complaint: a fixed opening and the rejected name.
    pub open spec fn text(self) -> Seq<char> {
        "unknown os "@ + self.name@
    }

    /// Writes the complaint as it is shown to a reader.
    pub fn to_string(&self) -> (shown: String)
        ensures
            shown@ == self.text(),
    {
        String::from_str("unknown os ").concat(self.name.as_str())
    }
}

} // verus!
