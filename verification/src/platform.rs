//! The platform a build must run on, and the flavour of build asked for.

use vstd::prelude::*;

verus! {

/// Operating system of the host.
#[derive(Clone, Copy, Debug, PartialEq, Eq, Structural)]
pub enum Os {
    Linux,
    Windows,
    MacOs,
    Other,
}

/// Processor architecture of the host.
#[allow(non_camel_case_types)]
#[derive(Clone, Copy, Debug, PartialEq, Eq, Structural)]
pub enum Arch {
    X86_64,
    X86,
    Arm64,
    Other,
}

/// Flavour of a build: `Extended` carries the Mono runtime, `Standard` does not.
#[derive(Clone, Copy, Debug, PartialEq, Eq, Structural)]
pub enum Variant {
    Standard,
    Extended,
}

/// The host a download is chosen for.
#[derive(Clone, Copy, Debug, PartialEq, Eq, Structural)]
pub struct PlatformTarget {
    pub os: Os,
    pub arch: Arch,
}

/// The token that marks an extended build in a file name.
pub open spec fn mono_marker() -> Seq<char> {
    "mono"@
}

/// The operating system that a name of the kind `std::env::consts::OS` stands for.
pub open spec fn os_named(name: Seq<char>) -> Os {
    if name == "linux"@ {
        Os::Linux
    } else if name == "windows"@ {
        Os::Windows
    } else if name == "macos"@ {
        Os::MacOs
    } else {
        Os::Other
    }
}

/// The architecture that a name of the kind `std::env::consts::ARCH` stands for.
pub open spec fn arch_named(name: Seq<char>) -> Arch {
    if name == "x86_64"@ {
        Arch::X86_64
    } else if name == "x86"@ {
        Arch::X86
    } else if name == "aarch64"@ {
        Arch::Arm64
    } else {
        Arch::Other
    }
}

fn same_text(a: &str, b: &str) -> (r: bool)
    ensures
        r == (a@ == b@),
{
    a.to_owned() == b.to_owned()
}

impl Variant {
    /// The variant that the flag "with Mono" selects.
    pub open spec fn of_mono(is_mono: bool) -> Variant {
        if is_mono {
            Variant::Extended
        } else {
            Variant::Standard
        }
    }

    /// Name of the directory that holds the installs of this variant.
    pub open spec fn directory_name(self) -> Seq<char> {
        match self {
            Variant::Standard => "standalone"@,
            Variant::Extended => "mono"@,
        }
    }

    pub fn from_mono(is_mono: bool) -> (v: Variant)
        ensures
            v == Variant::of_mono(is_mono),
    {
        if is_mono {
            Variant::Extended
        } else {
            Variant::Standard
        }
    }

    pub fn is_mono(&self) -> (r: bool)
        ensures
            r == (*self == Variant::Extended),
    {
        match self {
            Variant::Extended => true,
            Variant::Standard => false,
        }
    }

    pub fn directory(&self) -> (name: &'static str)
        ensures
            name@ == self.directory_name(),
    {
        match self {
            Variant::Standard => "standalone",
            Variant::Extended => "mono",
        }
    }
}

impl PlatformTarget {
    /// The token that the file name of a build for this platform carries, if
    /// builds for it are known.
    pub open spec fn file_token(self) -> Option<Seq<char>> {
        match (self.os, self.arch) {
            (Os::Linux, Arch::X86_64) => Some("linux_x86_64"@),
            (Os::Linux, Arch::X86) => Some("linux_x86_32"@),
            (Os::Windows, Arch::X86_64) => Some("win64"@),
            (Os::Windows, Arch::X86) => Some("win32"@),
            _ => None,
        }
    }

    /// Name of the environment variable that holds the directory for the
    /// data of applications: `APPDATA` on Windows, the home directory
    /// elsewhere.
    pub open spec fn data_variable(self) -> Seq<char> {
        match self.os {
            Os::Windows => "APPDATA"@,
            _ => "HOME"@,
        }
    }

    pub fn new(os: Os, arch: Arch) -> (p: PlatformTarget)
        ensures
            p.os == os,
            p.arch == arch,
    {
        PlatformTarget { os, arch }
    }

    /// The platform named by the two names that the standard library gives
    /// the host; any other name is `Other`.
    pub fn from_names(os: &str, arch: &str) -> (p: PlatformTarget)
        ensures
            p.os == os_named(os@),
            p.arch == arch_named(arch@),
    {
        let os_value = if same_text(os, "linux") {
            Os::Linux
        } else if same_text(os, "windows") {
            Os::Windows
        } else if same_text(os, "macos") {
            Os::MacOs
        } else {
            Os::Other
        };
        let arch_value = if same_text(arch, "x86_64") {
            Arch::X86_64
        } else if same_text(arch, "x86") {
            Arch::X86
        } else if same_text(arch, "aarch64") {
            Arch::Arm64
        } else {
            Arch::Other
        };
        PlatformTarget { os: os_value, arch: arch_value }
    }

    /// The file name token of this platform; `None` where no rule exists.
    pub fn token(&self) -> (t: Option<&'static str>)
        ensures
            match t {
                Some(text) => self.file_token() == Some(text@),
                None => self.file_token() is None,
            },
    {
        match (self.os, self.arch) {
            (Os::Linux, Arch::X86_64) => Some("linux_x86_64"),
            (Os::Linux, Arch::X86) => Some("linux_x86_32"),
            (Os::Windows, Arch::X86_64) => Some("win64"),
            (Os::Windows, Arch::X86) => Some("win32"),
            _ => None,
        }
    }

    /// Name of the environment variable that holds the directory below
    /// which the installs are kept.
    pub fn app_data_variable(&self) -> (name: &'static str)
        ensures
            name@ == self.data_variable(),
    {
        match self.os {
            Os::Windows => "APPDATA",
            _ => "HOME",
        }
    }

    /// Whether a file name rule exists for this platform.
    pub fn is_supported(&self) -> (r: bool)
        ensures
            r == self.file_token().is_some(),
    {
        self.token().is_some()
    }
}

} // verus!
