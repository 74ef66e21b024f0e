//! The machine that an install is for: its operating system and processor.

use vstd::prelude::*;
use crate::text::str_eq;

verus! {

/// An operating system, as far as manifests tell them apart.
#[derive(Clone, Copy, Debug, PartialEq, Eq, Structural)]
pub enum Os {
    Macos,
    Windows,
    Linux,
    /// Any system for which a manifest has no block.
    Other,
}

/// A processor architecture, as far as manifests tell them apart.
#[allow(non_camel_case_types)]
#[derive(Clone, Copy, Debug, PartialEq, Eq, Structural)]
pub enum Arch {
    X86,
    X86_64,
    Arm,
    Armv7,
    Aarch64,
    Mips,
    Mips64,
    Mips64el,
    Riscv64,
    /// Any architecture for which a manifest has no entry.
    Other,
}

/// The host of an install.
#[derive(Clone, Copy, Debug, PartialEq, Eq, Structural)]
pub struct Host {
    pub os: Os,
    pub arch: Arch,
}

/// The operating system that goes by `name`.
pub open spec fn os_named(name: Seq<char>) -> Os {
    if name == "macos"@ {
        Os::Macos
    } else if name == "windows"@ {
        Os::Windows
    } else if name == "linux"@ {
        Os::Linux
    } else {
        Os::Other
    }
}

/// The architecture that goes by `name`.
pub open spec fn arch_named(name: Seq<char>) -> Arch {
    if name == "x86"@ {
        Arch::X86
    } else if name == "x86_64"@ {
        Arch::X86_64
    } else if name == "arm"@ {
        Arch::Arm
    } else if name == "armv7"@ {
        Arch::Armv7
    } else if name == "aarch64"@ {
        Arch::Aarch64
    } else if name == "mips"@ {
        Arch::Mips
    } else if name == "mips64"@ {
        Arch::Mips64
    } else if name == "mips64el"@ {
        Arch::Mips64el
    } else if name == "riscv64"@ {
        Arch::Riscv64
    } else {
        Arch::Other
    }
}

impl Os {
    /// The operating system with the given name, as the compiler names its targets.
    pub fn from_name(name: &str) -> (r: Os)
        ensures
            r == os_named(name@),
    {
        if str_eq(name, "macos") {
            Os::Macos
        } else if str_eq(name, "windows") {
            Os::Windows
        } else if str_eq(name, "linux") {
            Os::Linux
        } else {
            Os::Other
        }
    }
}

impl Arch {
    /// The architecture with the given name, as the compiler names its targets.
    pub fn from_name(name: &str) -> (r: Arch)
        ensures
            r == arch_named(name@),
    {
        if str_eq(name, "x86") {
            Arch::X86
        } else if str_eq(name, "x86_64") {
            Arch::X86_64
        } else if str_eq(name, "arm") {
            Arch::Arm
        } else if str_eq(name, "armv7") {
            Arch::Armv7
        } else if str_eq(name, "aarch64") {
            Arch::Aarch64
        } else if str_eq(name, "mips") {
            Arch::Mips
        } else if str_eq(name, "mips64") {
            Arch::Mips64
        } else if str_eq(name, "mips64el") {
            Arch::Mips64el
        } else if str_eq(name, "riscv64") {
            Arch::Riscv64
        } else {
            Arch::Other
        }
    }
}

impl Host {
    /// The host with the given names of system and architecture.
    pub fn from_names(os: &str, arch: &str) -> (r: Host)
        ensures
            r == (Host { os: os_named(os@), arch: arch_named(arch@) }),
    {
        Host { os: Os::from_name(os), arch: Arch::from_name(arch) }
    }
}

} // verus!
