//! The host platform and the release asset built for it.

use vstd::prelude::*;
use vstd::string::*;

verus! {

/// Operating system of the host. `Unknown` stands for every system that has
/// no release of its own.
#[derive(Clone, Copy, Debug, PartialEq, Eq, Structural)]
pub enum Os {
    MacOs,
    Linux,
    Windows,
    Unknown,
}

/// CPU architecture of the host. Only these have releases.
#[derive(Clone, Copy, Debug, PartialEq, Eq, Structural)]
pub enum Arch {
    X86_64,
    Aarch64,
}

/// The operating system that a system name, as the standard library reports
/// it, stands for.
pub open spec fn os_of_name(name: Seq<char>) -> Os {
    if name == "macos"@ {
        Os::MacOs
    } else if name == "linux"@ {
        Os::Linux
    } else if name == "windows"@ {
        Os::Windows
    } else {
        Os::Unknown
    }
}

/// The architecture that an architecture name stands for, if it has releases.
pub open spec fn arch_of_name(name: Seq<char>) -> Option<Arch> {
    if name == "x86_64"@ {
        Some(Arch::X86_64)
    } else if name == "aarch64"@ {
        Some(Arch::Aarch64)
    } else {
        None
    }
}

/// The architecture part of an asset's name.
pub open spec fn arch_part(arch: Arch) -> Seq<char> {
    match arch {
        Arch::X86_64 => "x86_64"@,
        Arch::Aarch64 => "aarch64"@,
    }
}

/// The target triple's tail for a system. A system without a release of its
/// own takes the statically linked Linux build.
pub open spec fn os_triple(os: Os) -> Seq<char> {
    match os {
        Os::MacOs => "apple-darwin"@,
        Os::Windows => "pc-windows-gnu"@,
        Os::Linux | Os::Unknown => "unknown-linux-musl"@,
    }
}

/// Name of the release archive: `serverbee-web-<arch>-<triple>.zip`.
pub open spec fn asset_filename(os: Os, arch: Arch) -> Seq<char> {
    "serverbee-web-"@ + arch_part(arch) + "-"@ + os_triple(os) + ".zip"@
}

/// The character that separates path components on a system.
pub open spec fn separator(os: Os) -> Seq<char> {
    match os {
        Os::Windows => "\\"@,
        _ => "/"@,
    }
}

/// `dir`, the system's separator, then `name`.
pub open spec fn child_path(dir: Seq<char>, name: Seq<char>, os: Os) -> Seq<char> {
    dir + separator(os) + name
}

impl Os {
    /// Reads a system name such as `"linux"`. Any other name than the three
    /// that have releases gives `Unknown`.
    pub fn from_name(name: &str) -> (r: Os)
        ensures
            r == os_of_name(name@),
    {
        let given = String::from_str(name);
        if given == String::from_str("macos") {
            Os::MacOs
        } else if given == String::from_str("linux") {
            Os::Linux
        } else if given == String::from_str("windows") {
            Os::Windows
        } else {
            Os::Unknown
        }
    }

    /// Whether the system has a release of its own.
    pub fn is_known(&self) -> (r: bool)
        ensures
            r == (*self != Os::Unknown),
    {
        match self {
            Os::Unknown => false,
            _ => true,
        }
    }
}

impl Arch {
    /// Reads an architecture name such as `"x86_64"`; `None` for one
    /// without releases.
    pub fn from_name(name: &str) -> (r: Option<Arch>)
        ensures
            r == arch_of_name(name@),
    {
        let given = String::from_str(name);
        if given == String::from_str("x86_64") {
            Some(Arch::X86_64)
        } else if given == String::from_str("aarch64") {
            Some(Arch::Aarch64)
        } else {
            None
        }
    }
}

/// Joins a directory and a name with the system's separator.
pub fn join_path(dir: &str, name: &str, os: Os) -> (r: String)
    ensures
        r@ == child_path(dir@, name@, os),
{
    let sep = match os {
        Os::Windows => "\\",
        _ => "/",
    };
    String::from_str(dir).concat(sep).concat(name)
}

/// Every asset name starts with the product and the architecture and ends
/// with the system's triple and `.zip`.
pub proof fn filename_has_arch_prefix_and_triple_suffix(os: Os, arch: Arch)
    ensures
        ("serverbee-web-"@ + arch_part(arch)).is_prefix_of(asset_filename(os, arch)),
        (os_triple(os) + ".zip"@).is_suffix_of(asset_filename(os, arch)),
{
    let head = "serverbee-web-"@ + arch_part(arch);
    let tail = os_triple(os) + ".zip"@;
    let whole = asset_filename(os, arch);
    assert(whole =~= head + ("-"@ + tail));
    assert(whole.subrange(0, head.len() as int) =~= head);
    assert(whole =~= (head + "-"@) + tail);
    assert(whole.subrange(whole.len() - tail.len(), whole.len() as int) =~= tail);
}

/// Two supported platforms never share an asset name.
pub proof fn filename_is_unique(os1: Os, arch1: Arch, os2: Os, arch2: Arch)
    requires
        os1 != Os::Unknown,
        os2 != Os::Unknown,
        asset_filename(os1, arch1) == asset_filename(os2, arch2),
    ensures
        os1 == os2,
        arch1 == arch2,
{
    reveal_strlit("x86_64");
    reveal_strlit("aarch64");
    reveal_strlit("apple-darwin");
    reveal_strlit("pc-windows-gnu");
    reveal_strlit("unknown-linux-musl");
    let a = asset_filename(os1, arch1);
    let b = asset_filename(os2, arch2);
    assert(a.len() == "serverbee-web-"@.len() + arch_part(arch1).len() + "-"@.len() + os_triple(
        os1,
    ).len() + ".zip"@.len());
    assert(b.len() == "serverbee-web-"@.len() + arch_part(arch2).len() + "-"@.len() + os_triple(
        os2,
    ).len() + ".zip"@.len());
}

/// A system without a release of its own resolves to the Linux asset of the
/// same architecture.
pub proof fn unknown_os_falls_back_to_linux(arch: Arch)
    ensures
        asset_filename(Os::Unknown, arch) == asset_filename(Os::Linux, arch),
{
}

} // verus!
