use vstd::prelude::*;

verus! {

/// Compares two strings by their characters.
pub fn same_text(a: &str, b: &str) -> (r: bool)
    ensures
        r == (a@ == b@),
{
    let x = a.to_owned();
    let y = b.to_owned();
    x == y
}

/// The operating system family of a platform.
#[derive(Debug, Clone, Copy, PartialEq, Eq, Hash, Structural)]
pub enum OsName {
    MacOs,
    Linux,
    Windows,
    Unknown,
}

/// The family that a `target_os` value (as in `std::env::consts::OS`) names.
pub open spec fn os_name_of(target_os: Seq<char>) -> OsName {
    if target_os == "macos"@ {
        OsName::MacOs
    } else if target_os == "linux"@ {
        OsName::Linux
    } else if target_os == "windows"@ {
        OsName::Windows
    } else {
        OsName::Unknown
    }
}

/// The text by which manifests name an operating system family.
pub open spec fn os_name_text(name: OsName) -> Seq<char> {
    match name {
        OsName::MacOs => "osx"@,
        OsName::Linux => "linux"@,
        OsName::Windows => "windows"@,
        OsName::Unknown => "unknown"@,
    }
}

impl OsName {
    /// The family of the host, given the host's `target_os` value
    /// (`std::env::consts::OS`).
    pub fn current(target_os: &str) -> (r: OsName)
        ensures
            r == os_name_of(target_os@),
    {
        if same_text(target_os, "macos") {
            OsName::MacOs
        } else if same_text(target_os, "linux") {
            OsName::Linux
        } else if same_text(target_os, "windows") {
            OsName::Windows
        } else {
            OsName::Unknown
        }
    }

    /// The name that manifests use for this family.
    pub fn as_str(&self) -> (r: &'static str)
        ensures
            r@ == os_name_text(*self),
    {
        match self {
            OsName::MacOs => "osx",
            OsName::Linux => "linux",
            OsName::Windows => "windows",
            OsName::Unknown => "unknown",
        }
    }
}

/// A platform: an operating system family and a CPU architecture.
#[derive(Debug, Clone, PartialEq, Eq, Hash)]
pub struct OperatingSystem {
    name: OsName,
    arch: String,
}

impl OperatingSystem {
    pub closed spec fn spec_name(&self) -> OsName {
        self.name
    }

    pub closed spec fn spec_arch(&self) -> Seq<char> {
        self.arch@
    }

    /// A platform of the given family and architecture, for targeting a
    /// platform other than the host.
    pub fn new(name: OsName, arch: String) -> (r: OperatingSystem)
        ensures
            r.spec_name() == name,
            r.spec_arch() == arch@,
    {
        OperatingSystem { name, arch }
    }

    /// The host platform, given the host's `target_os` and `target_arch`
    /// values (`std::env::consts::OS` and `std::env::consts::ARCH`).
    pub fn current(target_os: &str, target_arch: &str) -> (r: OperatingSystem)
        ensures
            r.spec_name() == os_name_of(target_os@),
            r.spec_arch() == target_arch@,
    {
        OperatingSystem { name: OsName::current(target_os), arch: target_arch.to_owned() }
    }

    pub fn name(&self) -> (r: OsName)
        ensures
            r == self.spec_name(),
    {
        self.name
    }

    pub fn name_str(&self) -> (r: &'static str)
        ensures
            r@ == os_name_text(self.spec_name()),
    {
        self.name.as_str()
    }

    pub fn arch(&self) -> (r: &str)
        ensures
            r@ == self.spec_arch(),
    {
        self.arch.as_str()
    }
}

} // verus!
