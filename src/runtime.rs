use vstd::prelude::*;
use crate::artifact::RawFile;
use crate::errors::SyncError;
use crate::platform::{OperatingSystem, OsName, same_text};

verus! {

/// `time::OffsetDateTime`, the release time of a runtime or a game version;
/// only carried, never read.
#[verifier::external_type_specification]
#[verifier::external_body]
pub struct ExOffsetDateTime(time::OffsetDateTime);

/// The kinds of Java runtime that the runtime manifest publishes.
#[derive(Debug, Clone, Copy, PartialEq, Eq, Hash, Structural)]
pub enum RequestType {
    JavaRuntimeAlpha,
    JavaRuntimeBeta,
    JavaRuntimeGamma,
    JreLegacy,
    MinecraftJavaExe,
}

/// A runtime kind as the newer manifest names it, with room for kinds that
/// are not known yet.
#[derive(Debug, Clone, PartialEq, Eq, Hash)]
pub enum VersionType {
    JavaRuntimeAlpha,
    JavaRuntimeBeta,
    JavaRuntimeGamma,
    JavaRuntimeGammaSnapshot,
    Legacy,
    MinecraftJavaExe,
    Unknown(String),
}

/// Two runtime kinds are the same kind (unknown kinds by their names).
pub open spec fn same_version_type(a: VersionType, b: VersionType) -> bool {
    match (a, b) {
        (VersionType::Unknown(x), VersionType::Unknown(y)) => x@ == y@,
        (VersionType::Unknown(_), _) => false,
        (_, VersionType::Unknown(_)) => false,
        _ => a == b,
    }
}

impl VersionType {
    /// Whether `other` is the same kind.
    pub fn is_same(&self, other: &VersionType) -> (r: bool)
        ensures
            r == same_version_type(*self, *other),
    {
        match (self, other) {
            (VersionType::Unknown(x), VersionType::Unknown(y)) => *x == *y,
            (VersionType::JavaRuntimeAlpha, VersionType::JavaRuntimeAlpha) => true,
            (VersionType::JavaRuntimeBeta, VersionType::JavaRuntimeBeta) => true,
            (VersionType::JavaRuntimeGamma, VersionType::JavaRuntimeGamma) => true,
            (VersionType::JavaRuntimeGammaSnapshot, VersionType::JavaRuntimeGammaSnapshot) => true,
            (VersionType::Legacy, VersionType::Legacy) => true,
            (VersionType::MinecraftJavaExe, VersionType::MinecraftJavaExe) => true,
            _ => false,
        }
    }
}

/// The name and release time of a runtime.
#[derive(Debug)]
pub struct RuntimeVersion {
    pub name: String,
    pub released: time::OffsetDateTime,
}

/// One published runtime: where its file list is, and its version.
#[derive(Debug)]
pub struct RuntimeData {
    pub manifest: RawFile,
    pub version: RuntimeVersion,
}

/// The runtimes published for one platform, by kind. Kinds are unique.
pub type RuntimeTable<K> = Vec<(K, Vec<RuntimeData>)>;

/// The runtime manifest: one table per platform branch.
#[derive(Debug)]
pub struct JreManifest {
    pub linux: RuntimeTable<RequestType>,
    pub linux_i386: RuntimeTable<RequestType>,
    pub mac_os: RuntimeTable<RequestType>,
    pub mac_os_arm64: RuntimeTable<RequestType>,
    pub windows: RuntimeTable<RequestType>,
    pub windows_32: RuntimeTable<RequestType>,
    pub windows_arm: RuntimeTable<RequestType>,
}

/// The branches of the runtime manifest.
#[derive(Debug, Clone, Copy, PartialEq, Eq, Structural)]
pub enum PlatformBranch {
    Linux,
    LinuxI386,
    MacOs,
    MacOsArm64,
    Windows,
    Windows32,
    WindowsArm,
}

/// The branch that serves a platform, if one does.
pub open spec fn branch_for(p: OperatingSystem) -> Option<PlatformBranch> {
    let a = p.spec_arch();
    match p.spec_name() {
        OsName::Linux => if a == "x86_64"@ {
            Some(PlatformBranch::Linux)
        } else if a == "x86"@ {
            Some(PlatformBranch::LinuxI386)
        } else {
            None
        },
        OsName::MacOs => if a == "x86_64"@ {
            Some(PlatformBranch::MacOs)
        } else if a == "aarch64"@ {
            Some(PlatformBranch::MacOsArm64)
        } else {
            None
        },
        OsName::Windows => if a == "x86_64"@ {
            Some(PlatformBranch::Windows)
        } else if a == "x86"@ {
            Some(PlatformBranch::Windows32)
        } else if a == "aarch64"@ {
            Some(PlatformBranch::WindowsArm)
        } else {
            None
        },
        OsName::Unknown => None,
    }
}

/// Chooses the manifest branch for a platform; `UnsupportedPlatform` when no
/// branch serves it.
pub fn platform_branch(p: &OperatingSystem) -> (r: Result<PlatformBranch, SyncError>)
    ensures
        r matches Ok(b) ==> branch_for(*p) == Some(b),
        r is Err ==> branch_for(*p) is None && r == Err::<PlatformBranch, SyncError>(SyncError::UnsupportedPlatform),
{
    let a = p.arch();
    let found = match p.name() {
        OsName::Linux => if same_text(a, "x86_64") {
            Some(PlatformBranch::Linux)
        } else if same_text(a, "x86") {
            Some(PlatformBranch::LinuxI386)
        } else {
            None
        },
        OsName::MacOs => if same_text(a, "x86_64") {
            Some(PlatformBranch::MacOs)
        } else if same_text(a, "aarch64") {
            Some(PlatformBranch::MacOsArm64)
        } else {
            None
        },
        OsName::Windows => if same_text(a, "x86_64") {
            Some(PlatformBranch::Windows)
        } else if same_text(a, "x86") {
            Some(PlatformBranch::Windows32)
        } else if same_text(a, "aarch64") {
            Some(PlatformBranch::WindowsArm)
        } else {
            None
        },
        OsName::Unknown => None,
    };
    match found {
        Some(b) => Ok(b),
        None => Err(SyncError::UnsupportedPlatform),
    }
}

/// The URL of the first runtime listed under the first entry of `kind`, if
/// that entry exists and lists one.
pub open spec fn lookup_url(table: Seq<(RequestType, Vec<RuntimeData>)>, kind: RequestType) -> Option<Seq<char>>
    decreases table.len(),
{
    if table.len() == 0 {
        None
    } else if table[0].0 == kind {
        if table[0].1@.len() > 0 {
            Some(table[0].1@[0].manifest.url@)
        } else {
            None
        }
    } else {
        lookup_url(table.subrange(1, table.len() as int), kind)
    }
}

fn table_url(table: &RuntimeTable<RequestType>, kind: RequestType) -> (r: Result<String, SyncError>)
    ensures
        r matches Ok(u) ==> lookup_url(table@, kind) == Some(u@),
        r is Err ==> lookup_url(table@, kind) is None && r == Err::<String, SyncError>(SyncError::NoRuntimeAvailable),
{
    let mut i: usize = 0;
    assert(table@.subrange(0, table@.len() as int) =~= table@);
    while i < table.len()
        invariant
            i <= table@.len(),
            lookup_url(table@, kind) == lookup_url(table@.subrange(i as int, table@.len() as int), kind),
        decreases table@.len() - i,
    {
        let ghost rest = table@.subrange(i as int, table@.len() as int);
        proof {
            assert(rest[0] == table@[i as int]);
            assert(rest.subrange(1, rest.len() as int) =~= table@.subrange(i as int + 1, table@.len() as int));
        }
        if table[i].0 == kind {
            if table[i].1.len() > 0 {
                return Ok(table[i].1[0].manifest.url.clone());
            }
            return Err(SyncError::NoRuntimeAvailable);
        }
        i = i + 1;
    }
    Err(SyncError::NoRuntimeAvailable)
}

impl JreManifest {
    pub open spec fn table(&self, b: PlatformBranch) -> Seq<(RequestType, Vec<RuntimeData>)> {
        match b {
            PlatformBranch::Linux => self.linux@,
            PlatformBranch::LinuxI386 => self.linux_i386@,
            PlatformBranch::MacOs => self.mac_os@,
            PlatformBranch::MacOsArm64 => self.mac_os_arm64@,
            PlatformBranch::Windows => self.windows@,
            PlatformBranch::Windows32 => self.windows_32@,
            PlatformBranch::WindowsArm => self.windows_arm@,
        }
    }

    /// The URL of the file list of the runtime of `request_type` for
    /// `platform`: the first runtime listed for that kind in the platform's
    /// branch. `UnsupportedPlatform` when no branch serves the platform,
    /// `NoRuntimeAvailable` when the branch lists no such runtime.
    pub fn get_runtime_url(&self, platform: &OperatingSystem, request_type: RequestType) -> (r: Result<String, SyncError>)
        ensures
            r matches Ok(u) ==> branch_for(*platform) matches Some(b) && lookup_url(self.table(b), request_type) == Some(u@),
            r == Err::<String, SyncError>(SyncError::UnsupportedPlatform) <==> branch_for(*platform) is None,
            r == Err::<String, SyncError>(SyncError::NoRuntimeAvailable) <==> (branch_for(*platform) matches Some(b) && lookup_url(self.table(b), request_type) is None),
            r is Ok || r == Err::<String, SyncError>(SyncError::UnsupportedPlatform) || r == Err::<String, SyncError>(SyncError::NoRuntimeAvailable),
    {
        let branch = match platform_branch(platform) {
            Ok(b) => b,
            Err(e) => return Err(e),
        };
        let table = match branch {
            PlatformBranch::Linux => &self.linux,
            PlatformBranch::LinuxI386 => &self.linux_i386,
            PlatformBranch::MacOs => &self.mac_os,
            PlatformBranch::MacOsArm64 => &self.mac_os_arm64,
            PlatformBranch::Windows => &self.windows,
            PlatformBranch::Windows32 => &self.windows_32,
            PlatformBranch::WindowsArm => &self.windows_arm,
        };
        table_url(table, request_type)
    }
}

/// The newer runtime manifest, which publishes runtimes for 64-bit Linux.
#[derive(Debug)]
pub struct VersionsManifest {
    pub linux: RuntimeTable<VersionType>,
}

/// Like `lookup_url`, for tables keyed by `VersionType`.
pub open spec fn lookup_version_url(table: Seq<(VersionType, Vec<RuntimeData>)>, kind: VersionType) -> Option<Seq<char>>
    decreases table.len(),
{
    if table.len() == 0 {
        None
    } else if same_version_type(table[0].0, kind) {
        if table[0].1@.len() > 0 {
            Some(table[0].1@[0].manifest.url@)
        } else {
            None
        }
    } else {
        lookup_version_url(table.subrange(1, table.len() as int), kind)
    }
}

impl VersionsManifest {
    /// The URL of the file list of the runtime of `version_type`: the first
    /// one listed for that kind. Only 64-bit Linux is served
    /// (`UnsupportedPlatform` elsewhere); `NoRuntimeAvailable` when the
    /// table lists no such runtime.
    pub fn get_runtime_url(&self, platform: &OperatingSystem, version_type: &VersionType) -> (r: Result<String, SyncError>)
        ensures
            r matches Ok(u) ==> branch_for(*platform) == Some(PlatformBranch::Linux) && lookup_version_url(self.linux@, *version_type) == Some(u@),
            r == Err::<String, SyncError>(SyncError::UnsupportedPlatform) <==> branch_for(*platform) != Some(PlatformBranch::Linux),
            r == Err::<String, SyncError>(SyncError::NoRuntimeAvailable) <==> (branch_for(*platform) == Some(PlatformBranch::Linux) && lookup_version_url(self.linux@, *version_type) is None),
            r is Ok || r == Err::<String, SyncError>(SyncError::UnsupportedPlatform) || r == Err::<String, SyncError>(SyncError::NoRuntimeAvailable),
    {
        match platform_branch(platform) {
            Ok(PlatformBranch::Linux) => {},
            _ => return Err(SyncError::UnsupportedPlatform),
        }
        let table = &self.linux;
        let mut i: usize = 0;
        assert(table@.subrange(0, table@.len() as int) =~= table@);
        while i < table.len()
            invariant
                i <= table@.len(),
                branch_for(*platform) == Some(PlatformBranch::Linux),
                table@ == self.linux@,
                lookup_version_url(table@, *version_type) == lookup_version_url(table@.subrange(i as int, table@.len() as int), *version_type),
            decreases table@.len() - i,
        {
            let ghost rest = table@.subrange(i as int, table@.len() as int);
            proof {
                assert(rest[0] == table@[i as int]);
                assert(rest.subrange(1, rest.len() as int) =~= table@.subrange(i as int + 1, table@.len() as int));
            }
            if table[i].0.is_same(version_type) {
                if table[i].1.len() > 0 {
                    return Ok(table[i].1[0].manifest.url.clone());
                }
                return Err(SyncError::NoRuntimeAvailable);
            }
            i = i + 1;
        }
        Err(SyncError::NoRuntimeAvailable)
    }
}

} // verus!
