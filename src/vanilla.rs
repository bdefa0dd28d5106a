use vstd::prelude::*;
use crate::minecraft::{McVersionManifest, McVersionType, McVersionsList, Version};

verus! {

/// Which game version a builder asks for.
#[derive(Debug, Clone)]
enum VanillaVersionType {
    Latest,
    Version(String),
}

/// Chooses a game version from the list of versions.
#[derive(Debug, Clone)]
pub struct VanillaVersionBuilder {
    version: VanillaVersionType,
    snapshot: bool,
}

/// Why no version could be chosen.
#[derive(Debug, Clone, Copy, PartialEq, Eq, Structural)]
pub enum VanillaVersionError {
    VersionNotFound,
}

/// The position of the first version with this id, if any.
pub open spec fn first_with_id(versions: Seq<Version>, id: Seq<char>, i: int) -> bool {
    0 <= i < versions.len() && versions[i].id@ == id && forall|k: int| 0 <= k < i ==> (#[trigger] versions[k]).id@ != id
}

impl VanillaVersionBuilder {
    /// The id asked for, or `None` for the latest release.
    pub closed spec fn spec_requested(&self) -> Option<Seq<char>> {
        match self.version {
            VanillaVersionType::Latest => None,
            VanillaVersionType::Version(v) => Some(v@),
        }
    }

    /// The id this builder chooses from a list.
    pub open spec fn spec_wanted(&self, list: McVersionsList) -> Seq<char> {
        match self.spec_requested() {
            Some(v) => v,
            None => list.latest.release@,
        }
    }

    /// A builder for the version with this id.
    pub fn new(version: &str) -> (r: VanillaVersionBuilder)
        ensures
            r.spec_requested() == Some(version@),
    {
        VanillaVersionBuilder { version: VanillaVersionType::Version(version.to_owned()), snapshot: false }
    }

    /// A builder for the latest release.
    pub fn latest() -> (r: VanillaVersionBuilder)
        ensures
            r.spec_requested() is None,
    {
        VanillaVersionBuilder { version: VanillaVersionType::Latest, snapshot: false }
    }

    /// The position in `list` of the version asked for: the first entry
    /// with the requested id, or with the latest release's id.
    pub fn select(&self, list: &McVersionsList) -> (r: Result<usize, VanillaVersionError>)
        ensures
            r matches Ok(i) ==> first_with_id(list.versions@, self.spec_wanted(*list), i as int),
            r is Err <==> forall|k: int| 0 <= k < list.versions@.len() ==> (#[trigger] list.versions@[k]).id@ != self.spec_wanted(*list),
    {
        let wanted: &String = match &self.version {
            VanillaVersionType::Latest => &list.latest.release,
            VanillaVersionType::Version(v) => v,
        };
        let mut i: usize = 0;
        while i < list.versions.len()
            invariant
                i <= list.versions@.len(),
                wanted@ == self.spec_wanted(*list),
                forall|k: int| 0 <= k < i ==> (#[trigger] list.versions@[k]).id@ != wanted@,
            decreases list.versions@.len() - i,
        {
            if list.versions[i].id == *wanted {
                return Ok(i);
            }
            i = i + 1;
        }
        Err(VanillaVersionError::VersionNotFound)
    }
}

/// What the launcher needs of a game version.
pub trait MinecraftVersion {
    fn id(&self) -> &String;

    fn name(&self) -> &String;

    fn is_snapshot(&self) -> bool;

    fn json_url(&self) -> &String;

    fn manifest(&self) -> &McVersionManifest;
}

/// A chosen vanilla version with its manifest.
#[derive(Debug)]
pub struct VanillaVersion {
    name: String,
    id: String,
    version: McVersionManifest,
    snapshot: bool,
    json_url: String,
}

impl VanillaVersion {
    pub closed spec fn spec_name(&self) -> Seq<char> {
        self.name@
    }

    pub closed spec fn spec_id(&self) -> Seq<char> {
        self.id@
    }

    pub closed spec fn spec_snapshot(&self) -> bool {
        self.snapshot
    }

    pub closed spec fn spec_json_url(&self) -> Seq<char> {
        self.json_url@
    }

    /// The version of a list entry with its manifest, named
    /// `Vanilla <id>`; a snapshot when the entry's channel is snapshot.
    pub fn from_entry(entry: &Version, manifest: McVersionManifest) -> (r: VanillaVersion)
        ensures
            r.spec_name() == "Vanilla "@ + entry.id@,
            r.spec_id() == entry.id@,
            r.spec_snapshot() == (entry.version_type == McVersionType::Snapshot),
            r.spec_json_url() == entry.url@,
    {
        let mut name = "Vanilla ".to_owned();
        vstd::string::StringExecFns::append(&mut name, entry.id.as_str());
        VanillaVersion {
            name,
            id: entry.id.clone(),
            version: manifest,
            snapshot: entry.version_type == McVersionType::Snapshot,
            json_url: entry.url.clone(),
        }
    }
}

impl MinecraftVersion for VanillaVersion {
    fn id(&self) -> &String {
        &self.id
    }

    fn name(&self) -> &String {
        &self.name
    }

    fn is_snapshot(&self) -> bool {
        self.snapshot
    }

    fn json_url(&self) -> &String {
        &self.json_url
    }

    fn manifest(&self) -> &McVersionManifest {
        &self.version
    }
}

} // verus!
