use vstd::prelude::*;
use vstd::string::{StrSliceExecFns, StringExecFns};
use crate::artifact::{ArtifactDescriptor, FileType, RawFile};
use crate::platform::{OperatingSystem, OsName};
use crate::rules::{OsRule, duplicate_rules, evaluate, rules_allow, same_rules};

verus! {

/// Where game assets are served from.
pub const RESOURCES_BASE: &'static str = "https://resources.download.minecraft.net";

/// The release channel of a game version.
#[derive(Debug, Clone, Copy, PartialEq, Eq, Structural)]
pub enum McVersionType {
    Release,
    Snapshot,
    OldBeta,
    OldAlpha,
}

/// The newest release and snapshot ids.
#[derive(Debug, Clone)]
pub struct Latest {
    pub release: String,
    pub snapshot: String,
}

/// One entry of the list of game versions.
#[derive(Debug)]
pub struct Version {
    pub id: String,
    pub version_type: McVersionType,
    pub url: String,
    pub time: time::OffsetDateTime,
    pub release_time: time::OffsetDateTime,
}

/// The list of game versions.
#[derive(Debug)]
pub struct McVersionsList {
    pub latest: Latest,
    pub versions: Vec<Version>,
}

/// A condition on launcher features, for game arguments.
#[derive(Debug, Clone)]
pub struct GameRule {
    pub action: String,
    pub features: Vec<(String, bool)>,
}

/// A launch argument, given outright or under rules.
#[derive(Debug, Clone)]
pub enum Argument<Rule> {
    Simple(String),
    Conditional { rules: Vec<Rule>, value: Vec<String> },
}

/// The launch arguments of a version.
#[derive(Debug, Clone)]
pub struct Arguments {
    pub game: Vec<Argument<GameRule>>,
    pub jvm: Vec<Argument<OsRule>>,
}

/// The asset index of a version.
#[derive(Debug, Clone)]
pub struct AssetIndexArtifact {
    pub id: String,
    pub sha1: String,
    pub size: u64,
    pub total_size: u64,
    pub url: String,
}

/// A downloadable file: digest, size and location.
#[derive(Debug, Clone)]
pub struct Artifact {
    pub sha1: String,
    pub size: u64,
    pub url: String,
}

/// A downloadable file with the path it is stored under.
#[derive(Debug, Clone)]
pub struct ArtifactFile {
    pub path: String,
    pub artifact: Artifact,
}

/// The downloads of a version.
#[derive(Debug, Clone)]
pub struct Downloads {
    pub client: Artifact,
}

/// The Java runtime a version asks for.
#[derive(Debug, Clone)]
pub struct JavaVersion {
    pub component: String,
    pub major_version: u32,
}

impl Default for JavaVersion {
    /// The legacy runtime, Java 8, which versions that name none use.
    fn default() -> (r: JavaVersion)
        ensures
            r.component@ == "jre-legacy"@,
            r.major_version == 8,
    {
        JavaVersion { component: "jre-legacy".to_owned(), major_version: 8 }
    }
}

/// What to leave out when unpacking a library.
#[derive(Debug, Clone)]
pub struct Extract {
    pub exclude: Vec<String>,
}

/// The downloads of a library: its main file and its classifiers (native
/// variants by name; names unique).
#[derive(Debug, Clone)]
pub struct LibraryDownloads {
    pub artifact: Option<ArtifactFile>,
    pub classifiers: Option<Vec<(String, ArtifactFile)>>,
}

/// A library of a version.
#[derive(Debug, Clone)]
pub struct Library {
    pub downloads: LibraryDownloads,
    pub name: String,
    pub url: Option<String>,
    /// For each family with a native variant, the classifier naming it
    /// (families unique).
    pub natives: Vec<(OsName, String)>,
    pub extract: Option<Extract>,
    pub rules: Vec<OsRule>,
}

/// A logging configuration file.
#[derive(Debug, Clone)]
pub struct LoggingArtifact {
    pub id: String,
    pub artifact: Artifact,
}

/// The client's logging configuration.
#[derive(Debug, Clone)]
pub struct LoggingClient {
    pub argument: String,
    pub file: LoggingArtifact,
    pub log_type: String,
}

/// Logging information of a version.
#[derive(Debug, Clone)]
pub struct Logging {
    pub client: LoggingClient,
}

/// The manifest of one game version.
#[derive(Debug)]
pub struct McVersionManifest {
    pub arguments: Option<Arguments>,
    pub asset_index: AssetIndexArtifact,
    pub assets: String,
    pub compliance_level: u8,
    pub downloads: Downloads,
    pub id: String,
    pub java_version: JavaVersion,
    pub libraries: Vec<Library>,
    pub logging: Option<Logging>,
    pub main_class: String,
    pub minimum_launcher_version: u32,
    pub release_time: time::OffsetDateTime,
    pub time: time::OffsetDateTime,
    pub version_type: McVersionType,
    pub minecraft_arguments: Option<String>,
}

/// One asset: its digest, which also locates it on the server, and size.
#[derive(Debug, Clone)]
pub struct AssetObject {
    pub hash: String,
    pub size: u64,
}

/// The asset index: every asset by name (names unique).
#[derive(Debug, Clone)]
pub struct AssetsList {
    pub objects: Vec<(String, AssetObject)>,
}

/// A file to download: where it goes under the game folder, where it comes
/// from, its size and its digest.
#[derive(Debug, Clone)]
pub struct DownloadInfo {
    pub path: String,
    pub url: String,
    pub size: u64,
    pub sha1: String,
}

impl DownloadInfo {
    /// The descriptor of this file under the given rules.
    pub fn into_descriptor(self, rules: Vec<OsRule>) -> (r: ArtifactDescriptor)
        ensures
            r.relative_path@ == self.path@,
            r.kind == FileType::File,
            r.source matches Some(src) && src.sha1@ == self.sha1@ && src.url@ == self.url@ && src.size == self.size,
            r.symlink_target is None,
            !r.executable,
            r.rules == rules,
    {
        ArtifactDescriptor::file(self.path, self.url, self.sha1, self.size, rules)
    }
}

/// Whether a library applies on `os` (see `evaluate`).
pub fn check_libs_rules(library: &Library, os: &OperatingSystem) -> (r: bool)
    ensures
        r == rules_allow(library.rules@, *os),
{
    evaluate(&library.rules, os)
}

/// The text `a` followed by `b`.
fn joined(a: &str, b: &str) -> (r: String)
    ensures
        r@ == a@ + b@,
{
    let mut s = a.to_owned();
    s.append(b);
    s
}

/// The part of a path after its last `/`.
pub open spec fn last_segment(s: Seq<char>) -> Seq<char>
    decreases s.len(),
{
    if s.len() == 0 {
        s
    } else if s.last() == '/' {
        Seq::empty()
    } else {
        last_segment(s.drop_last()).push(s.last())
    }
}

proof fn lemma_last_segment_suffix(s: Seq<char>, i: int)
    requires
        0 <= i <= s.len(),
        forall|k: int| i <= k < s.len() ==> s[k] != '/',
    ensures
        last_segment(s) == last_segment(s.take(i)) + s.subrange(i, s.len() as int),
    decreases s.len() - i,
{
    if i < s.len() {
        lemma_last_segment_suffix(s, i + 1);
        assert(s.take(i + 1).drop_last() =~= s.take(i));
        assert(s.take(i + 1).last() == s[i]);
        assert(last_segment(s.take(i)).push(s[i]) + s.subrange(i + 1, s.len() as int) =~= last_segment(s.take(i)) + s.subrange(i, s.len() as int));
    } else {
        assert(s.take(i) =~= s);
        assert(s.subrange(i, s.len() as int) =~= Seq::<char>::empty());
        assert(last_segment(s.take(i)) + Seq::<char>::empty() =~= last_segment(s.take(i)));
    }
}

/// The file name of a path: what follows its last `/`.
pub fn file_name(path: &str) -> (r: &str)
    ensures
        r@ == last_segment(path@),
{
    let n = path.unicode_len();
    let mut i: usize = n;
    let mut found = false;
    while i > 0 && !found
        invariant
            i <= n,
            n == path@.len(),
            found ==> i > 0 && path@[i - 1] == '/',
            forall|k: int| i <= k < n ==> path@[k] != '/',
        decreases i + if found { 0int } else { 1int },
    {
        if path.get_char(i - 1) == '/' {
            found = true;
        } else {
            i = i - 1;
        }
    }
    proof {
        lemma_last_segment_suffix(path@, i as int);
        if i > 0 {
            assert(path@.take(i as int).last() == path@[i - 1]);
        } else {
            assert(path@.take(0) =~= Seq::<char>::empty());
        }
        assert(Seq::<char>::empty() + path@.subrange(i as int, n as int) =~= path@.subrange(i as int, n as int));
    }
    path.substring_char(i, n)
}

/// The path of a library's main file under the game folder.
pub open spec fn library_path(file: ArtifactFile) -> Seq<char> {
    "libraries/"@ + file.path@
}

impl Library {
    /// The descriptor of the library's main file, under a copy of the
    /// library's rules; `None` when it has none.
    pub fn artifact(&self) -> (r: Option<ArtifactDescriptor>)
        ensures
            self.downloads.artifact is None ==> r is None,
            self.downloads.artifact matches Some(file) ==> r matches Some(d) && {
                &&& d.relative_path@ == library_path(file)
                &&& d.kind == FileType::File
                &&& d.source matches Some(src) && src.sha1@ == file.artifact.sha1@ && src.url@ == file.artifact.url@
                    && src.size == file.artifact.size
                &&& d.symlink_target is None
                &&& same_rules(d.rules@, self.rules@)
            },
    {
        match &self.downloads.artifact {
            Some(file) => {
                let info = DownloadInfo {
                    path: joined("libraries/", file.path.as_str()),
                    url: file.artifact.url.clone(),
                    size: file.artifact.size,
                    sha1: file.artifact.sha1.clone(),
                };
                Some(info.into_descriptor(duplicate_rules(&self.rules)))
            },
            None => None,
        }
    }
}

/// The first value listed under a key.
pub open spec fn lookup<K, V>(entries: Seq<(K, V)>, key: K) -> Option<V>
    decreases entries.len(),
{
    if entries.len() == 0 {
        None
    } else if entries[0].0 == key {
        Some(entries[0].1)
    } else {
        lookup(entries.subrange(1, entries.len() as int), key)
    }
}

/// The classifier named for a family.
fn native_classifier(natives: &Vec<(OsName, String)>, name: OsName) -> (r: Option<&String>)
    ensures
        r matches Some(c) ==> lookup(natives@, name) == Some(*c),
        r is None ==> lookup(natives@, name) is None,
{
    let mut i: usize = 0;
    assert(natives@.subrange(0, natives@.len() as int) =~= natives@);
    while i < natives.len()
        invariant
            i <= natives@.len(),
            lookup(natives@, name) == lookup(natives@.subrange(i as int, natives@.len() as int), name),
        decreases natives@.len() - i,
    {
        let ghost rest = natives@.subrange(i as int, natives@.len() as int);
        proof {
            assert(rest[0] == natives@[i as int]);
            assert(rest.subrange(1, rest.len() as int) =~= natives@.subrange(i as int + 1, natives@.len() as int));
        }
        if natives[i].0 == name {
            return Some(&natives[i].1);
        }
        i = i + 1;
    }
    None
}

/// The first classifier entry of a given name, by the names' text.
pub open spec fn lookup_classifier(entries: Seq<(String, ArtifactFile)>, key: Seq<char>) -> Option<ArtifactFile>
    decreases entries.len(),
{
    if entries.len() == 0 {
        None
    } else if entries[0].0@ == key {
        Some(entries[0].1)
    } else {
        lookup_classifier(entries.subrange(1, entries.len() as int), key)
    }
}

fn find_classifier<'a>(entries: &'a Vec<(String, ArtifactFile)>, key: &String) -> (r: Option<&'a ArtifactFile>)
    ensures
        r matches Some(f) ==> lookup_classifier(entries@, key@) == Some(*f),
        r is None ==> lookup_classifier(entries@, key@) is None,
{
    let mut i: usize = 0;
    assert(entries@.subrange(0, entries@.len() as int) =~= entries@);
    while i < entries.len()
        invariant
            i <= entries@.len(),
            lookup_classifier(entries@, key@) == lookup_classifier(entries@.subrange(i as int, entries@.len() as int), key@),
        decreases entries@.len() - i,
    {
        let ghost rest = entries@.subrange(i as int, entries@.len() as int);
        proof {
            assert(rest[0] == entries@[i as int]);
            assert(rest.subrange(1, rest.len() as int) =~= entries@.subrange(i as int + 1, entries@.len() as int));
        }
        if entries[i].0 == *key {
            return Some(&entries[i].1);
        }
        i = i + 1;
    }
    None
}

/// The native variant of a library for a family: the classifier that the
/// library names for the family, if it lists one under that name.
pub open spec fn native_for(lib: Library, name: OsName) -> Option<ArtifactFile> {
    match (lookup(lib.natives@, name), lib.downloads.classifiers) {
        (Some(c), Some(cls)) => lookup_classifier(cls@, c@),
        _ => None,
    }
}

impl Library {
    /// The descriptor of the library's native variant for `os`, stored under
    /// `natives/` by its file name; `None` when the library has none for the
    /// platform's family.
    pub fn native_artifact(&self, os: &OperatingSystem) -> (r: Option<ArtifactDescriptor>)
        ensures
            native_for(*self, os.spec_name()) is None ==> r is None,
            native_for(*self, os.spec_name()) matches Some(file) ==> r matches Some(d) && {
                &&& d.relative_path@ == "natives/"@ + last_segment(file.path@)
                &&& d.kind == FileType::File
                &&& d.source matches Some(src) && src.sha1@ == file.artifact.sha1@ && src.url@ == file.artifact.url@
                    && src.size == file.artifact.size
                &&& d.symlink_target is None
                &&& d.rules@.len() == 0
            },
    {
        let classifier = match native_classifier(&self.natives, os.name()) {
            Some(c) => c,
            None => return None,
        };
        let classifiers = match &self.downloads.classifiers {
            Some(cls) => cls,
            None => return None,
        };
        let file = match find_classifier(classifiers, classifier) {
            Some(f) => f,
            None => return None,
        };
        let info = DownloadInfo {
            path: joined("natives/", file_name(file.path.as_str())),
            url: file.artifact.url.clone(),
            size: file.artifact.size,
            sha1: file.artifact.sha1.clone(),
        };
        Some(info.into_descriptor(Vec::new()))
    }
}

/// The first two characters of a text, or all of it when shorter.
pub open spec fn prefix2(s: Seq<char>) -> Seq<char> {
    if s.len() < 2 {
        s
    } else {
        s.take(2)
    }
}

/// Where an asset is served: the base, the first two digits of its digest,
/// then the digest.
pub open spec fn asset_url(hash: Seq<char>) -> Seq<char> {
    RESOURCES_BASE@ + "/"@ + prefix2(hash) + "/"@ + hash
}

impl AssetObject {
    /// The download of the asset called `name`: stored under
    /// `assets/objects/<name>`, served by its digest.
    pub fn download_info(&self, name: &str) -> (r: DownloadInfo)
        ensures
            r.path@ == "assets/objects/"@ + name@,
            r.url@ == asset_url(self.hash@),
            r.size == self.size,
            r.sha1@ == self.hash@,
    {
        let h = self.hash.as_str();
        let n = h.unicode_len();
        let prefix = if n < 2 {
            h
        } else {
            h.substring_char(0, 2)
        };
        proof {
            if n >= 2 {
                assert(prefix@ =~= prefix2(h@));
            }
        }
        let mut url = RESOURCES_BASE.to_owned();
        url.append("/");
        url.append(prefix);
        url.append("/");
        url.append(h);
        DownloadInfo { path: joined("assets/objects/", name), url, size: self.size, sha1: self.hash.clone() }
    }
}

/// A descriptor is the one of an asset index entry.
pub open spec fn asset_descriptor(d: ArtifactDescriptor, entry: (String, AssetObject)) -> bool {
    &&& d.relative_path@ == "assets/objects/"@ + entry.0@
    &&& d.kind == FileType::File
    &&& d.source matches Some(src) && src.sha1@ == entry.1.hash@ && src.url@ == asset_url(entry.1.hash@) && src.size == entry.1.size
    &&& d.symlink_target is None
    &&& d.rules@.len() == 0
}

impl AssetsList {
    /// One descriptor per asset, in index order (see `AssetObject::download_info`).
    pub fn artifacts(&self) -> (r: Vec<ArtifactDescriptor>)
        ensures
            r@.len() == self.objects@.len(),
            forall|i: int| 0 <= i < r@.len() ==> asset_descriptor(#[trigger] r@[i], self.objects@[i]),
    {
        let mut out: Vec<ArtifactDescriptor> = Vec::new();
        let mut i: usize = 0;
        while i < self.objects.len()
            invariant
                i <= self.objects@.len(),
                out@.len() == i,
                forall|k: int| 0 <= k < i ==> asset_descriptor(#[trigger] out@[k], self.objects@[k]),
            decreases self.objects@.len() - i,
        {
            let entry = &self.objects[i];
            let info = entry.1.download_info(entry.0.as_str());
            let d = info.into_descriptor(Vec::new());
            let ghost old_out = out@;
            out.push(d);
            proof {
                assert forall|k: int| 0 <= k < i + 1 implies asset_descriptor(#[trigger] out@[k], self.objects@[k]) by {
                    if k < i {
                        assert(out@[k] == old_out[k]);
                    } else {
                        assert(out@[k] == d);
                        assert(self.objects@[k] == *entry);
                    }
                }
            }
            i = i + 1;
        }
        out
    }
}

impl McVersionManifest {
    /// The download of the asset index: `assets/indexes/<id>.json`.
    pub fn asset_index_download(&self) -> (r: DownloadInfo)
        ensures
            r.path@ == "assets/indexes/"@ + self.asset_index.id@ + ".json"@,
            r.url@ == self.asset_index.url@,
            r.size == self.asset_index.size,
            r.sha1@ == self.asset_index.sha1@,
    {
        let mut path = joined("assets/indexes/", self.asset_index.id.as_str());
        path.append(".json");
        DownloadInfo {
            path,
            url: self.asset_index.url.clone(),
            size: self.asset_index.size,
            sha1: self.asset_index.sha1.clone(),
        }
    }

    /// The download of the client: `versions/<id>/<id>.jar`.
    pub fn client_download(&self) -> (r: DownloadInfo)
        ensures
            r.path@ == "versions/"@ + self.id@ + "/"@ + self.id@ + ".jar"@,
            r.url@ == self.downloads.client.url@,
            r.size == self.downloads.client.size,
            r.sha1@ == self.downloads.client.sha1@,
    {
        let mut path = joined("versions/", self.id.as_str());
        path.append("/");
        path.append(self.id.as_str());
        path.append(".jar");
        DownloadInfo {
            path,
            url: self.downloads.client.url.clone(),
            size: self.downloads.client.size,
            sha1: self.downloads.client.sha1.clone(),
        }
    }
}

} // verus!
