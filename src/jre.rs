use vstd::prelude::*;
use crate::artifact::{ArtifactDescriptor, JreFile};
use crate::runtime::VersionType;

verus! {

/// The file list of a runtime: each file by its path (paths unique).
#[derive(Debug, Clone)]
pub struct JreManifestFilesList {
    pub files: Vec<(String, JreFile)>,
}

/// A descriptor is the one of a file-list entry.
pub open spec fn jre_descriptor(d: ArtifactDescriptor, entry: (String, JreFile)) -> bool {
    &&& d.relative_path == entry.0
    &&& d.kind == entry.1.file_type
    &&& d.source == (match entry.1.downloads {
        Some(x) => Some(x.raw),
        None => None,
    })
    &&& d.symlink_target == entry.1.target
    &&& d.executable == entry.1.executable
    &&& d.rules@.len() == 0
}

impl JreManifestFilesList {
    /// One descriptor per file, in list order; runtime files apply on every
    /// platform.
    pub fn into_artifacts(self) -> (r: Vec<ArtifactDescriptor>)
        ensures
            r@.len() == self.files@.len(),
            forall|i: int| 0 <= i < r@.len() ==> jre_descriptor(#[trigger] r@[i], self.files@[i]),
    {
        let ghost all = self.files@;
        let mut files = self.files;
        let mut out: Vec<ArtifactDescriptor> = Vec::new();
        while files.len() > 0
            invariant
                out@.len() + files@.len() == all.len(),
                files@ == all.subrange(out@.len() as int, all.len() as int),
                forall|k: int| 0 <= k < out@.len() ==> jre_descriptor(#[trigger] out@[k], all[k]),
            decreases files@.len(),
        {
            let (path, file) = files.remove(0);
            let d = ArtifactDescriptor::from_jre_file(path, file);
            let ghost before = out@;
            out.push(d);
            proof {
                assert(files@ =~= all.subrange(out@.len() as int, all.len() as int));
                assert forall|k: int| 0 <= k < out@.len() implies jre_descriptor(#[trigger] out@[k], all[k]) by {
                    if k < before.len() {
                        assert(out@[k] == before[k]);
                    }
                }
            }
        }
        out
    }
}

/// A runtime to install: its kind and the folder it goes to.
#[derive(Debug, Clone)]
pub struct MojangJre {
    version_type: VersionType,
    path: String,
}

impl MojangJre {
    pub closed spec fn spec_version_type(&self) -> VersionType {
        self.version_type
    }

    pub closed spec fn spec_path(&self) -> Seq<char> {
        self.path@
    }

    /// A runtime of kind `version_type` to install under `path`.
    pub fn new(version_type: VersionType, path: &str) -> (r: MojangJre)
        ensures
            r.spec_version_type() == version_type,
            r.spec_path() == path@,
    {
        MojangJre { version_type, path: path.to_owned() }
    }

    pub fn version_type(&self) -> (r: &VersionType)
        ensures
            *r == self.spec_version_type(),
    {
        &self.version_type
    }

    pub fn path(&self) -> (r: &str)
        ensures
            r@ == self.spec_path(),
    {
        self.path.as_str()
    }
}

/// Installs runtimes published in the older runtime manifest.
#[derive(Debug, Clone, Copy, Default)]
pub struct JreDownloader;

} // verus!
