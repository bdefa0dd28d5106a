use vstd::prelude::*;
use crate::digest::{is_valid_sha1_text, valid_sha1_text};
use crate::rules::OsRule;

verus! {

/// The kind of an artifact.
#[derive(Debug, Clone, Copy, PartialEq, Eq, Structural)]
pub enum FileType {
    Directory,
    File,
    Link,
}

/// Where a file's content comes from and what it must be.
#[derive(Debug, Clone)]
pub struct RawFile {
    /// The SHA-1 digest of the content, in hexadecimal.
    pub sha1: String,
    /// The size of the content in bytes.
    pub size: u64,
    pub url: String,
}

/// The same source record, under the name one manifest format gives it.
pub type DownloadFile = RawFile;

/// The downloads of one file of a runtime.
#[derive(Debug, Clone)]
pub struct JreFileDownload {
    pub raw: RawFile,
}

/// One entry of a runtime's file list.
#[derive(Debug, Clone)]
pub struct JreFile {
    pub file_type: FileType,
    pub executable: bool,
    pub downloads: Option<JreFileDownload>,
    pub target: Option<String>,
}

/// One artifact to reconcile: where it goes under the root, what it is, and
/// the rules that decide whether it applies.
#[derive(Debug)]
pub struct ArtifactDescriptor {
    pub relative_path: String,
    pub kind: FileType,
    /// The remote content; present exactly for files.
    pub source: Option<RawFile>,
    /// The link target; present exactly for links.
    pub symlink_target: Option<String>,
    pub executable: bool,
    pub rules: Vec<OsRule>,
}

/// The fields that a descriptor carries agree with its kind, and a file's
/// digest is forty hexadecimal digits.
pub open spec fn descriptor_wf(d: ArtifactDescriptor) -> bool {
    match d.kind {
        FileType::File => d.symlink_target is None && match d.source {
            Some(src) => valid_sha1_text(src.sha1@),
            None => false,
        },
        FileType::Link => d.source is None && d.symlink_target is Some,
        FileType::Directory => d.source is None && d.symlink_target is None,
    }
}

/// The number of bytes a descriptor asks to fetch.
pub open spec fn expected_size(d: ArtifactDescriptor) -> u64 {
    match d.source {
        Some(src) => src.size,
        None => 0,
    }
}

impl ArtifactDescriptor {
    /// The descriptor of one entry of a runtime's file list, which applies on
    /// every platform.
    pub fn from_jre_file(relative_path: String, file: JreFile) -> (r: ArtifactDescriptor)
        ensures
            r.relative_path == relative_path,
            r.kind == file.file_type,
            r.source == (match file.downloads {
                Some(d) => Some(d.raw),
                None => None::<RawFile>,
            }),
            r.symlink_target == file.target,
            r.executable == file.executable,
            r.rules@.len() == 0,
    {
        let source = match file.downloads {
            Some(d) => Some(d.raw),
            None => None,
        };
        ArtifactDescriptor {
            relative_path,
            kind: file.file_type,
            source,
            symlink_target: file.target,
            executable: file.executable,
            rules: Vec::new(),
        }
    }

    /// A file fetched from `url`, with its digest and size, under the given
    /// rules.
    pub fn file(relative_path: String, url: String, sha1: String, size: u64, rules: Vec<OsRule>) -> (r: ArtifactDescriptor)
        ensures
            r.relative_path == relative_path,
            r.kind == FileType::File,
            r.source == Some(RawFile { sha1, size, url }),
            r.symlink_target is None,
            !r.executable,
            r.rules == rules,
    {
        ArtifactDescriptor {
            relative_path,
            kind: FileType::File,
            source: Some(RawFile { sha1, size, url }),
            symlink_target: None,
            executable: false,
            rules,
        }
    }

    /// Whether the descriptor is well formed.
    pub fn is_well_formed(&self) -> (r: bool)
        ensures
            r == descriptor_wf(*self),
    {
        match self.kind {
            FileType::File => {
                self.symlink_target.is_none() && match &self.source {
                    Some(src) => is_valid_sha1_text(src.sha1.as_str()),
                    None => false,
                }
            },
            FileType::Link => self.source.is_none() && self.symlink_target.is_some(),
            FileType::Directory => self.source.is_none() && self.symlink_target.is_none(),
        }
    }

    /// The number of bytes the descriptor asks to fetch.
    pub fn size(&self) -> (r: u64)
        ensures
            r == expected_size(*self),
    {
        match &self.source {
            Some(src) => src.size,
            None => 0,
        }
    }
}

} // verus!
