//! Synchronises a local directory tree with a manifest of remote artifacts.
//!
//! The library holds the decisions of the synchronisation engine: which
//! artifacts apply to a platform, which of them must be fetched, how a single
//! fetch proceeds and is retried, and how a run schedules its tasks and
//! accounts for progress. Reading files, sending requests and waiting are left
//! to the caller, which feeds what it observed back into these state machines.

pub mod platform;
pub mod rules;
pub mod digest;
pub mod artifact;
pub mod errors;
pub mod planner;
pub mod progress;
pub mod fetch;
pub mod coordinator;
pub mod runtime;
pub mod minecraft;
pub mod vanilla;
pub mod callback;
pub mod jre;

pub use platform::{OperatingSystem, OsName};
pub use rules::{OsRule, RuleAction, evaluate, rule_matches};
pub use digest::{check_file_hash, decode_digest, digest_matches, file_sha1, is_valid_sha1_text};
pub use artifact::{ArtifactDescriptor, DownloadFile, FileType, JreFile, JreFileDownload, RawFile};
pub use errors::{FailureCause, SyncError};
pub use planner::{Decision, LocalState, SyncTask, decide, plan};
pub use progress::{DownloadInfos, ProgressState};
pub use fetch::{FetchAction, FetchEvent, FetchPhase, FetchSession, MAX_ATTEMPTS, RETRY_DELAY_SECS};
pub use coordinator::{SyncRun, TaskStatus};
pub use runtime::{JreManifest, PlatformBranch, RequestType, RuntimeData, RuntimeTable, RuntimeVersion, VersionType, VersionsManifest, platform_branch};
pub use minecraft::{Argument, Arguments, Artifact, ArtifactFile, AssetIndexArtifact, AssetObject, AssetsList, DownloadInfo, Downloads, Extract, GameRule, JavaVersion, Latest, Library, LibraryDownloads, Logging, LoggingArtifact, LoggingClient, McVersionManifest, McVersionType, McVersionsList, RESOURCES_BASE, Version, check_libs_rules, file_name};
pub use vanilla::{MinecraftVersion, VanillaVersion, VanillaVersionBuilder, VanillaVersionError};
pub use callback::{DefaultDownloadCallback, DownloadCallback, DownloadFileStep, DownloadStep, file_step_for, report_fetch_action};
pub use jre::{JreDownloader, JreManifestFilesList, MojangJre};
