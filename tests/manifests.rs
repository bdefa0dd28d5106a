use artifact_sync::{
    check_file_hash, decode_digest, digest_matches, file_name, file_sha1, is_valid_sha1_text,
    platform_branch, Artifact, ArtifactFile, AssetIndexArtifact, AssetObject, AssetsList,
    DefaultDownloadCallback, DownloadCallback, DownloadFileStep, DownloadStep, Downloads,
    FetchAction, FileType, JavaVersion, JreFile, JreFileDownload, JreManifest,
    JreManifestFilesList, Latest, Library, LibraryDownloads, McVersionManifest, McVersionType,
    McVersionsList, MinecraftVersion, MojangJre, OperatingSystem, OsName, OsRule, PlatformBranch,
    RawFile, RequestType, RuleAction, RuntimeData, RuntimeVersion, SyncError, VanillaVersion,
    VanillaVersionBuilder, VanillaVersionError, Version, VersionType, VersionsManifest,
};

const ABC_SHA1: &str = "a9993e364706816aba3e25717850c26c9cd0d89d";

#[test]
fn sha1_of_known_input() {
    let d = file_sha1(b"abc");
    assert_eq!(d.len(), 20);
    assert_eq!(d[0], 0xa9);
    assert_eq!(d[19], 0x9d);
    assert!(check_file_hash(b"abc", ABC_SHA1));
    assert!(check_file_hash(b"abc", &ABC_SHA1.to_uppercase()));
    assert!(!check_file_hash(b"abd", ABC_SHA1));
}

#[test]
fn digest_text_must_be_hexadecimal() {
    let d = file_sha1(b"abc");
    assert!(digest_matches(&d, ABC_SHA1));
    assert!(!digest_matches(&d, "zz"));
    assert!(!digest_matches(&d, "a9993"));
    assert!(is_valid_sha1_text(ABC_SHA1));
    assert!(!is_valid_sha1_text("a9993e"));
    assert!(!is_valid_sha1_text("g9993e364706816aba3e25717850c26c9cd0d89d"));
    assert_eq!(decode_digest("0aff"), Some(vec![0x0a, 0xff]));
    assert_eq!(decode_digest("0af"), None);
}

#[test]
fn os_names() {
    assert_eq!(OsName::current("linux"), OsName::Linux);
    assert_eq!(OsName::current("macos"), OsName::MacOs);
    assert_eq!(OsName::current("windows"), OsName::Windows);
    assert_eq!(OsName::current("freebsd"), OsName::Unknown);
    let p = OperatingSystem::current("macos", "aarch64");
    assert_eq!(p.name(), OsName::MacOs);
    assert_eq!(p.name_str(), "osx");
    assert_eq!(p.arch(), "aarch64");
    assert_eq!(OsName::Unknown.as_str(), "unknown");
}

fn runtime(url: &str) -> RuntimeData {
    RuntimeData {
        manifest: RawFile { sha1: "00".to_string(), size: 1, url: url.to_string() },
        version: RuntimeVersion { name: "17.0.8".to_string(), released: time::OffsetDateTime::UNIX_EPOCH },
    }
}

fn jre_manifest() -> JreManifest {
    JreManifest {
        linux: vec![
            (RequestType::JreLegacy, vec![]),
            (RequestType::JavaRuntimeGamma, vec![runtime("https://l/gamma"), runtime("https://l/old")]),
        ],
        linux_i386: vec![(RequestType::JreLegacy, vec![runtime("https://i386/legacy")])],
        mac_os: vec![],
        mac_os_arm64: vec![(RequestType::JavaRuntimeGamma, vec![runtime("https://arm/gamma")])],
        windows: vec![],
        windows_32: vec![],
        windows_arm: vec![],
    }
}

#[test]
fn runtime_url_by_platform() {
    let m = jre_manifest();
    let linux = OperatingSystem::new(OsName::Linux, "x86_64".to_string());
    assert_eq!(m.get_runtime_url(&linux, RequestType::JavaRuntimeGamma), Ok("https://l/gamma".to_string()));
    assert_eq!(m.get_runtime_url(&linux, RequestType::JreLegacy), Err(SyncError::NoRuntimeAvailable));
    assert_eq!(m.get_runtime_url(&linux, RequestType::JavaRuntimeAlpha), Err(SyncError::NoRuntimeAvailable));
    let i386 = OperatingSystem::new(OsName::Linux, "x86".to_string());
    assert_eq!(m.get_runtime_url(&i386, RequestType::JreLegacy), Ok("https://i386/legacy".to_string()));
    let mac = OperatingSystem::new(OsName::MacOs, "aarch64".to_string());
    assert_eq!(m.get_runtime_url(&mac, RequestType::JavaRuntimeGamma), Ok("https://arm/gamma".to_string()));
    let riscv = OperatingSystem::new(OsName::Linux, "riscv64".to_string());
    assert_eq!(m.get_runtime_url(&riscv, RequestType::JavaRuntimeGamma), Err(SyncError::UnsupportedPlatform));
    assert_eq!(platform_branch(&mac), Ok(PlatformBranch::MacOsArm64));
    assert_eq!(
        platform_branch(&OperatingSystem::new(OsName::Unknown, "x86_64".to_string())),
        Err(SyncError::UnsupportedPlatform)
    );
}

#[test]
fn versions_manifest_serves_linux_only() {
    let m = VersionsManifest {
        linux: vec![
            (VersionType::Unknown("delta".to_string()), vec![runtime("https://l/delta")]),
            (VersionType::JavaRuntimeGammaSnapshot, vec![runtime("https://l/snap")]),
        ],
    };
    let linux = OperatingSystem::new(OsName::Linux, "x86_64".to_string());
    assert_eq!(m.get_runtime_url(&linux, &VersionType::Unknown("delta".to_string())), Ok("https://l/delta".to_string()));
    assert_eq!(m.get_runtime_url(&linux, &VersionType::JavaRuntimeGammaSnapshot), Ok("https://l/snap".to_string()));
    assert_eq!(m.get_runtime_url(&linux, &VersionType::Legacy), Err(SyncError::NoRuntimeAvailable));
    let win = OperatingSystem::new(OsName::Windows, "x86_64".to_string());
    assert_eq!(m.get_runtime_url(&win, &VersionType::Legacy), Err(SyncError::UnsupportedPlatform));
}

#[test]
fn runtime_file_list_to_descriptors() {
    let list = JreManifestFilesList {
        files: vec![
            ("bin".to_string(), JreFile { file_type: FileType::Directory, executable: false, downloads: None, target: None }),
            (
                "bin/java".to_string(),
                JreFile {
                    file_type: FileType::File,
                    executable: true,
                    downloads: Some(JreFileDownload { raw: RawFile { sha1: "ab".to_string(), size: 3, url: "u".to_string() } }),
                    target: None,
                },
            ),
            ("legal".to_string(), JreFile { file_type: FileType::Link, executable: false, downloads: None, target: Some("../x".to_string()) }),
        ],
    };
    let ds = list.into_artifacts();
    assert_eq!(ds.len(), 3);
    assert_eq!(ds[0].relative_path, "bin");
    assert_eq!(ds[0].kind, FileType::Directory);
    assert_eq!(ds[1].relative_path, "bin/java");
    assert!(ds[1].executable);
    assert_eq!(ds[1].size(), 3);
    assert_eq!(ds[2].symlink_target.as_deref(), Some("../x"));
}

#[test]
fn mojang_jre_keeps_its_settings() {
    let j = MojangJre::new(VersionType::JavaRuntimeAlpha, "./java");
    assert_eq!(j.path(), "./java");
    assert_eq!(j.version_type(), &VersionType::JavaRuntimeAlpha);
}

#[test]
fn file_name_is_last_segment() {
    assert_eq!(file_name("org/lwjgl/lwjgl-natives-linux.jar"), "lwjgl-natives-linux.jar");
    assert_eq!(file_name("plain.jar"), "plain.jar");
    assert_eq!(file_name("dir/"), "");
    assert_eq!(file_name(""), "");
}

fn artifact(sha1: &str, size: u64, url: &str) -> Artifact {
    Artifact { sha1: sha1.to_string(), size, url: url.to_string() }
}

fn library() -> Library {
    Library {
        downloads: LibraryDownloads {
            artifact: Some(ArtifactFile { path: "org/lwjgl/lwjgl.jar".to_string(), artifact: artifact(ABC_SHA1, 3, "https://lib/lwjgl.jar") }),
            classifiers: Some(vec![
                ("natives-windows".to_string(), ArtifactFile { path: "org/lwjgl/lwjgl-natives-windows.jar".to_string(), artifact: artifact(ABC_SHA1, 5, "https://lib/win.jar") }),
                ("natives-linux".to_string(), ArtifactFile { path: "org/lwjgl/lwjgl-natives-linux.jar".to_string(), artifact: artifact(ABC_SHA1, 4, "https://lib/linux.jar") }),
            ]),
        },
        name: "org.lwjgl:lwjgl:3.3.1".to_string(),
        url: None,
        natives: vec![(OsName::Linux, "natives-linux".to_string()), (OsName::Windows, "natives-windows".to_string())],
        extract: None,
        rules: vec![OsRule { action: RuleAction::Allow, os: vec![("name".to_string(), "linux".to_string())] }],
    }
}

#[test]
fn library_artifact_and_rules() {
    let lib = library();
    let linux = OperatingSystem::new(OsName::Linux, "x86_64".to_string());
    let mac = OperatingSystem::new(OsName::MacOs, "x86_64".to_string());
    assert!(artifact_sync::check_libs_rules(&lib, &linux));
    assert!(!artifact_sync::check_libs_rules(&lib, &mac));
    let d = lib.artifact().unwrap();
    assert_eq!(d.relative_path, "libraries/org/lwjgl/lwjgl.jar");
    assert_eq!(d.source.as_ref().unwrap().url, "https://lib/lwjgl.jar");
    assert_eq!(d.rules.len(), 1);
    assert!(artifact_sync::evaluate(&d.rules, &linux));
    assert!(!artifact_sync::evaluate(&d.rules, &mac));
    let mut bare = library();
    bare.downloads.artifact = None;
    assert!(bare.artifact().is_none());
}

#[test]
fn native_artifact_for_family() {
    let lib = library();
    let linux = OperatingSystem::new(OsName::Linux, "x86_64".to_string());
    let d = lib.native_artifact(&linux).unwrap();
    assert_eq!(d.relative_path, "natives/lwjgl-natives-linux.jar");
    assert_eq!(d.source.as_ref().unwrap().size, 4);
    let win = OperatingSystem::new(OsName::Windows, "x86".to_string());
    assert_eq!(lib.native_artifact(&win).unwrap().source.as_ref().unwrap().url, "https://lib/win.jar");
    let mac = OperatingSystem::new(OsName::MacOs, "x86_64".to_string());
    assert!(lib.native_artifact(&mac).is_none());
}

#[test]
fn asset_locations() {
    let obj = AssetObject { hash: "bdf48ef6b5d0d23bbb02e17d04865216179f510a".to_string(), size: 9 };
    let info = obj.download_info("icons/icon_16x16.png");
    assert_eq!(info.path, "assets/objects/icons/icon_16x16.png");
    assert_eq!(
        info.url,
        "https://resources.download.minecraft.net/bd/bdf48ef6b5d0d23bbb02e17d04865216179f510a"
    );
    assert_eq!(info.size, 9);
    let list = AssetsList { objects: vec![("a".to_string(), obj.clone()), ("b".to_string(), obj)] };
    let ds = list.artifacts();
    assert_eq!(ds.len(), 2);
    assert_eq!(ds[1].relative_path, "assets/objects/b");
}

fn version_manifest() -> McVersionManifest {
    McVersionManifest {
        arguments: None,
        asset_index: AssetIndexArtifact { id: "5".to_string(), sha1: ABC_SHA1.to_string(), size: 10, total_size: 100, url: "https://idx/5.json".to_string() },
        assets: "5".to_string(),
        compliance_level: 1,
        downloads: Downloads { client: artifact(ABC_SHA1, 20, "https://client.jar") },
        id: "1.20.1".to_string(),
        java_version: JavaVersion::default(),
        libraries: vec![library()],
        logging: None,
        main_class: "net.minecraft.client.main.Main".to_string(),
        minimum_launcher_version: 21,
        release_time: time::OffsetDateTime::UNIX_EPOCH,
        time: time::OffsetDateTime::UNIX_EPOCH,
        version_type: McVersionType::Release,
        minecraft_arguments: None,
    }
}

#[test]
fn version_downloads() {
    let m = version_manifest();
    let idx = m.asset_index_download();
    assert_eq!(idx.path, "assets/indexes/5.json");
    assert_eq!(idx.size, 10);
    let client = m.client_download();
    assert_eq!(client.path, "versions/1.20.1/1.20.1.jar");
    assert_eq!(client.url, "https://client.jar");
    let d = client.into_descriptor(Vec::new());
    assert!(d.is_well_formed());
    assert_eq!(m.java_version.component, "jre-legacy");
    assert_eq!(m.java_version.major_version, 8);
}

fn entry(id: &str, t: McVersionType) -> Version {
    Version {
        id: id.to_string(),
        version_type: t,
        url: format!("https://v/{}.json", id),
        time: time::OffsetDateTime::UNIX_EPOCH,
        release_time: time::OffsetDateTime::UNIX_EPOCH,
    }
}

#[test]
fn version_selection() {
    let list = McVersionsList {
        latest: Latest { release: "1.20.1".to_string(), snapshot: "23w31a".to_string() },
        versions: vec![
            entry("23w31a", McVersionType::Snapshot),
            entry("1.20.1", McVersionType::Release),
            entry("1.19", McVersionType::Release),
        ],
    };
    assert_eq!(VanillaVersionBuilder::latest().select(&list), Ok(1));
    assert_eq!(VanillaVersionBuilder::new("1.19").select(&list), Ok(2));
    assert_eq!(VanillaVersionBuilder::new("0.0").select(&list), Err(VanillaVersionError::VersionNotFound));
    let v = VanillaVersion::from_entry(&list.versions[0], version_manifest());
    assert_eq!(v.name(), "Vanilla 23w31a");
    assert_eq!(v.id(), "23w31a");
    assert!(v.is_snapshot());
    assert_eq!(v.json_url(), "https://v/23w31a.json");
    assert_eq!(v.manifest().id, "1.20.1");
}

#[test]
fn phases_and_file_steps() {
    assert_eq!(DownloadStep::Manifest.next(), Some(DownloadStep::Checking));
    assert_eq!(DownloadStep::Checking.next(), Some(DownloadStep::Downloading));
    assert_eq!(DownloadStep::Downloading.next(), Some(DownloadStep::Done));
    assert_eq!(DownloadStep::Done.next(), None);
    assert_eq!(
        artifact_sync::file_step_for(FetchAction::Write { current: 3, total: 9 }),
        Some(DownloadFileStep::Downloading { current: 3, total: 9 })
    );
    assert_eq!(artifact_sync::file_step_for(FetchAction::Verify), Some(DownloadFileStep::Checking));
    assert_eq!(artifact_sync::file_step_for(FetchAction::Complete), Some(DownloadFileStep::Done));
    assert_eq!(artifact_sync::file_step_for(FetchAction::ReadBody), None);
    let cb = DefaultDownloadCallback;
    cb.on_start();
    artifact_sync::report_fetch_action(&cb, "x", FetchAction::Complete);
    cb.on_finish();
}
