use mc_launcher::assets::InstallError;
use mc_launcher::install::{
    asset_index_task, materialization_tasks, pending_tasks, FileTask, ResolveAction, ResolveEvent,
    ResolvePhase, VersionResolve,
};
use mc_launcher::layout::Layout;
use mc_launcher::minecraft::{find_version, Latest, McVersion, VersionManifest};
use mc_launcher::string_map::StringMap;
use mc_launcher::version::{
    Artifact, AssetIndex, DownloadInfo, Downloads, Library, LibraryDownloads, OsRule, Rule,
    VersionJson,
};

fn library(name: &str, path: &str, only_on: Option<&str>) -> Library {
    Library {
        name: name.to_string(),
        downloads: LibraryDownloads {
            artifact: Some(Artifact {
                path: path.to_string(),
                url: format!("https://l/{}", path),
                sha1: "".to_string(),
                size: 0,
            }),
            classifiers: StringMap::new(),
        },
        natives: StringMap::new(),
        rules: match only_on {
            Some(os) => vec![Rule {
                action: "allow".to_string(),
                os: Some(OsRule { name: os.to_string() }),
            }],
            None => Vec::new(),
        },
    }
}

fn version() -> VersionJson {
    VersionJson {
        id: Some("1.20.1".to_string()),
        inheritsFrom: None,
        releaseTime: None,
        time: None,
        version_type: None,
        arguments: None,
        libraries: vec![
            library("a", "a/a.jar", None),
            library("mac", "mac/mac.jar", Some("osx")),
            library("b", "b/b.jar", None),
        ],
        downloads: Downloads {
            client: DownloadInfo { url: "https://c/client.jar".to_string(), sha1: "".to_string(), size: 1 },
        },
        mainClass: "Main".to_string(),
        assetIndex: AssetIndex {
            id: "5".to_string(),
            url: "https://a/5.json".to_string(),
            sha1: "".to_string(),
            size: 2,
        },
    }
}

fn manifest() -> VersionManifest {
    let entry = |id: &str, url: &str| McVersion {
        id: id.to_string(),
        _type: "release".to_string(),
        releaseTime: "t".to_string(),
        url: url.to_string(),
    };
    VersionManifest {
        latest: Latest { release: "1.20.1".to_string(), snapshot: "23w31a".to_string() },
        versions: vec![
            entry("1.20.2", "https://m/1.20.2.json"),
            entry("1.20.1", "https://m/1.20.1.json"),
            entry("1.20.1", "https://m/duplicate.json"),
        ],
    }
}

fn layout() -> Layout {
    Layout { root: "/mc".to_string(), separator: "/".to_string() }
}

#[test]
fn an_installed_version_is_resolved_without_any_request() {
    let (mut resolve, first) = VersionResolve::start("1.20.1".to_string());
    match first {
        ResolveAction::LoadLocal { id } => assert_eq!(id, "1.20.1"),
        other => panic!("unexpected: {:?}", other),
    }
    match resolve.step(ResolveEvent::LocalFound(version())) {
        ResolveAction::Done { version } => assert_eq!(version.mainClass, "Main"),
        other => panic!("unexpected: {:?}", other),
    }
    assert_eq!(resolve.phase, ResolvePhase::Finished);
}

#[test]
fn resolving_twice_asks_for_the_network_only_the_first_time() {
    // First call: nothing on disk, so the catalog and the description are fetched.
    let (mut first, _) = VersionResolve::start("1.20.1".to_string());
    let mut requests = 0;
    let mut action = first.step(ResolveEvent::LocalAbsent);
    loop {
        action = match action {
            ResolveAction::FetchManifest => {
                requests += 1;
                first.step(ResolveEvent::ManifestFetched(manifest()))
            }
            ResolveAction::Fetch { url } => {
                requests += 1;
                assert_eq!(url, "https://m/1.20.1.json");
                first.step(ResolveEvent::Fetched("{...}".to_string()))
            }
            ResolveAction::Store { id, text } => {
                assert_eq!(id, "1.20.1");
                assert_eq!(text, "{...}");
                first.step(ResolveEvent::Stored(version()))
            }
            ResolveAction::Materialize { id, version } => {
                requests += 1;
                assert_eq!(id, "1.20.1");
                first.step(ResolveEvent::Materialized(version))
            }
            ResolveAction::Done { .. } => break,
            other => panic!("unexpected: {:?}", other),
        };
    }
    assert_eq!(requests, 3);
    // Second call: the description is on disk now.
    let (mut second, start) = VersionResolve::start("1.20.1".to_string());
    assert!(matches!(start, ResolveAction::LoadLocal { .. }));
    assert!(matches!(
        second.step(ResolveEvent::LocalFound(version())),
        ResolveAction::Done { .. }
    ));
}

#[test]
fn a_version_that_the_catalog_does_not_list_fails() {
    let (mut resolve, _) = VersionResolve::start("0.0.1".to_string());
    resolve.step(ResolveEvent::LocalAbsent);
    match resolve.step(ResolveEvent::ManifestFetched(manifest())) {
        ResolveAction::Fail(InstallError::Network(m)) => {
            assert_eq!(m, "Minecraft version 0.0.1 not found in manifest")
        }
        other => panic!("unexpected: {:?}", other),
    }
}

#[test]
fn failures_surface_as_network_integrity_or_schema_errors() {
    let (mut resolve, _) = VersionResolve::start("1.20.1".to_string());
    assert!(matches!(
        resolve.step(ResolveEvent::LocalUnreadable("bad json".to_string())),
        ResolveAction::Fail(InstallError::Schema(_))
    ));
    let (mut resolve, _) = VersionResolve::start("1.20.1".to_string());
    resolve.step(ResolveEvent::LocalAbsent);
    match resolve.step(ResolveEvent::FetchFailed("offline".to_string())) {
        ResolveAction::Fail(InstallError::Network(m)) => assert_eq!(m, "offline"),
        other => panic!("unexpected: {:?}", other),
    }
    let (mut resolve, _) = VersionResolve::start("1.20.1".to_string());
    resolve.step(ResolveEvent::LocalAbsent);
    resolve.step(ResolveEvent::ManifestFetched(manifest()));
    resolve.step(ResolveEvent::Fetched("{}".to_string()));
    assert!(matches!(
        resolve.step(ResolveEvent::StoreFailed("missing field".to_string())),
        ResolveAction::Fail(InstallError::Schema(_))
    ));
    let (mut resolve, _) = VersionResolve::start("1.20.1".to_string());
    resolve.step(ResolveEvent::LocalAbsent);
    resolve.step(ResolveEvent::ManifestFetched(manifest()));
    resolve.step(ResolveEvent::Fetched("{}".to_string()));
    resolve.step(ResolveEvent::Stored(version()));
    match resolve.step(ResolveEvent::MaterializeFailed(InstallError::Integrity("size".to_string()))) {
        ResolveAction::Fail(InstallError::Integrity(m)) => assert_eq!(m, "size"),
        other => panic!("unexpected: {:?}", other),
    }
    assert!(matches!(resolve.step(ResolveEvent::LocalAbsent), ResolveAction::Fail(_)));
}

#[test]
fn the_first_catalog_entry_with_the_id_is_taken() {
    let m = manifest();
    assert_eq!(find_version(&m, "1.20.1").unwrap().url, "https://m/1.20.1.json");
    assert_eq!(find_version(&m, "1.20.2").unwrap().url, "https://m/1.20.2.json");
    assert!(find_version(&m, "1.20").is_none());
}

#[test]
fn the_client_jar_comes_first_then_the_allowed_libraries() {
    let tasks = materialization_tasks(&layout(), "linux", "1.20.1", &version());
    let seen: Vec<(&str, &str)> = tasks.iter().map(|t| (t.url.as_str(), t.dest.as_str())).collect();
    assert_eq!(
        seen,
        vec![
            ("https://c/client.jar", "/mc/versions/1.20.1/1.20.1.jar"),
            ("https://l/a/a.jar", "/mc/libraries/a/a.jar"),
            ("https://l/b/b.jar", "/mc/libraries/b/b.jar"),
        ]
    );
    assert_eq!(materialization_tasks(&layout(), "osx", "1.20.1", &version()).len(), 4);
}

#[test]
fn files_that_are_present_or_listed_twice_are_not_fetched_again() {
    let task = |url: &str, dest: &str| FileTask { url: url.to_string(), dest: dest.to_string() };
    let tasks =
        vec![task("u1", "/a"), task("u2", "/b"), task("u3", "/a"), task("u4", "/c"), task("u5", "/b")];
    let pending = pending_tasks(&tasks, &vec![false, true, false, false, true]);
    let urls: Vec<&str> = pending.iter().map(|t| t.url.as_str()).collect();
    assert_eq!(urls, vec!["u1", "u4"]);
    // Files about which nothing is known count as absent.
    let pending = pending_tasks(&tasks, &vec![true]);
    let urls: Vec<&str> = pending.iter().map(|t| t.url.as_str()).collect();
    assert_eq!(urls, vec!["u2", "u4"]);
    assert!(pending_tasks(&vec![], &vec![]).is_empty());
}

#[test]
fn the_asset_index_is_kept_under_its_id() {
    let task = asset_index_task(&layout(), &version());
    assert_eq!(task.url, "https://a/5.json");
    assert_eq!(task.dest, "/mc/assets/indexes/5.json");
}

#[test]
fn a_refreshed_version_is_fetched_and_materialized_whatever_is_on_disk() {
    let (mut resolve, first) = VersionResolve::refresh("1.20.1".to_string());
    assert!(matches!(first, ResolveAction::FetchManifest));
    assert_eq!(resolve.phase, ResolvePhase::Manifest);
    // What is on disk is not asked for and not taken.
    let (mut other, _) = VersionResolve::refresh("1.20.1".to_string());
    assert!(matches!(other.step(ResolveEvent::LocalFound(version())), ResolveAction::Fail(_)));
    match resolve.step(ResolveEvent::ManifestFetched(manifest())) {
        ResolveAction::Fetch { url } => assert_eq!(url, "https://m/1.20.1.json"),
        other => panic!("unexpected: {:?}", other),
    }
    assert!(matches!(resolve.step(ResolveEvent::Fetched("{}".to_string())), ResolveAction::Store { .. }));
    assert!(matches!(resolve.step(ResolveEvent::Stored(version())), ResolveAction::Materialize { .. }));
    match resolve.step(ResolveEvent::MaterializeFailed(InstallError::Network("offline".to_string()))) {
        ResolveAction::Fail(InstallError::Network(m)) => assert_eq!(m, "offline"),
        other => panic!("unexpected: {:?}", other),
    }
}
