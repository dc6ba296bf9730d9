use mc_launcher::json::{parse_json, Json};
use mc_launcher::loader_install::{
    LoaderAction, LoaderEvent, LoaderInstall, LoaderPhase, LoaderRequest,
};
use mc_launcher::profile::LoaderError;
use mc_launcher::string_map::StringMap;
use mc_launcher::version::{
    Artifact, AssetIndex, DownloadInfo, Downloads, Library, LibraryDownloads, VersionJson,
};

fn request(loader: &str, base: &str, version: &str) -> LoaderRequest {
    LoaderRequest {
        loader_type: loader.to_string(),
        base_version: base.to_string(),
        requested: version.to_string(),
    }
}

fn base_version() -> VersionJson {
    VersionJson {
        id: Some("1.20.1".to_string()),
        inheritsFrom: None,
        releaseTime: None,
        time: None,
        version_type: None,
        arguments: None,
        libraries: vec![Library {
            name: "base:lib:1".to_string(),
            downloads: LibraryDownloads {
                artifact: Some(Artifact {
                    path: "base/lib/1/lib-1.jar".to_string(),
                    url: "https://l/lib.jar".to_string(),
                    sha1: "".to_string(),
                    size: 0,
                }),
                classifiers: StringMap::new(),
            },
            natives: StringMap::new(),
            rules: Vec::new(),
        }],
        downloads: Downloads {
            client: DownloadInfo { url: "https://c/c.jar".to_string(), sha1: "".to_string(), size: 1 },
        },
        mainClass: "Main".to_string(),
        assetIndex: AssetIndex {
            id: "5".to_string(),
            url: "https://a/5.json".to_string(),
            sha1: "".to_string(),
            size: 2,
        },
    }
}

const PROFILE: &str = "{\"inheritsFrom\":\"1.20.1\",\"mainClass\":\"Knot\",\"libraries\":[{\"name\":\"net.fabricmc:fabric-loader:0.15.0\",\"url\":\"https://maven.fabricmc.net/\"}]}";

fn expect_fetch(action: LoaderAction) -> String {
    match action {
        LoaderAction::Fetch { url } => url,
        other => panic!("expected a fetch, got {:?}", other),
    }
}

#[test]
fn the_derived_id_is_named_by_loader_version_and_base() {
    let (mut machine, first) = LoaderInstall::start(request("fabric", "1.20.1", "0.15.0"));
    assert_eq!(
        expect_fetch(first),
        "https://meta.fabricmc.net/v2/versions/loader/1.20.1/0.15.0/profile/json"
    );
    assert_eq!(machine.phase, LoaderPhase::Profile);
    match machine.step(LoaderEvent::Fetched(PROFILE.to_string())) {
        LoaderAction::Probe { id } => assert_eq!(id, "fabric-loader-0.15.0-1.20.1"),
        other => panic!("unexpected: {:?}", other),
    }
    match machine.step(LoaderEvent::Probed(true)) {
        LoaderAction::Done { derived_id, effective } => {
            assert_eq!(derived_id, "fabric-loader-0.15.0-1.20.1");
            assert_eq!(effective, "0.15.0");
        }
        other => panic!("unexpected: {:?}", other),
    }
    assert_eq!(machine.phase, LoaderPhase::Finished);
}

#[test]
fn the_derived_id_is_the_same_after_a_fallback() {
    let (mut machine, _) = LoaderInstall::start(request("fabric", "1.20.1", "0.14.9"));
    let url = expect_fetch(machine.step(LoaderEvent::FetchFailed(
        "HTTP 400 response: no loader version found for 0.14.9".to_string(),
    )));
    assert_eq!(url, "https://meta.fabricmc.net/v2/versions/loader/1.20.1");
    assert_eq!(machine.phase, LoaderPhase::Catalog);
    let url = expect_fetch(machine.step(LoaderEvent::Fetched(
        "[{\"id\":\"0.15.1\",\"stable\":false},{\"id\":\"0.15.0\",\"stable\":true}]".to_string(),
    )));
    assert_eq!(url, "https://meta.fabricmc.net/v2/versions/loader/1.20.1/0.15.0/profile/json");
    assert_eq!(machine.phase, LoaderPhase::Retry);
    assert_eq!(machine.effective, "0.15.0");
    match machine.step(LoaderEvent::Fetched(PROFILE.to_string())) {
        LoaderAction::Probe { id } => assert_eq!(id, "fabric-loader-0.15.0-1.20.1"),
        other => panic!("unexpected: {:?}", other),
    }
    match machine.step(LoaderEvent::Probed(true)) {
        LoaderAction::Done { derived_id, effective } => {
            assert_eq!(derived_id, "fabric-loader-0.15.0-1.20.1");
            assert_eq!(effective, "0.15.0");
        }
        other => panic!("unexpected: {:?}", other),
    }
}

#[test]
fn other_fetch_failures_end_the_installation() {
    let (mut machine, _) = LoaderInstall::start(request("fabric", "1.20.1", "0.15.0"));
    match machine.step(LoaderEvent::FetchFailed("HTTP 500 response: oops".to_string())) {
        LoaderAction::Fail(LoaderError::Network(m)) => assert_eq!(m, "HTTP 500 response: oops"),
        other => panic!("unexpected: {:?}", other),
    }
    assert_eq!(machine.phase, LoaderPhase::Finished);
}

#[test]
fn a_loader_without_catalog_cannot_fall_back() {
    let (mut machine, first) = LoaderInstall::start(request("forge", "1.20.1", "47"));
    assert_eq!(expect_fetch(first), "");
    match machine.step(LoaderEvent::FetchFailed("no loader version found".to_string())) {
        LoaderAction::Fail(LoaderError::Network(m)) => assert_eq!(m, "no loader version found"),
        other => panic!("unexpected: {:?}", other),
    }
}

#[test]
fn fallback_failures_surface_the_first_error() {
    let first_error = "HTTP 400 response: no loader version found";
    for catalog in [
        LoaderEvent::Fetched("[]".to_string()),
        LoaderEvent::Fetched("not json".to_string()),
        LoaderEvent::Fetched("{\"a\":1}".to_string()),
        LoaderEvent::FetchFailed("timeout".to_string()),
    ] {
        let (mut machine, _) = LoaderInstall::start(request("quilt", "1.20.1", "0.1"));
        machine.step(LoaderEvent::FetchFailed(first_error.to_string()));
        match machine.step(catalog) {
            LoaderAction::Fail(LoaderError::Network(m)) => assert_eq!(m, first_error),
            other => panic!("unexpected: {:?}", other),
        }
    }
    let (mut machine, _) = LoaderInstall::start(request("quilt", "1.20.1", "0.1"));
    machine.step(LoaderEvent::FetchFailed(first_error.to_string()));
    machine.step(LoaderEvent::Fetched("[{\"version\":\"0.2\",\"stable\":true}]".to_string()));
    match machine.step(LoaderEvent::FetchFailed("HTTP 400 response: no loader version found".to_string())) {
        LoaderAction::Fail(LoaderError::Network(m)) => assert_eq!(m, first_error),
        other => panic!("unexpected: {:?}", other),
    }
}

#[test]
fn a_profile_for_another_base_is_refused() {
    let (mut machine, _) = LoaderInstall::start(request("fabric", "1.19.4", "0.15.0"));
    match machine.step(LoaderEvent::Fetched(PROFILE.to_string())) {
        LoaderAction::Fail(LoaderError::BaseMismatch { expected, found }) => {
            assert_eq!(expected, "1.19.4");
            assert_eq!(found, "1.20.1");
        }
        other => panic!("unexpected: {:?}", other),
    }
}

#[test]
fn a_profile_that_is_no_json_is_a_schema_error() {
    let (mut machine, _) = LoaderInstall::start(request("fabric", "1.20.1", "0.15.0"));
    match machine.step(LoaderEvent::Fetched("<html>".to_string())) {
        LoaderAction::Fail(LoaderError::Schema(m)) => {
            assert!(m.ends_with(" - response (truncated): <html>"), "{}", m);
            assert!(m.len() > " - response (truncated): <html>".len());
        }
        other => panic!("unexpected: {:?}", other),
    }
    let (mut machine, _) = LoaderInstall::start(request("fabric", "1.20.1", "0.15.0"));
    assert!(matches!(
        machine.step(LoaderEvent::Fetched("{}".to_string())),
        LoaderAction::Fail(LoaderError::MissingBase)
    ));
}

#[test]
fn a_decodable_profile_is_installed_as_it_is() {
    let (mut machine, _) = LoaderInstall::start(request("fabric", "1.20.1", "0.15.0"));
    machine.step(LoaderEvent::Fetched(PROFILE.to_string()));
    assert!(matches!(machine.step(LoaderEvent::Probed(false)), LoaderAction::Decode));
    let mut decoded = base_version();
    decoded.id = Some("whatever".to_string());
    decoded.inheritsFrom = Some("1.20.1".to_string());
    match machine.step(LoaderEvent::Decoded(decoded)) {
        LoaderAction::Install { id, descriptor } => {
            assert_eq!(id, "fabric-loader-0.15.0-1.20.1");
            assert_eq!(descriptor.id.as_deref(), Some("fabric-loader-0.15.0-1.20.1"));
            assert_eq!(descriptor.inheritsFrom.as_deref(), Some("1.20.1"));
            assert_eq!(descriptor.version_type.as_deref(), Some("release"));
            assert_eq!(descriptor.libraries.len(), 1);
        }
        other => panic!("unexpected: {:?}", other),
    }
    assert_eq!(machine.phase, LoaderPhase::Install);
    match machine.step(LoaderEvent::Installed) {
        LoaderAction::Done { derived_id, effective } => {
            assert_eq!(derived_id, "fabric-loader-0.15.0-1.20.1");
            assert_eq!(effective, "0.15.0");
        }
        other => panic!("unexpected: {:?}", other),
    }
}

#[test]
fn a_foreign_profile_is_laid_over_the_base_version() {
    let (mut machine, _) = LoaderInstall::start(request("fabric", "1.20.1", "0.15.0"));
    machine.step(LoaderEvent::Fetched(PROFILE.to_string()));
    machine.step(LoaderEvent::Probed(false));
    match machine.step(LoaderEvent::NotDecodable) {
        LoaderAction::EnsureBase { version } => assert_eq!(version, "1.20.1"),
        other => panic!("unexpected: {:?}", other),
    }
    match machine.step(LoaderEvent::BaseReady(base_version())) {
        LoaderAction::Install { id, descriptor } => {
            assert_eq!(id, "fabric-loader-0.15.0-1.20.1");
            let names: Vec<&str> = descriptor.libraries.iter().map(|l| l.name.as_str()).collect();
            assert_eq!(names, vec!["base:lib:1", "net.fabricmc:fabric-loader:0.15.0"]);
            assert_eq!(descriptor.mainClass, "Knot");
            assert_eq!(descriptor.inheritsFrom.as_deref(), Some("1.20.1"));
            assert_eq!(descriptor.id.as_deref(), Some("fabric-loader-0.15.0-1.20.1"));
        }
        other => panic!("unexpected: {:?}", other),
    }
    match machine.step(LoaderEvent::InstallFailed("disk full".to_string())) {
        LoaderAction::Fail(LoaderError::Install(m)) => assert_eq!(m, "disk full"),
        other => panic!("unexpected: {:?}", other),
    }
}

#[test]
fn a_base_that_cannot_be_installed_ends_the_installation() {
    let (mut machine, _) = LoaderInstall::start(request("fabric", "1.20.1", "0.15.0"));
    machine.step(LoaderEvent::Fetched(PROFILE.to_string()));
    machine.step(LoaderEvent::Probed(false));
    machine.step(LoaderEvent::NotDecodable);
    match machine.step(LoaderEvent::BaseFailed("no network".to_string())) {
        LoaderAction::Fail(LoaderError::Install(m)) => assert_eq!(m, "no network"),
        other => panic!("unexpected: {:?}", other),
    }
}

#[test]
fn events_out_of_turn_end_the_installation() {
    let (mut machine, _) = LoaderInstall::start(request("fabric", "1.20.1", "0.15.0"));
    assert!(matches!(
        machine.step(LoaderEvent::Probed(true)),
        LoaderAction::Fail(LoaderError::Unexpected)
    ));
    assert_eq!(machine.phase, LoaderPhase::Finished);
    assert!(matches!(
        machine.step(LoaderEvent::Fetched(PROFILE.to_string())),
        LoaderAction::Fail(LoaderError::Unexpected)
    ));
}

#[test]
fn a_profile_that_was_read_is_taken_up_as_it_was_read() {
    let (mut machine, _) = LoaderInstall::start(request("fabric", "1.20.1", "0.15.0"));
    let document = parse_json(PROFILE).unwrap();
    match machine.take_profile(PROFILE, Ok(document)) {
        LoaderAction::Probe { id } => assert_eq!(id, "fabric-loader-0.15.0-1.20.1"),
        other => panic!("unexpected: {:?}", other),
    }
    assert_eq!(machine.phase, LoaderPhase::Existence);
    assert!(machine.profile.is_some());

    let (mut machine, _) = LoaderInstall::start(request("fabric", "1.20.1", "0.15.0"));
    match machine.take_profile("<html>", Err("expected value".to_string())) {
        LoaderAction::Fail(LoaderError::Schema(m)) => {
            assert_eq!(m, "expected value - response (truncated): <html>")
        }
        other => panic!("unexpected: {:?}", other),
    }

    let (mut machine, _) = LoaderInstall::start(request("fabric", "1.20.1", "0.15.0"));
    assert!(matches!(
        machine.take_profile("null", Ok(Json::Null)),
        LoaderAction::Fail(LoaderError::MissingBase)
    ));
}

#[test]
fn a_catalog_that_was_read_is_taken_up_as_it_was_read() {
    let (mut machine, _) = LoaderInstall::start(request("quilt", "1.20.1", "0.1"));
    machine.step(LoaderEvent::FetchFailed("no loader version found".to_string()));
    let catalog = Json::Array(vec![Json::Object(vec![
        ("version".to_string(), Json::Text("0.2.0".to_string())),
        ("stable".to_string(), Json::Bool(true)),
    ])]);
    match machine.take_catalog(Ok(catalog)) {
        LoaderAction::Fetch { url } => assert_eq!(
            url,
            "https://meta.quiltmc.org/v3/versions/loader/1.20.1/0.2.0/profile/json"
        ),
        other => panic!("unexpected: {:?}", other),
    }
    assert_eq!(machine.effective, "0.2.0");

    let (mut machine, _) = LoaderInstall::start(request("quilt", "1.20.1", "0.1"));
    machine.step(LoaderEvent::FetchFailed("no loader version found".to_string()));
    match machine.take_catalog(Err("eof".to_string())) {
        LoaderAction::Fail(LoaderError::Network(m)) => assert_eq!(m, "no loader version found"),
        other => panic!("unexpected: {:?}", other),
    }
}

#[test]
fn a_fallback_adopts_the_prefix_match_of_the_request() {
    let (mut machine, _) = LoaderInstall::start(request("fabric", "1.20.1", "0.15"));
    machine.step(LoaderEvent::FetchFailed("no loader version found".to_string()));
    let url = expect_fetch(machine.step(LoaderEvent::Fetched(
        "[{\"version\":\"1.0.15\",\"stable\":false},{\"version\":\"0.15.2\",\"stable\":true}]"
            .to_string(),
    )));
    assert_eq!(url, "https://meta.fabricmc.net/v2/versions/loader/1.20.1/0.15.2/profile/json");
    match machine.step(LoaderEvent::Fetched(PROFILE.to_string())) {
        LoaderAction::Probe { id } => assert_eq!(id, "fabric-loader-0.15.2-1.20.1"),
        other => panic!("unexpected: {:?}", other),
    }
    assert!(matches!(machine.step(LoaderEvent::Probed(false)), LoaderAction::Decode));
    let mut decoded = base_version();
    decoded.inheritsFrom = Some("1.20.1".to_string());
    assert!(matches!(machine.step(LoaderEvent::Decoded(decoded)), LoaderAction::Install { .. }));
    match machine.step(LoaderEvent::Installed) {
        LoaderAction::Done { derived_id, effective } => {
            assert_eq!(derived_id, "fabric-loader-0.15.2-1.20.1");
            assert_eq!(effective, "0.15.2");
        }
        other => panic!("unexpected: {:?}", other),
    }
}
