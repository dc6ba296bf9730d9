use mc_launcher::instance::{Instance, InstanceState};
use mc_launcher::loader_download::{
    find_installer, Check, DownloadAction, DownloadEvent, DownloadPhase, LoaderDownload,
};
use mc_launcher::modrinth::{ModpackIndex, ModrinthFile, ModrinthVersion};
use mc_launcher::pack_install::{
    find_pack, mods_of, PackAction, PackEvent, PackInstall, PackPhase,
};
use mc_launcher::robust_install::{RobustAction, RobustEvent, RobustInstall, RobustPhase};
use mc_launcher::string_map::StringMap;

fn strings(items: &[&str]) -> Vec<String> {
    items.iter().map(|s| s.to_string()).collect()
}

fn file(name: &str) -> ModrinthFile {
    ModrinthFile { url: format!("https://cdn/{}", name), filename: name.to_string(), primary: false, size: 1 }
}

fn pack_version(games: &[&str], loaders: &[&str], files: &[&str]) -> ModrinthVersion {
    ModrinthVersion {
        id: "v".to_string(),
        project_id: "p".to_string(),
        name: "pack".to_string(),
        version_number: "1.0".to_string(),
        dependencies: Vec::new(),
        game_versions: strings(games),
        loaders: strings(loaders),
        files: files.iter().map(|f| file(f)).collect(),
    }
}

fn index(version: Option<&str>, deps: &[(&str, &str)]) -> ModpackIndex {
    let mut dependencies: StringMap<String> = StringMap::new();
    for (k, v) in deps {
        dependencies.insert(k.to_string(), v.to_string());
    }
    ModpackIndex {
        format_version: Some(1),
        game: "minecraft".to_string(),
        version_id: version.map(|v| v.to_string()),
        name: "pack".to_string(),
        summary: None,
        files: Vec::new(),
        dependencies,
    }
}

fn started_pack() -> PackInstall {
    let (machine, first) =
        PackInstall::start("My pack".to_string(), "i1".to_string(), "v".to_string(), 77);
    match first {
        PackAction::FetchVersion { version_id } => assert_eq!(version_id, "v"),
        other => panic!("unexpected: {:?}", other),
    }
    machine
}

#[test]
fn the_chosen_version_is_installed_and_confirmed() {
    let (mut machine, first) =
        RobustInstall::start("fabric".to_string(), "1.20.1".to_string(), Some("0.15.0".to_string()));
    assert!(matches!(first, RobustAction::ListVersions { include_beta: false }));
    match machine.step(RobustEvent::Versions(strings(&["0.15.2", "0.15.0+b1", "0.14.0"]))) {
        RobustAction::Install { version } => assert_eq!(version, "0.15.0+b1"),
        other => panic!("unexpected: {:?}", other),
    }
    match machine.step(RobustEvent::Installed {
        derived_id: "fabric-loader-0.15.0+b1-1.20.1".to_string(),
        version: "0.15.0+b1".to_string(),
    }) {
        RobustAction::Confirm { version } => assert_eq!(version, "0.15.0+b1"),
        other => panic!("unexpected: {:?}", other),
    }
    match machine.step(RobustEvent::Confirmed(true)) {
        RobustAction::Done { derived_id, version } => {
            assert_eq!(derived_id, "fabric-loader-0.15.0+b1-1.20.1");
            assert_eq!(version, "0.15.0+b1");
        }
        other => panic!("unexpected: {:?}", other),
    }
    assert_eq!(machine.phase, RobustPhase::Finished);
}

#[test]
fn all_versions_are_asked_for_when_the_stable_ones_cannot_be_had() {
    let (mut machine, _) = RobustInstall::start("quilt".to_string(), "1.20.1".to_string(), None);
    assert!(matches!(
        machine.step(RobustEvent::VersionsFailed("x".to_string())),
        RobustAction::ListVersions { include_beta: true }
    ));
    match machine.step(RobustEvent::VersionsFailed("offline".to_string())) {
        RobustAction::Fail(m) => assert_eq!(m, "Failed to get quilt versions for MC 1.20.1: offline"),
        other => panic!("unexpected: {:?}", other),
    }
    let (mut machine, _) = RobustInstall::start("quilt".to_string(), "1.20.1".to_string(), None);
    machine.step(RobustEvent::VersionsFailed("x".to_string()));
    match machine.step(RobustEvent::Versions(strings(&["0.20.0-beta.1"]))) {
        RobustAction::Install { version } => assert_eq!(version, "0.20.0-beta.1"),
        other => panic!("unexpected: {:?}", other),
    }
}

#[test]
fn nothing_offered_and_failed_installations_are_explained() {
    let (mut machine, _) = RobustInstall::start("fabric".to_string(), "1.20.1".to_string(), None);
    match machine.step(RobustEvent::Versions(vec![])) {
        RobustAction::Fail(m) => assert_eq!(m, "No fabric versions available for Minecraft 1.20.1"),
        other => panic!("unexpected: {:?}", other),
    }
    let (mut machine, _) = RobustInstall::start("fabric".to_string(), "1.20.1".to_string(), None);
    machine.step(RobustEvent::Versions(strings(&["0.15.2"])));
    match machine.step(RobustEvent::InstallFailed("HTTP 500".to_string())) {
        RobustAction::Fail(m) => assert_eq!(m, "Failed to install fabric 0.15.2: HTTP 500"),
        other => panic!("unexpected: {:?}", other),
    }
}

#[test]
fn other_versions_are_tried_when_the_installation_cannot_be_confirmed() {
    let (mut machine, _) = RobustInstall::start("fabric".to_string(), "1.20.1".to_string(), None);
    machine.step(RobustEvent::Versions(strings(&["a", "b", "c"])));
    machine.step(RobustEvent::Installed { derived_id: "id-a".to_string(), version: "a".to_string() });
    match machine.step(RobustEvent::Confirmed(false)) {
        RobustAction::Install { version } => assert_eq!(version, "b"),
        other => panic!("unexpected: {:?}", other),
    }
    match machine.step(RobustEvent::InstallFailed("nope".to_string())) {
        RobustAction::Install { version } => assert_eq!(version, "c"),
        other => panic!("unexpected: {:?}", other),
    }
    machine.step(RobustEvent::Installed { derived_id: "id-c".to_string(), version: "c".to_string() });
    match machine.step(RobustEvent::Confirmed(true)) {
        RobustAction::Done { derived_id, version } => {
            assert_eq!(derived_id, "id-c");
            assert_eq!(version, "c");
        }
        other => panic!("unexpected: {:?}", other),
    }
}

#[test]
fn the_first_installation_is_kept_when_nothing_can_be_confirmed() {
    let (mut machine, _) = RobustInstall::start("fabric".to_string(), "1.20.1".to_string(), None);
    machine.step(RobustEvent::Versions(strings(&["a", "b"])));
    machine.step(RobustEvent::Installed { derived_id: "id-a".to_string(), version: "a".to_string() });
    machine.step(RobustEvent::Confirmed(false));
    machine.step(RobustEvent::Installed { derived_id: "id-b".to_string(), version: "b".to_string() });
    match machine.step(RobustEvent::Confirmed(false)) {
        RobustAction::Done { derived_id, version } => {
            assert_eq!(derived_id, "id-a");
            assert_eq!(version, "a");
        }
        other => panic!("unexpected: {:?}", other),
    }
    assert!(matches!(machine.step(RobustEvent::Confirmed(true)), RobustAction::Fail(_)));
}

#[test]
fn a_pack_with_an_archive_is_unpacked() {
    let mut machine = started_pack();
    let record = match machine.step(PackEvent::Version(pack_version(
        &["1.19", "1.18"],
        &["forge"],
        &["readme.txt", "Pack.MRPACK", "other.mrpack"],
    ))) {
        PackAction::WriteRecord { record } => record,
        other => panic!("unexpected: {:?}", other),
    };
    assert_eq!(record.id, "i1");
    assert_eq!(record.name, "My pack");
    assert_eq!(record.version, "1.19");
    assert_eq!(record.state, InstanceState::Installing);
    assert_eq!(record.created_at, 77);
    match machine.step(PackEvent::Written) {
        PackAction::FetchPack { url, filename } => {
            assert_eq!(url, "https://cdn/Pack.MRPACK");
            assert_eq!(filename, "Pack.MRPACK");
        }
        other => panic!("unexpected: {:?}", other),
    }
    match machine.step(PackEvent::PackRead(index(Some("1.20.1"), &[("fabric-loader", "0.15.0")]))) {
        PackAction::EnsureBase { version } => assert_eq!(version, "1.20.1"),
        other => panic!("unexpected: {:?}", other),
    }
    match machine.step(PackEvent::BaseReady) {
        PackAction::InstallLoader { loader_type, base_version, requested } => {
            assert_eq!(loader_type, "fabric");
            assert_eq!(base_version, "1.20.1");
            assert_eq!(requested.as_deref(), Some("0.15.0"));
        }
        other => panic!("unexpected: {:?}", other),
    }
    match machine.step(PackEvent::LoaderInstalled("0.15.0".to_string())) {
        PackAction::WriteRecord { record } => {
            assert_eq!(record.loader.as_deref(), Some("fabric"));
            assert_eq!(record.loader_version.as_deref(), Some("0.15.0"));
            assert_eq!(record.version, "1.20.1");
            assert_eq!(record.mc_version.as_deref(), Some("1.20.1"));
            assert_eq!(record.state, InstanceState::Installing);
        }
        other => panic!("unexpected: {:?}", other),
    }
    match machine.step(PackEvent::Written) {
        PackAction::Unpack { filename } => assert_eq!(filename, "Pack.MRPACK"),
        other => panic!("unexpected: {:?}", other),
    }
    match machine.step(PackEvent::Unpacked) {
        PackAction::WriteRecord { record } => {
            assert_eq!(record.state, InstanceState::Ready);
            assert_eq!(record.loader.as_deref(), Some("fabric"));
        }
        other => panic!("unexpected: {:?}", other),
    }
    match machine.step(PackEvent::Written) {
        PackAction::Done { instance_id } => assert_eq!(instance_id, "i1"),
        other => panic!("unexpected: {:?}", other),
    }
    assert_eq!(machine.phase, PackPhase::Finished);
}

#[test]
fn a_pack_without_an_archive_brings_its_files_as_mods() {
    let mut machine = started_pack();
    machine.step(PackEvent::Version(pack_version(&["1.20.1"], &[], &["a.jar", "b.jar"])));
    match machine.step(PackEvent::Written) {
        PackAction::EnsureBase { version } => assert_eq!(version, "1.20.1"),
        other => panic!("unexpected: {:?}", other),
    }
    match machine.step(PackEvent::BaseReady) {
        PackAction::FetchMods { files } => {
            let names: Vec<&str> = files.iter().map(|f| f.filename.as_str()).collect();
            assert_eq!(names, vec!["a.jar", "b.jar"]);
            assert_eq!(files[0].url, "https://cdn/a.jar");
        }
        other => panic!("unexpected: {:?}", other),
    }
    match machine.step(PackEvent::ModFailed { filename: "b.jar".to_string(), cause: "404".to_string() }) {
        PackAction::Fail { message, record, discard_pack } => {
            assert_eq!(message, "Failed to download b.jar: 404");
            assert!(record.is_none());
            assert!(!discard_pack);
        }
        other => panic!("unexpected: {:?}", other),
    }
}

#[test]
fn the_registry_record_names_the_loader_when_there_is_no_index() {
    let mut machine = started_pack();
    machine.step(PackEvent::Version(pack_version(&["1.20.1"], &["Quilt"], &["a.jar"])));
    machine.step(PackEvent::Written);
    match machine.step(PackEvent::BaseReady) {
        PackAction::InstallLoader { loader_type, base_version, requested } => {
            assert_eq!(loader_type, "quilt");
            assert_eq!(base_version, "1.20.1");
            assert_eq!(requested, None);
        }
        other => panic!("unexpected: {:?}", other),
    }
    match machine.step(PackEvent::LoaderFailed("Failed to install quilt 1: x".to_string())) {
        PackAction::Fail { message, .. } => assert_eq!(message, "Failed to install quilt 1: x"),
        other => panic!("unexpected: {:?}", other),
    }
}

#[test]
fn forge_packs_are_refused_and_leave_the_instance_in_error() {
    let mut machine = started_pack();
    machine.step(PackEvent::Version(pack_version(&["1.20.1"], &["fabric"], &["p.mrpack"])));
    machine.step(PackEvent::Written);
    machine.step(PackEvent::PackRead(index(None, &[("forge", "47.1")])));
    match machine.step(PackEvent::BaseReady) {
        PackAction::Fail { message, record, discard_pack } => {
            assert_eq!(message, "Forge modpacks are not supported yet");
            assert_eq!(record.unwrap().state, InstanceState::Error);
            assert!(!discard_pack);
        }
        other => panic!("unexpected: {:?}", other),
    }
}

#[test]
fn failures_of_a_pack_are_explained() {
    let mut machine = started_pack();
    match machine.step(PackEvent::Version(pack_version(&[], &[], &[]))) {
        PackAction::Fail { message, .. } => assert_eq!(message, "No game version specified"),
        other => panic!("unexpected: {:?}", other),
    }
    let mut machine = started_pack();
    match machine.step(PackEvent::VersionFailed("HTTP 404".to_string())) {
        PackAction::Fail { message, .. } => assert_eq!(message, "HTTP 404"),
        other => panic!("unexpected: {:?}", other),
    }
    let mut machine = started_pack();
    machine.step(PackEvent::Version(pack_version(&["1.20.1"], &[], &["p.mrpack"])));
    machine.step(PackEvent::Written);
    match machine.step(PackEvent::PackFetchFailed("timeout".to_string())) {
        PackAction::Fail { message, discard_pack, .. } => {
            assert_eq!(message, "Failed to download modpack: timeout");
            assert!(!discard_pack);
        }
        other => panic!("unexpected: {:?}", other),
    }
    let mut machine = started_pack();
    machine.step(PackEvent::Version(pack_version(&["1.20.1"], &[], &["p.mrpack"])));
    machine.step(PackEvent::Written);
    match machine.step(PackEvent::PackUnreadable("no index".to_string())) {
        PackAction::Fail { message, discard_pack, .. } => {
            assert_eq!(message, "Failed to parse modpack: no index");
            assert!(discard_pack);
        }
        other => panic!("unexpected: {:?}", other),
    }
    let mut machine = started_pack();
    machine.step(PackEvent::Version(pack_version(&["1.20.1"], &[], &["p.mrpack"])));
    machine.step(PackEvent::Written);
    machine.step(PackEvent::PackRead(index(None, &[])));
    match machine.step(PackEvent::BaseFailed("offline".to_string())) {
        PackAction::Fail { message, .. } => assert_eq!(message, "offline"),
        other => panic!("unexpected: {:?}", other),
    }
    let mut machine = started_pack();
    machine.step(PackEvent::Version(pack_version(&["1.20.1"], &[], &["p.mrpack"])));
    machine.step(PackEvent::Written);
    machine.step(PackEvent::PackRead(index(None, &[])));
    assert!(matches!(machine.step(PackEvent::BaseReady), PackAction::Unpack { .. }));
    match machine.step(PackEvent::UnpackFailed("bad zip".to_string())) {
        PackAction::Fail { message, .. } => assert_eq!(message, "Failed to extract modpack: bad zip"),
        other => panic!("unexpected: {:?}", other),
    }
    assert!(matches!(machine.step(PackEvent::Written), PackAction::Fail { .. }));
}

#[test]
fn packs_and_mods_are_told_apart_by_name() {
    let files: Vec<ModrinthFile> = ["a.jar", "b.MrPack", "c.mrpack", "d.zip"].iter().map(|f| file(f)).collect();
    assert_eq!(find_pack(&files), Some(1));
    let mods: Vec<String> = mods_of(&files).into_iter().map(|f| f.filename).collect();
    assert_eq!(mods, strings(&["a.jar", "d.zip"]));
    assert_eq!(find_pack(&vec![file("a.jar")]), None);
    assert!(mods_of(&vec![]).is_empty());
}

fn fetched_download(loaders: &[&str]) -> LoaderDownload {
    let (mut machine, first) =
        LoaderDownload::start("i1".to_string(), "proj".to_string(), "ver".to_string());
    assert!(matches!(first, DownloadAction::FetchVersion { .. }));
    let mut version = pack_version(&["1.20.1"], loaders, &["fabric-installer.jar"]);
    version.version_number = "0.15.0".to_string();
    match machine.step(DownloadEvent::Version(version)) {
        DownloadAction::FetchFiles { files } => assert_eq!(files.len(), 1),
        other => panic!("unexpected: {:?}", other),
    }
    machine
}

#[test]
fn a_loader_with_installer_is_installed_checked_and_derived() {
    let mut machine = fetched_download(&["Fabric"]);
    match machine.step(DownloadEvent::FilesFetched) {
        DownloadAction::RecordLoader { loader_type, loader_version } => {
            assert_eq!(loader_type, "fabric");
            assert_eq!(loader_version, "0.15.0");
        }
        other => panic!("unexpected: {:?}", other),
    }
    assert!(matches!(machine.step(DownloadEvent::Recorded), DownloadAction::ListFiles));
    assert!(matches!(
        machine.step(DownloadEvent::Scanned(strings(&["notes.txt", "Fabric-Installer.jar", "x-installer"]))),
        DownloadAction::ReadInstance
    ));
    let instance = Instance::new("i1".to_string(), "n".to_string(), "1.20.1".to_string(), 0);
    match machine.step(DownloadEvent::InstanceRead(instance)) {
        DownloadAction::RunInstaller { installer, base_version, loader_version } => {
            assert_eq!(installer, "Fabric-Installer.jar");
            assert_eq!(base_version, "1.20.1");
            assert_eq!(loader_version, "0.15.0");
        }
        other => panic!("unexpected: {:?}", other),
    }
    match machine.step(DownloadEvent::InstallerRan) {
        DownloadAction::Verify { check: Check::Fabric { base_version, loader_version } } => {
            assert_eq!(base_version, "1.20.1");
            assert_eq!(loader_version, "0.15.0");
        }
        other => panic!("unexpected: {:?}", other),
    }
    match machine.step(DownloadEvent::Verified(true)) {
        DownloadAction::Derive { report, loader_type, base_version, version } => {
            assert!(report.success);
            assert_eq!(report.instance_id, "i1");
            assert_eq!(report.project_id, "proj");
            assert_eq!(report.version_id, "0.15.0");
            assert_eq!(loader_type, "fabric");
            assert_eq!(base_version, "1.20.1");
            assert_eq!(version, "0.15.0");
        }
        other => panic!("unexpected: {:?}", other),
    }
    assert!(matches!(machine.step(DownloadEvent::Derived), DownloadAction::Done { report: None }));
    assert_eq!(machine.phase, DownloadPhase::Finished);
}

#[test]
fn an_installation_that_does_not_show_is_only_announced() {
    let mut machine = fetched_download(&["neoforge"]);
    match machine.step(DownloadEvent::FilesFetched) {
        DownloadAction::RecordLoader { loader_type, .. } => assert_eq!(loader_type, "forge"),
        other => panic!("unexpected: {:?}", other),
    }
    machine.step(DownloadEvent::Recorded);
    machine.step(DownloadEvent::Scanned(strings(&["forge-installer.jar"])));
    machine.step(DownloadEvent::InstanceRead(Instance::new(
        "i1".to_string(),
        "n".to_string(),
        "1.20.1".to_string(),
        0,
    )));
    match machine.step(DownloadEvent::InstallerRan) {
        DownloadAction::Verify { check: Check::Names { project } } => assert_eq!(project, "neoforge"),
        other => panic!("unexpected: {:?}", other),
    }
    match machine.step(DownloadEvent::Verified(false)) {
        DownloadAction::Done { report: Some(report) } => {
            assert!(!report.success);
            assert_eq!(report.version_id, "0.15.0");
        }
        other => panic!("unexpected: {:?}", other),
    }
}

#[test]
fn a_loader_without_installer_is_only_checked() {
    let mut machine = fetched_download(&[]);
    match machine.step(DownloadEvent::FilesFetched) {
        DownloadAction::RecordLoader { loader_type, .. } => assert_eq!(loader_type, "proj"),
        other => panic!("unexpected: {:?}", other),
    }
    machine.step(DownloadEvent::Recorded);
    match machine.step(DownloadEvent::Scanned(strings(&["loader.jar"]))) {
        DownloadAction::Verify { check: Check::Names { project } } => assert_eq!(project, "proj"),
        other => panic!("unexpected: {:?}", other),
    }
    match machine.step(DownloadEvent::Verified(true)) {
        DownloadAction::Done { report: Some(report) } => {
            assert!(report.success);
            assert_eq!(report.version_id, "ver");
        }
        other => panic!("unexpected: {:?}", other),
    }
}

#[test]
fn failures_of_a_loader_download_end_it() {
    let (mut machine, _) =
        LoaderDownload::start("i1".to_string(), "proj".to_string(), "ver".to_string());
    match machine.step(DownloadEvent::VersionFailed("HTTP 404".to_string())) {
        DownloadAction::Fail(m) => assert_eq!(m, "HTTP 404"),
        other => panic!("unexpected: {:?}", other),
    }
    let mut machine = fetched_download(&["fabric"]);
    match machine.step(DownloadEvent::FileFailed("disk full".to_string())) {
        DownloadAction::Fail(m) => assert_eq!(m, "disk full"),
        other => panic!("unexpected: {:?}", other),
    }
    let mut machine = fetched_download(&["fabric"]);
    machine.step(DownloadEvent::FilesFetched);
    machine.step(DownloadEvent::Recorded);
    match machine.step(DownloadEvent::ScanFailed("denied".to_string())) {
        DownloadAction::Fail(m) => assert_eq!(m, "denied"),
        other => panic!("unexpected: {:?}", other),
    }
    let mut machine = fetched_download(&["fabric"]);
    machine.step(DownloadEvent::FilesFetched);
    machine.step(DownloadEvent::Recorded);
    machine.step(DownloadEvent::Scanned(strings(&["installer.jar"])));
    match machine.step(DownloadEvent::InstanceUnreadable("gone".to_string())) {
        DownloadAction::Fail(m) => assert_eq!(m, "gone"),
        other => panic!("unexpected: {:?}", other),
    }
    assert!(matches!(machine.step(DownloadEvent::Recorded), DownloadAction::Fail(_)));
    assert_eq!(find_installer(&strings(&["a", "My-INSTALLER.jar", "installer"])).as_deref(), Some("My-INSTALLER.jar"));
    assert_eq!(find_installer(&strings(&["a"])), None);
}
