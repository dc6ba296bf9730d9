use mc_launcher::commands::{
    check_version_usage, deletable_version, finish_install, sort_newest_first, InstanceLog,
};
use mc_launcher::download::check_response;
use mc_launcher::instance::{derived_version_id, Instance, InstanceState};
use mc_launcher::layout::{Layout, Platform};
use mc_launcher::loader::LoaderCandidate;
use mc_launcher::modrinth::{
    is_client_file, is_mrpack_name, is_supported_pack_loader, loader_candidates, override_target,
    pack_base_version, pack_loader, popular_limit, popular_mods_url, primary_file,
    project_versions_url, search_url, supports_game_version, version_url, ModpackEnv, ModpackFile,
    ModpackIndex, ModrinthFile, ModrinthProjectHit, ModrinthVersion,
};
use mc_launcher::settings::Settings;
use mc_launcher::string_map::StringMap;

fn instance(id: &str, version: &str, loader: Option<(&str, &str)>) -> Instance {
    let mut i = Instance::new(id.to_string(), id.to_string(), version.to_string(), 1);
    if let Some((loader, loader_version)) = loader {
        i.set_loader(loader.to_string(), loader_version.to_string());
    }
    i
}

fn file(name: &str, primary: bool) -> ModrinthFile {
    ModrinthFile { url: format!("https://cdn/{}", name), filename: name.to_string(), primary, size: 1 }
}

fn mod_version(id: &str, number: &str, games: &[&str]) -> ModrinthVersion {
    ModrinthVersion {
        id: id.to_string(),
        project_id: "P".to_string(),
        name: id.to_string(),
        version_number: number.to_string(),
        dependencies: Vec::new(),
        game_versions: games.iter().map(|g| g.to_string()).collect(),
        loaders: vec!["fabric".to_string()],
        files: Vec::new(),
    }
}

#[test]
fn paths_follow_the_layout_of_the_installation() {
    let l = Layout { root: "/mc".to_string(), separator: "/".to_string() };
    assert_eq!(l.version_dir("1.20.1"), "/mc/versions/1.20.1");
    assert_eq!(l.version_json_path("1.20.1"), "/mc/versions/1.20.1/1.20.1.json");
    assert_eq!(l.client_jar_path("1.20.1"), "/mc/versions/1.20.1/1.20.1.jar");
    assert_eq!(l.library_path("a/b/c.jar"), "/mc/libraries/a/b/c.jar");
    assert_eq!(l.assets_dir(), "/mc/assets");
    assert_eq!(l.asset_index_path("5"), "/mc/assets/indexes/5.json");
    assert_eq!(l.asset_object_path("abcdef"), "/mc/assets/objects/ab/abcdef");
    assert_eq!(l.asset_object_path("a"), "/mc/assets/objects/a/a");
    assert_eq!(l.instance_dir("i1"), "/mc/instances/i1");
    assert_eq!(l.instance_meta_path("i1"), "/mc/instances/i1/instance.json");
    assert_eq!(l.game_dir("i1"), "/mc/instances/i1/.minecraft");
    let w = Layout { root: "C:\\mc".to_string(), separator: "\\".to_string() };
    assert_eq!(w.asset_object_path("abcdef"), "C:\\mc\\assets\\objects\\ab\\abcdef");
}

#[test]
fn platforms_know_their_key_and_separators() {
    let w = Platform::windows();
    assert_eq!((w.os.as_str(), w.dir_separator.as_str(), w.list_separator.as_str()), ("windows", "\\", ";"));
    let m = Platform::osx();
    assert_eq!((m.os.as_str(), m.dir_separator.as_str(), m.list_separator.as_str()), ("osx", "/", ":"));
    let l = Platform::linux();
    assert_eq!((l.os.as_str(), l.dir_separator.as_str(), l.list_separator.as_str()), ("linux", "/", ":"));
}

#[test]
fn default_settings_are_those_of_a_fresh_installation() {
    let s = Settings::default();
    assert_eq!(s.max_memory, 2048);
    assert_eq!(s.min_memory, 512);
    assert!(!s.close_on_launch);
    assert!(s.keep_logs_open);
    assert_eq!(s.global_java_args, "-XX:+UseG1GC -Dsun.stdout.encoding=UTF-8");
    assert_eq!(s.global_java_path, None);
    assert!(!s.skip_java_check);
}

#[test]
fn a_new_instance_is_being_installed() {
    let i = Instance::new("id".to_string(), "name".to_string(), "1.20.1".to_string(), 77);
    assert_eq!(i.state, InstanceState::Installing);
    assert_eq!(i.mc_version.as_deref(), Some("1.20.1"));
    assert_eq!(i.created_at, 77);
    assert_eq!(i.last_played, None);
    assert_eq!(i.loader, None);
    assert_eq!(i.launch_version_id(), "1.20.1");
    assert_eq!(i.owned_version_id(), "1.20.1");
    let c = i.clone();
    assert_eq!(c.id, "id");
    assert_eq!(c.state, InstanceState::Installing);
}

#[test]
fn derived_ids_name_loader_version_and_base() {
    assert_eq!(derived_version_id("fabric", "0.15.0", "1.20.1"), "fabric-loader-0.15.0-1.20.1");
    assert_eq!(derived_version_id("quilt", "0.20.0-beta.1", "1.19"), "quilt-loader-0.20.0-beta.1-1.19");
    let mut i = instance("a", "1.20.1", Some(("fabric", "0.15.0")));
    assert_eq!(i.launch_version_id(), "fabric-loader-0.15.0-1.20.1");
    i.mc_version = Some("1.20".to_string());
    assert_eq!(i.launch_version_id(), "fabric-loader-0.15.0-1.20");
    assert_eq!(i.owned_version_id(), "fabric-loader-0.15.0-1.20.1");
    assert_eq!(i.base_version(), "1.20");
    i.mc_version = None;
    assert_eq!(i.base_version(), "1.20.1");
    i.loader_version = None;
    assert_eq!(i.launch_version_id(), "1.20.1");
}

#[test]
fn records_recover_from_states_that_do_not_outlive_the_launcher() {
    for (state, changes) in [
        (InstanceState::Running, true),
        (InstanceState::Installing, true),
        (InstanceState::Ready, false),
        (InstanceState::Error, false),
        (InstanceState::NotInstalled, false),
    ] {
        let mut i = instance("a", "1.20.1", None);
        i.set_state(state);
        assert_eq!(i.recover(), changes);
        assert_eq!(i.state, if changes { InstanceState::Ready } else { state });
    }
}

#[test]
fn versions_in_use_by_other_instances_are_kept() {
    let all = vec![
        instance("a", "1.20.1", None),
        instance("b", "1.20.1", None),
        instance("c", "1.19", Some(("fabric", "0.15.0"))),
        instance("d", "1.19", None),
    ];
    assert!(!check_version_usage(&all, "a", "1.20.1"));
    assert!(check_version_usage(&all, "a", "1.18"));
    assert!(!check_version_usage(&all, "c", "1.19"));
    assert!(check_version_usage(&vec![instance("a", "1.20.1", None)], "a", "1.20.1"));
    assert_eq!(deletable_version(&all, "a"), Some(("1.20.1".to_string(), false)));
    assert_eq!(deletable_version(&all, "c"), Some(("fabric-loader-0.15.0-1.19".to_string(), true)));
    assert_eq!(deletable_version(&all, "d"), Some(("1.19".to_string(), true)));
    assert_eq!(deletable_version(&all, "zzz"), None);
}

#[test]
fn an_installation_ends_ready_or_in_error() {
    let (i, r) = finish_install(instance("a", "1.20.1", None), Ok("/java".to_string()), Ok(()));
    assert_eq!(r, Ok(()));
    assert_eq!(i.state, InstanceState::Ready);
    assert_eq!(i.java_path.as_deref(), Some("/java"));
    let (i, r) =
        finish_install(instance("a", "1.20.1", None), Ok("/java".to_string()), Err("404".to_string()));
    assert_eq!(r, Err("404".to_string()));
    assert_eq!(i.state, InstanceState::Error);
    assert_eq!(i.java_path, None);
    let (i, r) = finish_install(instance("a", "1.20.1", None), Err("no java".to_string()), Ok(()));
    assert_eq!(r, Err("Java installation failed: no java".to_string()));
    assert_eq!(i.state, InstanceState::Error);
}

#[test]
fn responses_that_are_no_success_quote_status_and_body() {
    assert_eq!(check_response(true, 200, "body".to_string()), Ok("body".to_string()));
    assert_eq!(
        check_response(false, 404, "not here".to_string()),
        Err("HTTP 404 response: not here".to_string())
    );
    let long = "é".repeat(250);
    assert_eq!(
        check_response(false, 500, long),
        Err(format!("HTTP 500 response: {}", "é".repeat(200)))
    );
}

#[test]
fn registry_addresses_are_built_from_their_parts() {
    assert_eq!(
        search_url("sodium", "mod"),
        "https://api.modrinth.com/v2/search?query=sodium&facets=[[\"project_type:mod\"]]"
    );
    assert_eq!(project_versions_url("AANobbMI"), "https://api.modrinth.com/v2/project/AANobbMI/version");
    assert_eq!(version_url("abc"), "https://api.modrinth.com/v2/version/abc");
    assert_eq!(
        popular_mods_url(20),
        "https://api.modrinth.com/v2/search?query=&facets=[[\"project_type:mod\"]]&index=0&limit=20&sort=downloads"
    );
    assert_eq!(popular_limit(None), 20);
    assert_eq!(popular_limit(Some(5)), 5);
}

#[test]
fn pack_files_for_the_client_are_told_apart() {
    let with_env = |client: &str| ModpackFile {
        path: "mods/a.jar".to_string(),
        hashes: StringMap::new(),
        env: Some(ModpackEnv { client: client.to_string(), server: "required".to_string() }),
        downloads: Vec::new(),
        file_size: None,
    };
    assert!(is_client_file(&with_env("required")));
    assert!(is_client_file(&with_env("optional")));
    assert!(!is_client_file(&with_env("unsupported")));
    let mut without = with_env("x");
    without.env = None;
    assert!(is_client_file(&without));
}

#[test]
fn overrides_go_into_the_game_directory() {
    assert_eq!(override_target("overrides/config/a.toml").as_deref(), Some("config/a.toml"));
    assert_eq!(override_target("client-overrides/options.txt").as_deref(), Some("options.txt"));
    assert_eq!(override_target("overrides/"), None);
    assert_eq!(override_target("client-overrides/"), None);
    assert_eq!(override_target("modrinth.index.json"), None);
    assert_eq!(override_target("server-overrides/x"), None);
    assert_eq!(override_target("overrides"), None);
}

#[test]
fn packs_are_recognised_by_their_extension() {
    assert!(is_mrpack_name("pack.mrpack"));
    assert!(is_mrpack_name("Pack.MRPACK"));
    assert!(!is_mrpack_name("pack.zip"));
    assert!(!is_mrpack_name("mrpack"));
}

#[test]
fn the_primary_file_is_the_one_installed() {
    assert_eq!(primary_file(&vec![file("a", false), file("b", true), file("c", true)]), Some(1));
    assert_eq!(primary_file(&vec![file("a", false)]), Some(0));
    assert_eq!(primary_file(&vec![file("a", false), file("b", false)]), None);
    assert_eq!(primary_file(&vec![]), None);
}

#[test]
fn candidates_are_the_versions_for_the_game_version() {
    let hit = ModrinthProjectHit {
        project_id: "fabric-api".to_string(),
        title: "Fabric".to_string(),
        description: "".to_string(),
        icon_url: None,
        author: "".to_string(),
        categories: Vec::new(),
        project_type: "mod".to_string(),
        latest_version: "".to_string(),
        gallery: None,
    };
    let versions = vec![
        mod_version("v1", "0.15.0", &["1.20.1", "1.20"]),
        mod_version("v2", "0.14.0", &["1.19"]),
        mod_version("v3", "0.13.0", &["1.20.1"]),
    ];
    assert!(supports_game_version(&versions[0], "1.20"));
    assert!(!supports_game_version(&versions[1], "1.20"));
    let found: Vec<LoaderCandidate> = loader_candidates(&hit, &versions, "1.20.1");
    assert_eq!(found.len(), 2);
    assert_eq!(found[0].project_id, "fabric-api");
    assert_eq!(found[0].project_title, "Fabric");
    assert_eq!(found[0].version_id, "v1");
    assert_eq!(found[0].version_number, "0.15.0");
    assert_eq!(found[0].game_versions, vec!["1.20.1".to_string(), "1.20".to_string()]);
    assert_eq!(found[1].version_id, "v3");
    assert!(loader_candidates(&hit, &versions, "1.0").is_empty());
}

#[test]
fn a_pack_names_its_base_version_and_loader() {
    let mut deps: StringMap<String> = StringMap::new();
    deps.insert("minecraft".to_string(), "1.20.1".to_string());
    deps.insert("quilt-loader".to_string(), "0.20.2".to_string());
    let index = ModpackIndex {
        format_version: Some(1),
        game: "minecraft".to_string(),
        version_id: Some("1.20.1".to_string()),
        name: "pack".to_string(),
        summary: None,
        files: Vec::new(),
        dependencies: deps,
    };
    assert_eq!(pack_base_version(Some(&index), "1.19"), "1.20.1");
    assert_eq!(pack_base_version(None, "1.19"), "1.19");
    let loader = pack_loader(Some(&index), &vec!["fabric".to_string()]).unwrap();
    assert_eq!(loader.loader_type, "quilt");
    assert_eq!(loader.version.as_deref(), Some("0.20.2"));
    let loader = pack_loader(None, &vec!["Fabric".to_string()]).unwrap();
    assert_eq!(loader.loader_type, "fabric");
    assert_eq!(loader.version, None);
    assert!(pack_loader(None, &vec![]).is_none());
    assert!(is_supported_pack_loader("fabric"));
    assert!(!is_supported_pack_loader("forge"));
}

#[test]
fn log_lines_carry_their_instance() {
    let line = InstanceLog { instance_id: "i1".to_string(), message: "[main] ready".to_string() };
    assert_eq!(line.clone().instance_id, "i1");
    assert_eq!(line.message, "[main] ready");
}

#[test]
fn instances_are_listed_newest_first() {
    let made = |id: &str, at: u64| Instance::new(id.to_string(), id.to_string(), "1".to_string(), at);
    let sorted = sort_newest_first(vec![
        made("a", 5),
        made("b", 9),
        made("c", 5),
        made("d", 1),
        made("e", 9),
    ]);
    let ids: Vec<&str> = sorted.iter().map(|i| i.id.as_str()).collect();
    assert_eq!(ids, vec!["b", "e", "a", "c", "d"]);
    assert!(sort_newest_first(vec![]).is_empty());
}
