use mc_launcher::json::parse_json;
use mc_launcher::profile::{
    check_profile_base, derived_descriptor, describe_unreadable, merge_profile,
    read_profile_library, LoaderError,
};
use mc_launcher::string_map::StringMap;
use mc_launcher::version::{
    Artifact, AssetIndex, DownloadInfo, Downloads, Library, LibraryDownloads, VersionJson,
};

fn base_version() -> VersionJson {
    VersionJson {
        id: Some("1.20.1".to_string()),
        inheritsFrom: None,
        releaseTime: Some("2023-06-12".to_string()),
        time: Some("2023-06-12".to_string()),
        version_type: Some("release".to_string()),
        arguments: None,
        libraries: vec![Library {
            name: "com.mojang:brigadier:1.1.8".to_string(),
            downloads: LibraryDownloads {
                artifact: Some(Artifact {
                    path: "com/mojang/brigadier/1.1.8/brigadier-1.1.8.jar".to_string(),
                    url: "https://libraries.minecraft.net/brigadier.jar".to_string(),
                    sha1: "abc".to_string(),
                    size: 77,
                }),
                classifiers: StringMap::new(),
            },
            natives: StringMap::new(),
            rules: Vec::new(),
        }],
        downloads: Downloads {
            client: DownloadInfo {
                url: "https://client.example/client.jar".to_string(),
                sha1: "aa".to_string(),
                size: 10,
            },
        },
        mainClass: "net.minecraft.client.main.Main".to_string(),
        assetIndex: AssetIndex {
            id: "5".to_string(),
            url: "https://assets.example/5.json".to_string(),
            sha1: "bb".to_string(),
            size: 20,
        },
    }
}

#[test]
fn a_profile_must_target_the_requested_base() {
    let profile = parse_json("{\"inheritsFrom\":\"1.20.1\"}").unwrap();
    assert!(check_profile_base(&profile, "1.20.1").is_ok());
    match check_profile_base(&profile, "1.19.4") {
        Err(LoaderError::BaseMismatch { expected, found }) => {
            assert_eq!(expected, "1.19.4");
            assert_eq!(found, "1.20.1");
        }
        other => panic!("unexpected: {:?}", other),
    }
}

#[test]
fn a_profile_without_a_base_is_refused() {
    for text in ["{}", "{\"inheritsFrom\":7}", "[]", "{\"baseVersion\":\"1.20.1\"}"] {
        let profile = parse_json(text).unwrap();
        assert!(matches!(check_profile_base(&profile, "1.20.1"), Err(LoaderError::MissingBase)));
    }
}

#[test]
fn loader_errors_read_as_sentences() {
    assert_eq!(LoaderError::MissingBase.message(), "profile missing inheritsFrom");
    assert_eq!(
        LoaderError::BaseMismatch { expected: "1.19.4".to_string(), found: "1.20.1".to_string() }
            .message(),
        "profile inheritsFrom mismatch: expected 1.19.4, found 1.20.1"
    );
    assert_eq!(LoaderError::Network("HTTP 500 response: x".to_string()).message(), "HTTP 500 response: x");
    assert_eq!(LoaderError::Schema("bad".to_string()).message(), "bad");
    assert_eq!(LoaderError::Install("disk full".to_string()).message(), "disk full");
}

#[test]
fn unreadable_responses_are_quoted_up_to_200_characters() {
    let long = "x".repeat(300);
    let message = describe_unreadable("expected value at line 1 column 1", &long);
    assert_eq!(
        message,
        format!("expected value at line 1 column 1 - response (truncated): {}", "x".repeat(200))
    );
    assert_eq!(describe_unreadable("e", "short"), "e - response (truncated): short");
}

#[test]
fn a_library_with_a_download_record_is_taken_from_it() {
    let entry = parse_json(
        "{\"name\":\"a:b:1\",\"downloads\":{\"artifact\":{\"url\":\"https://x/b.jar\",\"path\":\"a/b/1/b-1.jar\",\"sha1\":\"ff\",\"size\":12}},\"url\":\"https://maven.example/\"}",
    )
    .unwrap();
    let lib = read_profile_library(&entry).unwrap();
    assert_eq!(lib.name, "a:b:1");
    let artifact = lib.downloads.artifact.unwrap();
    assert_eq!(artifact.url, "https://x/b.jar");
    assert_eq!(artifact.path, "a/b/1/b-1.jar");
    assert_eq!(artifact.sha1, "ff");
    assert_eq!(artifact.size, 12);
    assert_eq!(lib.natives.len(), 0);
    assert_eq!(lib.downloads.classifiers.len(), 0);
    assert!(lib.rules.is_empty());
}

#[test]
fn an_incomplete_download_record_gives_no_artifact() {
    let entry = parse_json(
        "{\"name\":\"a:b:1\",\"downloads\":{\"artifact\":{\"url\":\"https://x/b.jar\",\"path\":\"p\"}},\"url\":\"https://maven.example/\"}",
    )
    .unwrap();
    let lib = read_profile_library(&entry).unwrap();
    assert!(lib.downloads.artifact.is_none());
}

#[test]
fn a_repository_library_is_rebuilt_from_its_coordinates() {
    let entry = parse_json(
        "{\"name\":\"net.fabricmc:fabric-loader:0.15.0\",\"url\":\"https://maven.fabricmc.net/\"}",
    )
    .unwrap();
    let artifact = read_profile_library(&entry).unwrap().downloads.artifact.unwrap();
    assert_eq!(artifact.path, "net/fabricmc/fabric-loader/0.15.0/fabric-loader-0.15.0.jar");
    assert_eq!(
        artifact.url,
        "https://maven.fabricmc.net/net/fabricmc/fabric-loader/0.15.0/fabric-loader-0.15.0.jar"
    );
    assert_eq!(artifact.sha1, "");
    assert_eq!(artifact.size, 0);

    let entry = parse_json(
        "{\"name\":\"org.ow2.asm:asm:9.6\",\"url\":\"https://maven.fabricmc.net\",\"sha1\":\"d1\",\"size\":123}",
    )
    .unwrap();
    let artifact = read_profile_library(&entry).unwrap().downloads.artifact.unwrap();
    assert_eq!(artifact.url, "https://maven.fabricmc.net/org/ow2/asm/asm/9.6/asm-9.6.jar");
    assert_eq!(artifact.sha1, "d1");
    assert_eq!(artifact.size, 123);
}

#[test]
fn entries_without_a_name_or_with_odd_coordinates_are_handled() {
    assert!(read_profile_library(&parse_json("{\"url\":\"https://m/\"}").unwrap()).is_none());
    assert!(read_profile_library(&parse_json("\"text\"").unwrap()).is_none());
    let lib =
        read_profile_library(&parse_json("{\"name\":\"odd\",\"url\":\"https://m/\"}").unwrap())
            .unwrap();
    assert_eq!(lib.name, "odd");
    assert!(lib.downloads.artifact.is_none());
    let lib = read_profile_library(&parse_json("{\"name\":\"a:b:c\"}").unwrap()).unwrap();
    assert!(lib.downloads.artifact.is_none());
}

#[test]
fn merging_appends_the_profile_libraries_to_those_of_the_base() {
    let profile = parse_json(
        "{\"inheritsFrom\":\"1.20.1\",\"mainClass\":\"net.fabricmc.loader.impl.launch.knot.KnotClient\",\"libraries\":[{\"name\":\"net.fabricmc:fabric-loader:0.15.0\",\"url\":\"https://maven.fabricmc.net/\"},{\"noname\":true},{\"name\":\"org.ow2.asm:asm:9.6\",\"url\":\"https://maven.fabricmc.net/\"}]}",
    )
    .unwrap();
    let merged = merge_profile(base_version(), &profile, "1.20.1");
    let names: Vec<&str> = merged.libraries.iter().map(|l| l.name.as_str()).collect();
    assert_eq!(
        names,
        vec!["com.mojang:brigadier:1.1.8", "net.fabricmc:fabric-loader:0.15.0", "org.ow2.asm:asm:9.6"]
    );
    assert_eq!(merged.mainClass, "net.fabricmc.loader.impl.launch.knot.KnotClient");
    assert_eq!(merged.inheritsFrom.as_deref(), Some("1.20.1"));
    assert_eq!(merged.id, None);
    assert_eq!(merged.releaseTime, None);
    assert_eq!(merged.time, None);
    assert_eq!(merged.version_type, None);
    assert!(merged.arguments.is_none());
    assert_eq!(merged.downloads.client.url, "https://client.example/client.jar");
    assert_eq!(merged.assetIndex.id, "5");
}

#[test]
fn merging_keeps_the_base_where_the_profile_is_silent() {
    let profile = parse_json("{\"libraries\":\"none\",\"downloads\":{\"client\":{\"url\":\"u\"}}}").unwrap();
    let merged = merge_profile(base_version(), &profile, "1.20.1");
    assert_eq!(merged.libraries.len(), 1);
    assert_eq!(merged.mainClass, "net.minecraft.client.main.Main");
    assert_eq!(merged.downloads.client.url, "https://client.example/client.jar");
}

#[test]
fn merging_prefers_a_complete_client_download_of_the_profile() {
    let profile = parse_json(
        "{\"downloads\":{\"client\":{\"url\":\"https://p/client.jar\",\"sha1\":\"cc\",\"size\":99}}}",
    )
    .unwrap();
    let merged = merge_profile(base_version(), &profile, "1.20.1");
    assert_eq!(merged.downloads.client.url, "https://p/client.jar");
    assert_eq!(merged.downloads.client.sha1, "cc");
    assert_eq!(merged.downloads.client.size, 99);
}

#[test]
fn the_persisted_descriptor_names_its_id_base_and_type() {
    let profile = parse_json("{}").unwrap();
    let merged = merge_profile(base_version(), &profile, "1.20.1");
    let kept = derived_descriptor(merged, "fabric-loader-0.15.0-1.20.1", "1.20.1");
    assert_eq!(kept.id.as_deref(), Some("fabric-loader-0.15.0-1.20.1"));
    assert_eq!(kept.inheritsFrom.as_deref(), Some("1.20.1"));
    assert_eq!(kept.version_type.as_deref(), Some("release"));

    let mut own = base_version();
    own.inheritsFrom = Some("1.19".to_string());
    own.version_type = Some("snapshot".to_string());
    let kept = derived_descriptor(own, "x", "1.20.1");
    assert_eq!(kept.id.as_deref(), Some("x"));
    assert_eq!(kept.inheritsFrom.as_deref(), Some("1.19"));
    assert_eq!(kept.version_type.as_deref(), Some("snapshot"));
    assert_eq!(kept.libraries.len(), 1);
}
