use mc_launcher::instance::Instance;
use mc_launcher::java::{
    choose_java_source, get_intended_java_path, get_required_java_version, is_java_dir_name,
    java_compatibility, java_dir_name, java_download_url, java_major_version, parse_version,
    system_java_candidates, JavaSource, Probe,
};
use mc_launcher::settings::Settings;

#[test]
fn versions_are_read_as_up_to_three_numbers() {
    assert_eq!(parse_version("1.20.1"), Some((1, 20, 1)));
    assert_eq!(parse_version("1.18"), Some((1, 18, 0)));
    assert_eq!(parse_version("1.16.5-pre1"), Some((1, 16, 0)));
    assert_eq!(parse_version("1.20.1.7"), Some((1, 20, 1)));
    assert_eq!(parse_version("2.0.x"), Some((2, 0, 0)));
    assert_eq!(parse_version("1"), None);
    assert_eq!(parse_version(""), None);
    assert_eq!(parse_version("a.1"), None);
    assert_eq!(parse_version("1.b"), None);
    assert_eq!(parse_version("23w31a"), None);
    assert_eq!(parse_version("fabric-loader-0.15.0-1.20.1"), None);
}

#[test]
fn the_required_runtime_follows_the_version() {
    assert_eq!(get_required_java_version("1.20.1"), 17);
    assert_eq!(get_required_java_version("1.18"), 17);
    assert_eq!(get_required_java_version("2.0"), 17);
    assert_eq!(get_required_java_version("1.17.1"), 16);
    assert_eq!(get_required_java_version("1.17"), 16);
    assert_eq!(get_required_java_version("1.16.5"), 8);
    assert_eq!(get_required_java_version("1.7.10"), 8);
    assert_eq!(get_required_java_version("0.99"), 8);
    assert_eq!(get_required_java_version("23w31a"), 8);
    assert_eq!(get_required_java_version(""), 8);
}

#[test]
fn the_major_version_is_read_from_what_the_runtime_prints() {
    assert_eq!(java_major_version("openjdk version \"17.0.1\" 2021-10-19\nOpenJDK Runtime\n"), Some(17));
    assert_eq!(java_major_version("java version \"1.8.0_311\"\r\nJava(TM) SE"), Some(8));
    assert_eq!(java_major_version("openjdk version \"21\" 2023-09-19"), Some(21));
    assert_eq!(java_major_version("openjdk version \"16.0.2\""), Some(16));
    assert_eq!(java_major_version(""), None);
    assert_eq!(java_major_version("\nopenjdk version \"17.0.1\""), None);
    assert_eq!(java_major_version("java version"), None);
    assert_eq!(java_major_version("java version \"abc\""), None);
    assert_eq!(java_major_version("java version \"300.1\""), None);
    assert_eq!(java_major_version("java version \"1\""), Some(1));
    assert_eq!(java_major_version("java version \"1.x\""), None);
}

#[test]
fn runtimes_are_looked_for_in_the_standard_places_first() {
    let paths = system_java_candidates(17, None);
    assert_eq!(
        paths,
        vec![
            "C:\\Program Files\\Java\\jdk-17\\bin\\java.exe".to_string(),
            "C:\\Program Files\\Java\\jre-17\\bin\\java.exe".to_string(),
            "C:\\Program Files (x86)\\Java\\jdk-17\\bin\\java.exe".to_string(),
            "C:\\Program Files (x86)\\Java\\jre-17\\bin\\java.exe".to_string(),
        ]
    );
    let paths = system_java_candidates(8, Some("C:\\a\\java.exe\r\n  \r\n D:\\b\\java.exe \n"));
    assert_eq!(paths.len(), 6);
    assert_eq!(paths[0], "C:\\Program Files\\Java\\jdk-8\\bin\\java.exe");
    assert_eq!(paths[4], "C:\\a\\java.exe");
    assert_eq!(paths[5], "D:\\b\\java.exe");
    assert_eq!(system_java_candidates(8, Some("")).len(), 4);
}

#[test]
fn downloaded_runtimes_have_fixed_places() {
    assert_eq!(
        java_download_url(17),
        "https://api.adoptium.net/v3/binary/latest/17/ga/windows/x64/jre/hotspot/normal/eclipse"
    );
    assert_eq!(java_dir_name(8), "jdk-8");
    assert!(is_java_dir_name("jdk-17.0.1+12-jre", 17));
    assert!(is_java_dir_name("jdk8u312-b07", 8));
    assert!(is_java_dir_name("OpenJDK-jre-17", 17));
    assert!(is_java_dir_name("jre8", 8));
    assert!(!is_java_dir_name("jdk-17.0.1", 8));
    assert!(!is_java_dir_name("java-17", 17));
    assert!(is_java_dir_name("jdk-170", 17));
}

#[test]
fn the_intended_runtime_prefers_the_global_setting() {
    let mut settings = Settings::default();
    let mut instance = Instance::new("i".to_string(), "n".to_string(), "1.20.1".to_string(), 0);
    assert_eq!(get_intended_java_path(&settings, &instance), "java");
    instance.java_path = Some("/found".to_string());
    assert_eq!(get_intended_java_path(&settings, &instance), "/found");
    instance.java_path_override = Some("/mine".to_string());
    assert_eq!(get_intended_java_path(&settings, &instance), "/mine");
    settings.global_java_path = Some("/global".to_string());
    assert_eq!(get_intended_java_path(&settings, &instance), "/global");
}

#[test]
fn compatibility_compares_the_reported_with_the_required_runtime() {
    let mut settings = Settings::default();
    let mut instance = Instance::new("i".to_string(), "n".to_string(), "1.20.1".to_string(), 0);
    let c = java_compatibility(&settings, &instance, Some(17));
    assert!(c.compatible);
    assert_eq!(c.required_version, 17);
    assert_eq!(c.actual_version, Some(17));
    assert_eq!(c.path, "java");
    assert!(!java_compatibility(&settings, &instance, Some(8)).compatible);
    assert!(!java_compatibility(&settings, &instance, None).compatible);
    instance.java_warning_ignored = true;
    assert!(java_compatibility(&settings, &instance, Some(8)).compatible);
    instance.java_warning_ignored = false;
    settings.skip_java_check = true;
    assert!(java_compatibility(&settings, &instance, None).compatible);
    settings.skip_java_check = false;
    // The base version decides, not the derived one.
    instance.version = "fabric-loader-0.15.0-1.16.5".to_string();
    instance.mc_version = Some("1.16.5".to_string());
    assert_eq!(java_compatibility(&settings, &instance, Some(8)).required_version, 8);
    assert!(java_compatibility(&settings, &instance, Some(8)).compatible);
}

#[test]
fn the_runtime_comes_from_the_settings_the_system_or_a_download() {
    assert_eq!(choose_java_source(17, Probe::Found(Some(17)), true), JavaSource::Global);
    assert_eq!(choose_java_source(17, Probe::Found(Some(8)), true), JavaSource::System);
    assert_eq!(choose_java_source(17, Probe::Found(None), false), JavaSource::Download);
    assert_eq!(choose_java_source(17, Probe::Missing, true), JavaSource::System);
    assert_eq!(choose_java_source(17, Probe::Unset, false), JavaSource::Download);
}
